use pwos::error::OsError;
use pwos::ota::{parse_info_version, Ota, RetainedState, Slot, SlotState, MAX_FAILIURES};
use pwos::power::ResetReason;

fn slot(state: SlotState, version: Option<&str>) -> Slot {
    Slot { state, version: version.map(|v| v.to_string()) }
}

fn engine(state: SlotState, failures: u8, report_pending: bool) -> Ota {
    Ota::new(
        slot(state, Some("v2.0.0-rc3-8-g1a1ba69")),
        None,
        RetainedState { failures, report_pending },
    )
}

#[test]
fn version_token_is_cut_at_first_dash() {
    assert_eq!(parse_info_version("v2.0.0-rc3-8-g1a1ba69"), Some("2.0.0".to_string()));
    assert_eq!(parse_info_version("v1.2.3-dirty"), Some("1.2.3".to_string()));
}

#[test]
fn version_token_without_shape_is_rejected() {
    assert_eq!(parse_info_version("2.0.0"), None);
    assert_eq!(parse_info_version("v2.0.0"), None);
    assert_eq!(parse_info_version("2.0.0-rc3"), None);
    assert_eq!(parse_info_version("-abc"), None);
    assert_eq!(parse_info_version("v-abc"), None);
    assert_eq!(parse_info_version(""), None);
}

#[test]
fn current_version_reports_metadata_errors() {
    let ok = engine(SlotState::Valid, 0, false);
    assert_eq!(ok.current_version(), Ok(Some("2.0.0".to_string())));

    let missing = Ota::new(slot(SlotState::Valid, None), None, RetainedState { failures: 0, report_pending: false });
    assert_eq!(missing.current_version(), Err(OsError::MissingPartitionMetadata));

    let malformed = Ota::new(
        slot(SlotState::Valid, Some("2.0.0")),
        None,
        RetainedState { failures: 0, report_pending: false },
    );
    assert_eq!(malformed.current_version(), Err(OsError::IllegalFirmwareVersion));
}

#[test]
fn previous_version_only_after_rollback() {
    let plain = engine(SlotState::Valid, 0, false);
    assert_eq!(plain.previous_version(), Ok(None));

    let rolled = Ota::new(
        slot(SlotState::Valid, Some("v1.0.0-1-gabc")),
        Some(slot(SlotState::Invalid, Some("v1.1.0-rc1"))),
        RetainedState { failures: 0, report_pending: true },
    );
    assert!(rolled.rollback_detected());
    assert_eq!(rolled.previous_version(), Ok(Some("1.1.0".to_string())));
}

#[test]
fn rollback_fires_at_threshold_on_provisional_slot() {
    for failures in 0..=10u8 {
        let mut o = engine(SlotState::Unverified, failures, false);
        let fired = o.rollback_if_needed();
        assert_eq!(fired, failures >= MAX_FAILIURES);
        if fired {
            assert_eq!(o.running_state(), SlotState::Invalid);
            assert!(o.boots_other());
        } else {
            assert_eq!(o.running_state(), SlotState::Unverified);
            assert!(!o.boots_other());
        }
    }
}

#[test]
fn rollback_never_fires_on_confirmed_slot() {
    for failures in [0u8, 3, 4, 200, 255] {
        let mut o = engine(SlotState::Valid, failures, true);
        assert!(!o.rollback_if_needed());
        assert_eq!(o.running_state(), SlotState::Valid);
        assert!(!o.boots_other());
    }
}

#[test]
fn failures_counted_only_on_provisional_slot() {
    let mut provisional = engine(SlotState::Unverified, 0, false);
    for _ in 0..3 {
        provisional.inc_failiures();
    }
    assert_eq!(provisional.retained().failures, 3);
    assert!(provisional.rollback_if_needed());

    let mut confirmed = engine(SlotState::Valid, 0, false);
    for _ in 0..5 {
        confirmed.inc_failiures();
    }
    assert_eq!(confirmed.retained().failures, 0);

    let mut saturated = engine(SlotState::Unverified, 255, false);
    saturated.inc_failiures();
    assert_eq!(saturated.retained().failures, 255);
}

#[test]
fn commit_resets_counter_and_sets_report_pending() {
    let mut o = engine(SlotState::Unverified, 2, false);
    let h = o.begin_update().expect("transaction opens");
    h.commit(&mut o);
    assert_eq!(o.retained(), RetainedState { failures: 0, report_pending: true });
    assert!(o.boots_other());
    assert!(!o.rollback_detected());
    assert_eq!(o.running_state(), SlotState::Unverified);
}

#[test]
fn cancel_keeps_boot_target_and_validity() {
    let mut o = Ota::new(
        slot(SlotState::Valid, Some("v1.0.0-x")),
        Some(slot(SlotState::Invalid, Some("v1.1.0-y"))),
        RetainedState { failures: 1, report_pending: false },
    );
    let mut h = o.begin_update().expect("transaction opens");
    h.record_write(1024);
    h.record_write(512);
    assert_eq!(h.written(), 1536);
    h.cancel(&mut o);
    assert!(!o.boots_other());
    assert_eq!(o.running_state(), SlotState::Valid);
    assert!(o.rollback_detected());
    assert_eq!(o.retained(), RetainedState { failures: 1, report_pending: false });
    // the transaction is closed again
    assert!(o.begin_update().is_ok());
}

#[test]
fn only_one_transaction_at_a_time() {
    let mut o = engine(SlotState::Valid, 0, false);
    let h = o.begin_update().expect("transaction opens");
    assert_eq!(o.begin_update().err(), Some(OsError::UpdateInProgress));
    h.cancel(&mut o);
    assert!(o.begin_update().is_ok());
}

#[test]
fn mark_reported_is_idempotent() {
    let mut o = engine(SlotState::Unverified, 0, true);
    assert!(o.report_needed());
    o.mark_reported();
    assert!(!o.retained().report_pending);
    assert!(!o.report_needed());
    o.mark_reported();
    assert!(!o.retained().report_pending);
    assert!(!o.report_needed());
    o.inc_failiures();
    assert!(!o.report_needed());
}

#[test]
fn report_needed_on_rollback_even_when_confirmed() {
    let rolled = Ota::new(
        slot(SlotState::Valid, Some("v1.0.0-x")),
        Some(slot(SlotState::Invalid, None)),
        RetainedState { failures: 0, report_pending: true },
    );
    assert!(rolled.report_needed());
    let confirmed = engine(SlotState::Valid, 0, true);
    assert!(!confirmed.report_needed());
}

#[test]
fn mark_verified_confirms_provisional_slot() {
    let mut o = engine(SlotState::Unverified, 2, true);
    assert!(o.mark_verified_if_needed());
    assert!(o.current_verified());
    assert_eq!(o.retained().failures, 0);
    assert!(!o.mark_verified_if_needed());
}

#[test]
fn retained_state_survives_only_deep_sleep() {
    let kept = RetainedState { failures: 2, report_pending: false };
    assert_eq!(RetainedState::init(ResetReason::DeepSleep, kept), kept);
    let cold = RetainedState { failures: 0, report_pending: true };
    assert_eq!(RetainedState::init(ResetReason::PowerOn, kept), cold);
    assert_eq!(RetainedState::init(ResetReason::Software, kept), cold);
    assert_eq!(RetainedState::init(ResetReason::Brownout, kept), cold);
}
