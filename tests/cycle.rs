use pwos::cycle::{Action, Cycle, Event, Settings, Stage};
use pwos::error::OsError;
use pwos::ota::{Ota, RetainedState, Slot, SlotState};
use pwos::power::{ResetReason, SleepMode, SleepRequest, INFINITE_SLEEP_TIME_US};

fn ota_with(state: SlotState, retained: RetainedState) -> Ota {
    Ota::new(Slot { state, version: Some("v2.0.0-1-gabc".to_string()) }, None, retained)
}

fn deep(seconds: u64) -> SleepRequest {
    SleepRequest { mode: SleepMode::Deep, micros: seconds * 1_000_000 }
}

/// Drives a cycle from connection to the report steps.
fn run_to_reports(cycle: &mut Cycle, ota: &mut Ota, reset_normal: bool) -> Action {
    assert_eq!(cycle.step(ota, Event::Done), Action::FetchSettings);
    assert_eq!(cycle.step(ota, Event::Settings(None)), Action::MeasureBattery);
    assert_eq!(cycle.step(ota, Event::Battery(3900)), Action::PostTelemetry);
    let a = cycle.step(ota, Event::Done);
    if reset_normal {
        assert_eq!(a, Action::ReportLastError);
    } else {
        assert_eq!(a, Action::NotifyAbnormalReset);
        assert_eq!(cycle.step(ota, Event::Done), Action::ReportLastError);
    }
    cycle.step(ota, Event::Done)
}

#[test]
fn cold_boot_on_confirmed_firmware_sleeps_for_configured_time() {
    let retained = RetainedState::init(ResetReason::PowerOn, RetainedState { failures: 7, report_pending: false });
    let mut ota = ota_with(SlotState::Valid, retained);
    assert!(!ota.rollback_if_needed());
    let pending_before = ota.retained().report_pending;

    let mut cycle = Cycle::new(ResetReason::PowerOn, false, Settings::default());
    assert_eq!(run_to_reports(&mut cycle, &mut ota, true), Action::CheckUpdate);
    let end = cycle.step(&mut ota, Event::UpdateAvailable(false));
    assert_eq!(end, Action::Sleep { error: None, mark_valid: false, request: deep(60) });
    assert_eq!(ota.retained().report_pending, pending_before);
    assert_eq!(ota.retained().failures, 0);
    assert_eq!(cycle.stage(), Stage::Finished);
}

#[test]
fn provisional_firmware_offline_cycle_leads_to_rollback() {
    let retained = RetainedState::init(ResetReason::DeepSleep, RetainedState { failures: 2, report_pending: false });
    let mut ota = ota_with(SlotState::Unverified, retained);
    assert!(!ota.rollback_if_needed());

    let mut cycle = Cycle::new(ResetReason::DeepSleep, false, Settings::default());
    let end = cycle.step(&mut ota, Event::Failed(OsError::NoInternet));
    assert_eq!(end, Action::Sleep { error: Some(OsError::NoInternet), mark_valid: false, request: deep(60) });
    assert_eq!(ota.retained().failures, 3);

    // next wake-up from deep sleep
    let kept = RetainedState::init(ResetReason::DeepSleep, ota.retained());
    let mut next = ota_with(SlotState::Unverified, kept);
    assert!(next.rollback_if_needed());
    assert_eq!(next.running_state(), SlotState::Invalid);
    assert!(next.boots_other());
}

#[test]
fn settings_from_server_replace_local_ones() {
    let mut ota = ota_with(SlotState::Valid, RetainedState { failures: 0, report_pending: false });
    let mut cycle = Cycle::new(ResetReason::DeepSleep, true, Settings::default());
    let remote = Settings { battery_ignore: false, ota: false, sleep_time: 300, sbop: true, mute_notifications: true };
    assert_eq!(cycle.step(&mut ota, Event::Done), Action::FetchSettings);
    assert_eq!(cycle.step(&mut ota, Event::Settings(Some(remote))), Action::MeasureBattery);
    assert_eq!(cycle.settings(), remote);
    assert_eq!(cycle.step(&mut ota, Event::Battery(3000)), Action::PostTelemetry);
    assert_eq!(cycle.step(&mut ota, Event::Done), Action::ReportLastError);
    // updates disabled: the cycle ends after the reports, with a fake sleep on USB power
    let end = cycle.step(&mut ota, Event::Done);
    assert_eq!(
        end,
        Action::Sleep { error: None, mark_valid: false, request: SleepRequest { mode: SleepMode::Fake, micros: 300_000_000 } }
    );
}

#[test]
fn critical_battery_shuts_down() {
    let mut ota = ota_with(SlotState::Unverified, RetainedState { failures: 1, report_pending: true });
    let mut cycle = Cycle::new(ResetReason::DeepSleep, false, Settings::default());
    cycle.step(&mut ota, Event::Done);
    cycle.step(&mut ota, Event::Settings(None));
    let a = cycle.step(&mut ota, Event::Battery(3220));
    assert_eq!(a, Action::LowBatteryShutdown(SleepRequest { mode: SleepMode::Deep, micros: INFINITE_SLEEP_TIME_US }));
    assert_eq!(ota.retained(), RetainedState { failures: 1, report_pending: true });
    assert_eq!(cycle.step(&mut ota, Event::Done), Action::Halt(OsError::UnexpectedNull));
}

#[test]
fn battery_ignore_skips_shutdown() {
    let mut ota = ota_with(SlotState::Valid, RetainedState { failures: 0, report_pending: false });
    let mut settings = Settings::default();
    settings.battery_ignore = true;
    let mut cycle = Cycle::new(ResetReason::DeepSleep, false, settings);
    cycle.step(&mut ota, Event::Done);
    cycle.step(&mut ota, Event::Settings(None));
    assert_eq!(cycle.step(&mut ota, Event::Battery(3000)), Action::PostTelemetry);
}

#[test]
fn provisional_firmware_reports_and_is_confirmed() {
    let mut ota = ota_with(SlotState::Unverified, RetainedState { failures: 1, report_pending: true });
    let mut cycle = Cycle::new(ResetReason::Software, false, Settings::default());
    assert_eq!(run_to_reports(&mut cycle, &mut ota, true), Action::ReportUpdate(true));
    assert_eq!(cycle.step(&mut ota, Event::Done), Action::CheckUpdate);
    assert!(!ota.retained().report_pending);
    let end = cycle.step(&mut ota, Event::UpdateAvailable(false));
    assert_eq!(end, Action::Sleep { error: None, mark_valid: true, request: deep(60) });
    assert!(ota.current_verified());
    assert_eq!(ota.retained().failures, 0);
}

#[test]
fn rollback_boot_reports_failure() {
    let mut ota = Ota::new(
        Slot { state: SlotState::Valid, version: Some("v1.0.0-x".to_string()) },
        Some(Slot { state: SlotState::Invalid, version: Some("v1.1.0-y".to_string()) }),
        RetainedState { failures: 0, report_pending: true },
    );
    let mut cycle = Cycle::new(ResetReason::Software, false, Settings::default());
    assert_eq!(run_to_reports(&mut cycle, &mut ota, true), Action::ReportUpdate(false));
}

#[test]
fn abnormal_reset_is_notified() {
    let mut ota = ota_with(SlotState::Valid, RetainedState { failures: 0, report_pending: false });
    let mut cycle = Cycle::new(ResetReason::Brownout, false, Settings::default());
    assert_eq!(run_to_reports(&mut cycle, &mut ota, false), Action::CheckUpdate);
}

#[test]
fn update_applied_and_committed() {
    let mut ota = ota_with(SlotState::Valid, RetainedState { failures: 0, report_pending: false });
    let mut cycle = Cycle::new(ResetReason::DeepSleep, false, Settings::default());
    assert_eq!(run_to_reports(&mut cycle, &mut ota, true), Action::CheckUpdate);
    assert_eq!(cycle.step(&mut ota, Event::UpdateAvailable(true)), Action::ApplyUpdate);
    let end = cycle.step(&mut ota, Event::Done);
    assert_eq!(end, Action::Sleep { error: None, mark_valid: false, request: deep(60) });
    assert!(ota.boots_other());
    assert_eq!(ota.retained(), RetainedState { failures: 0, report_pending: true });
}

#[test]
fn failed_download_is_cancelled_without_penalty() {
    let mut ota = ota_with(SlotState::Unverified, RetainedState { failures: 2, report_pending: false });
    let mut cycle = Cycle::new(ResetReason::DeepSleep, false, Settings::default());
    assert_eq!(run_to_reports(&mut cycle, &mut ota, true), Action::CheckUpdate);
    assert_eq!(cycle.step(&mut ota, Event::UpdateAvailable(true)), Action::ApplyUpdate);
    let end = cycle.step(&mut ota, Event::UpdateFailed(OsError::PwmpError));
    assert_eq!(end, Action::Sleep { error: None, mark_valid: true, request: deep(60) });
    assert!(!ota.boots_other());
    assert!(ota.begin_update().is_ok());
}

#[test]
fn fatal_error_halts_without_counting() {
    let mut ota = ota_with(SlotState::Unverified, RetainedState { failures: 1, report_pending: false });
    let mut cycle = Cycle::new(ResetReason::DeepSleep, false, Settings::default());
    cycle.step(&mut ota, Event::Done);
    let a = cycle.step(&mut ota, Event::Failed(OsError::IllegalFirmwareVersion));
    assert_eq!(a, Action::Halt(OsError::IllegalFirmwareVersion));
    assert_eq!(ota.retained().failures, 1);
}

#[test]
fn error_during_update_aborts_transaction() {
    let mut ota = ota_with(SlotState::Valid, RetainedState { failures: 0, report_pending: false });
    let mut cycle = Cycle::new(ResetReason::DeepSleep, false, Settings::default());
    run_to_reports(&mut cycle, &mut ota, true);
    cycle.step(&mut ota, Event::UpdateAvailable(true));
    let a = cycle.step(&mut ota, Event::Failed(OsError::OtaWrite(-1)));
    assert_eq!(a, Action::Halt(OsError::OtaWrite(-1)));
    assert!(!ota.boots_other());
    assert!(ota.begin_update().is_ok());
}

#[test]
fn unexpected_event_is_fatal() {
    let mut ota = ota_with(SlotState::Valid, RetainedState { failures: 0, report_pending: false });
    let mut cycle = Cycle::new(ResetReason::DeepSleep, false, Settings::default());
    assert_eq!(cycle.step(&mut ota, Event::Battery(4000)), Action::Halt(OsError::UnexpectedNull));
}

#[test]
fn settings_sleep_time_in_microseconds() {
    let s = Settings { battery_ignore: false, ota: true, sleep_time: 65535, sbop: true, mute_notifications: false };
    assert_eq!(s.sleep_time_us(), 65_535_000_000);
}
