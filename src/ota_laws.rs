//! Laws of the update engine, stated over its abstract state.

use vstd::prelude::*;
use crate::ota::{OtaView, MAX_FAILIURES};

verus! {

/// The state after `k` failed cycles.
pub open spec fn failed_times(s: OtaView, k: nat) -> OtaView
    decreases k,
{
    if k == 0 {
        s
    } else {
        failed_times(s, (k - 1) as nat).failed_once()
    }
}

/// The counter after `k` failed cycles of a provisional firmware: it counts up
/// and stops at the largest value it can hold.
pub open spec fn counted(start: u8, k: nat) -> int {
    if start + k > u8::MAX {
        u8::MAX as int
    } else {
        start + k
    }
}

/// Failed cycles leave the slots alone, and move the counter only on a
/// provisional firmware.
pub proof fn lemma_failed_times(s: OtaView, k: nat)
    ensures
        failed_times(s, k).running == s.running,
        failed_times(s, k).other == s.other,
        failed_times(s, k).boot_other == s.boot_other,
        failed_times(s, k).report_pending == s.report_pending,
        failed_times(s, k).failures == (if s.confirmed() { s.failures as int } else { counted(s.failures, k) }),
    decreases k,
{
    if k > 0 {
        lemma_failed_times(s, (k - 1) as nat);
    }
}

/// Whatever the sequence of failed cycles, rollback is due exactly when the
/// running firmware is provisional and the counter has reached the threshold;
/// on a confirmed firmware it is never due.
pub proof fn lemma_rollback_rule(s: OtaView, k: nat)
    ensures
        failed_times(s, k).rollback_due() <==> (!s.confirmed() && counted(s.failures, k) >= MAX_FAILIURES),
        s.confirmed() ==> !failed_times(s, k).rollback_due(),
{
    lemma_failed_times(s, k);
}

/// Finalizing a transaction resets the failure counter to zero and sets the
/// report-pending flag.
pub proof fn lemma_commit_resets_counters(s: OtaView)
    requires
        s.updating,
    ensures
        s.committed().failures == 0,
        s.committed().report_pending,
        s.committed().boot_other,
        !s.committed().updating,
{
}

/// Cancelling a transaction changes neither the boot target nor the validity
/// of either slot.
pub proof fn lemma_cancel_keeps_boot_target(s: OtaView)
    requires
        s.updating,
    ensures
        s.cancelled().boot_other == s.boot_other,
        s.cancelled().running == s.running,
        s.cancelled().other == s.other,
        s.cancelled().failures == s.failures,
        s.cancelled().report_pending == s.report_pending,
{
}

/// Marking the outcome reported is idempotent, and afterwards no report is
/// needed however many cycles fail, until a new update is committed.
pub proof fn lemma_mark_reported_idempotent(s: OtaView, k: nat)
    ensures
        !s.reported().report_pending,
        !s.reported().reported().report_pending,
        s.reported().reported() == s.reported(),
        !s.reported().report_needed(),
        !failed_times(s.reported(), k).report_needed(),
        s.reported().committed().report_pending,
{
    lemma_failed_times(s.reported(), k);
}

} // verus!
