//! Laws of the run cycle, stated over its transition function.

use vstd::prelude::*;
use crate::cycle::{transition, wf, Action, CycleView, Event, Stage};
use crate::error::{OsError, is_recoverable};
use crate::ota::OtaView;

verus! {

/// No step of a cycle raises the failure counter of a confirmed firmware.
pub proof fn lemma_confirmed_never_penalised(c: CycleView, o: OtaView, e: Event)
    requires
        o.confirmed(),
    ensures
        transition(c, o, e).1.failures <= o.failures,
{
}

/// A failed download is abandoned without counting a failure: the boot target
/// stays, no failure is counted, and the cycle ends in a normal sleep.
pub proof fn lemma_download_failure_unpenalised(c: CycleView, o: OtaView, err: OsError)
    requires
        wf(c, o),
        c.stage is ApplyUpdate,
    ensures
        transition(c, o, Event::UpdateFailed(err)).1.boot_other == o.boot_other,
        transition(c, o, Event::UpdateFailed(err)).1.failures <= o.failures,
        !transition(c, o, Event::UpdateFailed(err)).1.updating,
        transition(c, o, Event::UpdateFailed(err)).2 matches Action::Sleep { error: None, .. },
{
}

/// A fatal error halts the node: nothing is counted and the boot target stays;
/// an open transaction is aborted.
pub proof fn lemma_fatal_error_halts(c: CycleView, o: OtaView, err: OsError)
    requires
        wf(c, o),
        !(c.stage is Finished),
        !is_recoverable(err),
    ensures
        transition(c, o, Event::Failed(err)).2 == Action::Halt(err),
        transition(c, o, Event::Failed(err)).1.failures == o.failures,
        transition(c, o, Event::Failed(err)).1.boot_other == o.boot_other,
        c.updating ==> !transition(c, o, Event::Failed(err)).1.updating,
{
}

/// A recoverable error ends the cycle in a sleep that records it, and counts
/// one failure against a provisional firmware only.
pub proof fn lemma_recoverable_error_recorded(c: CycleView, o: OtaView, err: OsError)
    requires
        wf(c, o),
        !(c.stage is Finished),
        is_recoverable(err),
    ensures
        transition(c, o, Event::Failed(err)).2 matches Action::Sleep { error: Some(x), mark_valid: false, .. } && x == err,
        transition(c, o, Event::Failed(err)).1.failures == (if o.confirmed() {
            o.failures as int
        } else if o.failures == u8::MAX {
            u8::MAX as int
        } else {
            o.failures + 1
        }),
        transition(c, o, Event::Failed(err)).1.boot_other == o.boot_other,
        transition(c, o, Event::Failed(err)).0.stage is Finished,
{
}

/// A finished cycle takes no further step.
pub proof fn lemma_finished_is_final(c: CycleView, o: OtaView, e: Event)
    requires
        c.stage is Finished,
    ensures
        transition(c, o, e).0 == c,
        transition(c, o, e).1 == o,
{
}

} // verus!
