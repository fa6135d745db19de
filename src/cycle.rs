//! The run-cycle orchestrator: what the node does next, step by step, in one
//! wake cycle.
//!
//! The caller performs each `Action` (network, remote server, flash, sleep) and
//! hands back what came of it as an `Event`; `Cycle::step` decides the next
//! action and keeps the update engine's bookkeeping.

use vstd::prelude::*;
use crate::error::{OsError, is_recoverable};
use crate::ota::{Ota, OtaHandle, OtaView};
use crate::power::{ResetReason, ResetReasonExt, SleepMode, SleepRequest, INFINITE_SLEEP_TIME_US, is_normal_reset, mcu_sleep};

verus! {

/// Battery voltage, in millivolts, at or below which the safe battery
/// operation policy shuts the node down.
pub const CRITICAL_MILLIVOLTS: u32 = 3220;

/// Node configuration, set remotely and kept locally between cycles.
#[derive(Debug, Clone, Copy, PartialEq, Eq, Structural)]
pub struct Settings {
    /// Ignore the battery voltage (no low-battery shutdown).
    pub battery_ignore: bool,
    /// Look for and apply firmware updates.
    pub ota: bool,
    /// Time between cycles, in seconds.
    pub sleep_time: u16,
    /// Safe battery operation policy: shut down on a critical voltage.
    pub sbop: bool,
    /// Do not send notifications.
    pub mute_notifications: bool,
}

/// The settings used until the server provides some.
pub open spec fn default_settings() -> Settings {
    Settings { battery_ignore: false, ota: true, sleep_time: 60, sbop: true, mute_notifications: false }
}

impl Default for Settings {
    fn default() -> (r: Settings)
        ensures
            r == default_settings(),
    {
        Settings { battery_ignore: false, ota: true, sleep_time: 60, sbop: true, mute_notifications: false }
    }
}

impl Settings {
    /// Time between cycles, in microseconds.
    pub fn sleep_time_us(&self) -> (r: u64)
        ensures
            r == self.sleep_time as int * 1_000_000,
    {
        self.sleep_time as u64 * 1_000_000
    }
}

/// Where a cycle stands.
#[derive(Debug, Clone, Copy, PartialEq, Eq, Structural)]
pub enum Stage {
    Connect,
    FetchSettings,
    MeasureBattery,
    PostTelemetry,
    NotifyReset,
    ReportLastError,
    ReportUpdate,
    CheckUpdate,
    ApplyUpdate,
    Finished,
}

/// What the caller is to do next.
#[derive(Debug, Clone, Copy, PartialEq, Eq, Structural)]
pub enum Action {
    /// Bring the network up: scan, rank the candidates, try them in order.
    Connect,
    /// Fetch the node settings from the server.
    FetchSettings,
    /// Measure the battery voltage.
    MeasureBattery,
    /// Measure the environment and post measurements and statistics.
    PostTelemetry,
    /// Tell the server about an abnormal reset cause (failures are only logged).
    NotifyAbnormalReset,
    /// Report and clear the durable last-error record, if there is one.
    ReportLastError,
    /// Report the outcome of the last update: `true` for success, `false` for
    /// a rollback.
    ReportUpdate(bool),
    /// Ask the server whether an update is available.
    CheckUpdate,
    /// Stream the update into the inactive slot; the transaction is open.
    ApplyUpdate,
    /// Notify the server of the critical battery, then sleep as given.
    LowBatteryShutdown(SleepRequest),
    /// End of the cycle: store `error` as the last-error record if there is
    /// one, mark the running slot valid if `mark_valid`, and sleep.
    Sleep { error: Option<OsError>, mark_valid: bool, request: SleepRequest },
    /// A fatal error: halt in an indefinite sleep.
    Halt(OsError),
}

/// What came of the last action.
#[derive(Debug, Clone, Copy, PartialEq, Eq, Structural)]
pub enum Event {
    /// The action succeeded.
    Done,
    /// The settings fetched; `None` when the server had none.
    Settings(Option<Settings>),
    /// The battery voltage, in millivolts.
    Battery(u32),
    /// Whether an update is available.
    UpdateAvailable(bool),
    /// Streaming the update failed; it is abandoned.
    UpdateFailed(OsError),
    /// The action failed.
    Failed(OsError),
}

/// Abstract state of a cycle.
#[derive(Debug, Clone, Copy, PartialEq, Eq, Structural)]
pub struct CycleView {
    pub stage: Stage,
    pub settings: Settings,
    pub reset: ResetReason,
    pub usb_connected: bool,
    /// The cycle holds the open update transaction.
    pub updating: bool,
}

/// How the node sleeps at the end of a cycle.
pub open spec fn end_sleep(c: CycleView) -> SleepRequest {
    SleepRequest {
        mode: if c.usb_connected { SleepMode::Fake } else { SleepMode::Deep },
        micros: (c.settings.sleep_time * 1_000_000) as u64,
    }
}

/// The end of a cycle after a failure: an open transaction is aborted; a
/// recoverable error is recorded and counted against a provisional firmware
/// before the node sleeps, a fatal one halts the node.
pub open spec fn failure_outcome(c: CycleView, o: OtaView, e: OsError) -> (CycleView, OtaView, Action) {
    let o1 = if c.updating { o.cancelled() } else { o };
    let c1 = CycleView { stage: Stage::Finished, updating: false, ..c };
    if is_recoverable(e) {
        (c1, o1.failed_once(), Action::Sleep { error: Some(e), mark_valid: false, request: end_sleep(c) })
    } else {
        (c1, o1, Action::Halt(e))
    }
}

/// The end of a successful cycle: the running firmware is confirmed and the
/// node sleeps for the configured time.
pub open spec fn success_outcome(c: CycleView, o: OtaView) -> (CycleView, OtaView, Action) {
    (
        CycleView { stage: Stage::Finished, updating: false, ..c },
        o.verified(),
        Action::Sleep { error: None, mark_valid: !o.confirmed(), request: end_sleep(c) },
    )
}

/// After the update report: the update check when updates are enabled.
pub open spec fn after_reports(c: CycleView, o: OtaView) -> (CycleView, OtaView, Action) {
    if c.settings.ota {
        (CycleView { stage: Stage::CheckUpdate, ..c }, o, Action::CheckUpdate)
    } else {
        success_outcome(c, o)
    }
}

/// After the last-error report: the update report when one is needed.
pub open spec fn after_last_error(c: CycleView, o: OtaView) -> (CycleView, OtaView, Action) {
    if o.report_needed() {
        (CycleView { stage: Stage::ReportUpdate, ..c }, o, Action::ReportUpdate(!o.rollback_detected()))
    } else {
        after_reports(c, o)
    }
}

/// The battery is critical and the safe battery operation policy applies.
pub open spec fn low_battery(c: CycleView, millivolts: u32) -> bool {
    millivolts <= CRITICAL_MILLIVOLTS && c.settings.sbop && !c.settings.battery_ignore && !c.usb_connected
}

/// A cycle holds the update transaction exactly while it applies an update,
/// and then the engine has it open.
pub open spec fn wf(c: CycleView, o: OtaView) -> bool {
    &&& c.updating <==> c.stage is ApplyUpdate
    &&& c.updating ==> o.updating
}

/// One step of the cycle.
pub open spec fn transition(c: CycleView, o: OtaView, e: Event) -> (CycleView, OtaView, Action) {
    if c.stage is Finished {
        (c, o, Action::Halt(OsError::UnexpectedNull))
    } else {
        match e {
            Event::Failed(err) => failure_outcome(c, o, err),
            Event::Done => match c.stage {
                Stage::Connect => (CycleView { stage: Stage::FetchSettings, ..c }, o, Action::FetchSettings),
                Stage::PostTelemetry => if is_normal_reset(c.reset) {
                    (CycleView { stage: Stage::ReportLastError, ..c }, o, Action::ReportLastError)
                } else {
                    (CycleView { stage: Stage::NotifyReset, ..c }, o, Action::NotifyAbnormalReset)
                },
                Stage::NotifyReset => (CycleView { stage: Stage::ReportLastError, ..c }, o, Action::ReportLastError),
                Stage::ReportLastError => after_last_error(c, o),
                Stage::ReportUpdate => after_reports(c, o.reported()),
                Stage::ApplyUpdate => success_outcome(c, o.committed()),
                _ => failure_outcome(c, o, OsError::UnexpectedNull),
            },
            Event::Settings(s) => if c.stage is FetchSettings {
                let c1 = match s {
                    Some(new) => CycleView { settings: new, ..c },
                    None => c,
                };
                (CycleView { stage: Stage::MeasureBattery, ..c1 }, o, Action::MeasureBattery)
            } else {
                failure_outcome(c, o, OsError::UnexpectedNull)
            },
            Event::Battery(mv) => if c.stage is MeasureBattery {
                if low_battery(c, mv) {
                    (
                        CycleView { stage: Stage::Finished, ..c },
                        o,
                        Action::LowBatteryShutdown(SleepRequest { mode: SleepMode::Deep, micros: INFINITE_SLEEP_TIME_US }),
                    )
                } else {
                    (CycleView { stage: Stage::PostTelemetry, ..c }, o, Action::PostTelemetry)
                }
            } else {
                failure_outcome(c, o, OsError::UnexpectedNull)
            },
            Event::UpdateAvailable(avail) => if c.stage is CheckUpdate {
                if !avail {
                    success_outcome(c, o)
                } else if o.updating {
                    failure_outcome(c, o, OsError::UpdateInProgress)
                } else {
                    (CycleView { stage: Stage::ApplyUpdate, updating: true, ..c }, o.update_begun(), Action::ApplyUpdate)
                }
            } else {
                failure_outcome(c, o, OsError::UnexpectedNull)
            },
            Event::UpdateFailed(_) => if c.stage is ApplyUpdate {
                success_outcome(CycleView { updating: false, ..c }, o.cancelled())
            } else {
                failure_outcome(c, o, OsError::UnexpectedNull)
            },
        }
    }
}

/// One wake cycle in progress.
pub struct Cycle {
    stage: Stage,
    settings: Settings,
    reset: ResetReason,
    usb_connected: bool,
    handle: Option<OtaHandle>,
}

impl View for Cycle {
    type V = CycleView;

    closed spec fn view(&self) -> CycleView {
        CycleView {
            stage: self.stage,
            settings: self.settings,
            reset: self.reset,
            usb_connected: self.usb_connected,
            updating: self.handle is Some,
        }
    }
}

impl Cycle {
    /// Starts a cycle with the settings kept from the last one; its first
    /// action is `Action::Connect`.
    pub fn new(reset: ResetReason, usb_connected: bool, settings: Settings) -> (r: Cycle)
        ensures
            r@ == (CycleView { stage: Stage::Connect, settings, reset, usb_connected, updating: false }),
            forall|o: OtaView| wf(r@, o),
    {
        Cycle { stage: Stage::Connect, settings, reset, usb_connected, handle: None }
    }

    /// The settings in force, to be kept for the next cycle.
    pub fn settings(&self) -> (r: Settings)
        ensures
            r == self@.settings,
    {
        self.settings
    }

    /// Where the cycle stands.
    pub fn stage(&self) -> (r: Stage)
        ensures
            r == self@.stage,
    {
        self.stage
    }

    fn end_sleep(&self) -> (r: SleepRequest)
        ensures
            r == end_sleep(self@),
    {
        let us = self.settings.sleep_time_us();
        mcu_sleep(Some(us), self.usb_connected)
    }

    fn fail(&mut self, ota: &mut Ota, e: OsError) -> (a: Action)
        requires
            !(old(self)@.stage is Finished),
            old(self)@.updating ==> old(ota)@.updating,
        ensures
            (final(self)@, final(ota)@, a) == failure_outcome(old(self)@, old(ota)@, e),
    {
        let request = self.end_sleep();
        match self.handle.take() {
            Some(h) => h.cancel(ota),
            None => {},
        }
        self.stage = Stage::Finished;
        if e.recoverable() {
            ota.inc_failiures();
            Action::Sleep { error: Some(e), mark_valid: false, request }
        } else {
            Action::Halt(e)
        }
    }

    fn succeed(&mut self, ota: &mut Ota) -> (a: Action)
        requires
            !(old(self)@.updating),
        ensures
            (final(self)@, final(ota)@, a) == success_outcome(old(self)@, old(ota)@),
    {
        let request = self.end_sleep();
        self.stage = Stage::Finished;
        let mark_valid = ota.mark_verified_if_needed();
        Action::Sleep { error: None, mark_valid, request }
    }

    fn reports_done(&mut self, ota: &mut Ota) -> (a: Action)
        requires
            !(old(self)@.updating),
            !(old(self)@.stage is Finished),
        ensures
            (final(self)@, final(ota)@, a) == after_reports(old(self)@, old(ota)@),
    {
        if self.settings.ota {
            self.stage = Stage::CheckUpdate;
            Action::CheckUpdate
        } else {
            self.succeed(ota)
        }
    }

    /// Takes what came of the last action and decides the next one.
    pub fn step(&mut self, ota: &mut Ota, event: Event) -> (a: Action)
        requires
            wf(old(self)@, old(ota)@),
        ensures
            (final(self)@, final(ota)@, a) == transition(old(self)@, old(ota)@, event),
            wf(final(self)@, final(ota)@),
    {
        if let Stage::Finished = self.stage {
            return Action::Halt(OsError::UnexpectedNull);
        }
        match event {
            Event::Failed(err) => self.fail(ota, err),
            Event::Done => match self.stage {
                Stage::Connect => {
                    self.stage = Stage::FetchSettings;
                    Action::FetchSettings
                },
                Stage::PostTelemetry => {
                    if self.reset.is_abnormal() {
                        self.stage = Stage::NotifyReset;
                        Action::NotifyAbnormalReset
                    } else {
                        self.stage = Stage::ReportLastError;
                        Action::ReportLastError
                    }
                },
                Stage::NotifyReset => {
                    self.stage = Stage::ReportLastError;
                    Action::ReportLastError
                },
                Stage::ReportLastError => {
                    if ota.report_needed() {
                        self.stage = Stage::ReportUpdate;
                        Action::ReportUpdate(!ota.rollback_detected())
                    } else {
                        self.reports_done(ota)
                    }
                },
                Stage::ReportUpdate => {
                    ota.mark_reported();
                    self.reports_done(ota)
                },
                Stage::ApplyUpdate => {
                    match self.handle.take() {
                        Some(h) => {
                            h.commit(ota);
                            self.succeed(ota)
                        },
                        None => self.fail(ota, OsError::UnexpectedNull),
                    }
                },
                _ => self.fail(ota, OsError::UnexpectedNull),
            },
            Event::Settings(s) => {
                if let Stage::FetchSettings = self.stage {
                    if let Some(new) = s {
                        self.settings = new;
                    }
                    self.stage = Stage::MeasureBattery;
                    Action::MeasureBattery
                } else {
                    self.fail(ota, OsError::UnexpectedNull)
                }
            },
            Event::Battery(mv) => {
                if let Stage::MeasureBattery = self.stage {
                    if mv <= CRITICAL_MILLIVOLTS && self.settings.sbop && !self.settings.battery_ignore
                        && !self.usb_connected {
                        self.stage = Stage::Finished;
                        Action::LowBatteryShutdown(mcu_sleep(None, false))
                    } else {
                        self.stage = Stage::PostTelemetry;
                        Action::PostTelemetry
                    }
                } else {
                    self.fail(ota, OsError::UnexpectedNull)
                }
            },
            Event::UpdateAvailable(avail) => {
                if let Stage::CheckUpdate = self.stage {
                    if !avail {
                        self.succeed(ota)
                    } else {
                        match ota.begin_update() {
                            Ok(h) => {
                                self.handle = Some(h);
                                self.stage = Stage::ApplyUpdate;
                                Action::ApplyUpdate
                            },
                            Err(e) => self.fail(ota, e),
                        }
                    }
                } else {
                    self.fail(ota, OsError::UnexpectedNull)
                }
            },
            Event::UpdateFailed(_) => {
                if let Stage::ApplyUpdate = self.stage {
                    match self.handle.take() {
                        Some(h) => {
                            h.cancel(ota);
                            self.succeed(ota)
                        },
                        None => self.succeed(ota),
                    }
                } else {
                    self.fail(ota, OsError::UnexpectedNull)
                }
            },
        }
    }
}

} // verus!
