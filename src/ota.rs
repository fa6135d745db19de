//! Dual-slot over-the-air update engine: boot-time verification, automatic
//! rollback and transactional update application.
//!
//! The engine works on a model of the platform's slot table; the caller reads
//! the table at boot, and performs the platform action that each operation
//! decides (rolling back and rebooting, completing or aborting a slot write).

use vstd::prelude::*;
use vstd::string::*;
use crate::error::{OsError, OsResult};
use crate::power::ResetReason;

verus! {

/// Consecutive failed cycles that a provisional firmware may have before it is
/// rolled back.
pub const MAX_FAILIURES: u8 = 3;

/// Validity of a firmware slot, as the bootloader records it.
#[derive(Debug, Clone, Copy, PartialEq, Eq, Structural)]
pub enum SlotState {
    /// The factory image.
    Factory,
    /// Confirmed: a full cycle completed on this image.
    Valid,
    /// Demoted after failing too many times.
    Invalid,
    /// Freshly written, not yet confirmed.
    Unverified,
    /// No state recorded.
    Unknown,
}

/// A firmware slot: its validity and the version token of its metadata, if any.
#[derive(Debug)]
pub struct Slot {
    pub state: SlotState,
    pub version: Option<String>,
}

/// State that survives deep sleep but not a power loss.
#[derive(Debug, Clone, Copy, PartialEq, Eq, Structural)]
pub struct RetainedState {
    /// Consecutive unsuccessful cycles of a provisional firmware.
    pub failures: u8,
    /// An update was applied or rolled back and the server was not told yet.
    pub report_pending: bool,
}

/// The retained state after a cold start.
pub open spec fn cold_retained() -> RetainedState {
    RetainedState { failures: 0, report_pending: true }
}

impl RetainedState {
    /// Establishes the retained state at startup: a wake-up from deep sleep keeps
    /// what was retained, any other reset starts from the defaults.
    pub fn init(reset: ResetReason, kept: RetainedState) -> (r: RetainedState)
        ensures
            r == (if reset is DeepSleep { kept } else { cold_retained() }),
    {
        match reset {
            ResetReason::DeepSleep => kept,
            _ => RetainedState { failures: 0, report_pending: true },
        }
    }
}

/// Abstract state of the engine.
pub struct OtaView {
    /// Validity of the running slot.
    pub running: SlotState,
    /// Version token of the running slot.
    pub running_version: Option<Seq<char>>,
    /// Validity of the other slot.
    pub other: SlotState,
    /// Version token of the other slot.
    pub other_version: Option<Seq<char>>,
    /// Whether the next boot starts the other slot.
    pub boot_other: bool,
    /// The failure counter.
    pub failures: u8,
    /// The report-pending flag.
    pub report_pending: bool,
    /// Whether an update transaction is open.
    pub updating: bool,
}

/// The characters of an optional string.
pub open spec fn opt_view(o: Option<String>) -> Option<Seq<char>> {
    match o {
        Some(s) => Some(s@),
        None => None,
    }
}

impl OtaView {
    /// The running slot is confirmed.
    pub open spec fn confirmed(self) -> bool {
        self.running is Valid
    }

    /// This boot is the result of an automatic rollback.
    pub open spec fn rollback_detected(self) -> bool {
        self.other is Invalid
    }

    /// The server still has to hear about an update outcome.
    pub open spec fn report_needed(self) -> bool {
        (!self.confirmed() || self.rollback_detected()) && self.report_pending
    }

    /// The running firmware has used up its tolerance.
    pub open spec fn rollback_due(self) -> bool {
        !self.confirmed() && self.failures >= MAX_FAILIURES
    }

    /// The running slot demoted and the previous one made the boot target.
    pub open spec fn rolled_back(self) -> OtaView {
        OtaView { running: SlotState::Invalid, boot_other: true, ..self }
    }

    /// One more failed cycle: counted only on a provisional firmware.
    pub open spec fn failed_once(self) -> OtaView {
        if self.confirmed() {
            self
        } else {
            OtaView {
                failures: if self.failures == u8::MAX { u8::MAX } else { (self.failures + 1) as u8 },
                ..self
            }
        }
    }

    /// The running firmware confirmed after a full successful cycle.
    pub open spec fn verified(self) -> OtaView {
        if self.confirmed() {
            self
        } else {
            OtaView { running: SlotState::Valid, failures: 0, ..self }
        }
    }

    /// The outcome reported upstream.
    pub open spec fn reported(self) -> OtaView {
        OtaView { report_pending: false, ..self }
    }

    /// A transaction opened.
    pub open spec fn update_begun(self) -> OtaView {
        OtaView { updating: true, ..self }
    }

    /// The written image finalized as the provisional boot target.
    pub open spec fn committed(self) -> OtaView {
        OtaView {
            other: SlotState::Unverified,
            other_version: None,
            boot_other: true,
            failures: 0,
            report_pending: true,
            updating: false,
            ..self
        }
    }

    /// The transaction aborted.
    pub open spec fn cancelled(self) -> OtaView {
        OtaView { updating: false, ..self }
    }
}

/// Position of the first `-` in `s` at or after `i`.
pub open spec fn first_dash_from(s: Seq<char>, i: int) -> Option<int>
    decreases s.len() - i,
{
    if i < 0 || i >= s.len() {
        None
    } else if s[i] == '-' {
        Some(i)
    } else {
        first_dash_from(s, i + 1)
    }
}

/// The semantic-version part of a version token `v<semver>-<build-suffix>`:
/// what lies between the leading `v` and the first `-`, if the token has that
/// shape and the part is not empty.
pub open spec fn version_core(s: Seq<char>) -> Option<Seq<char>> {
    if s.len() > 0 && s[0] == 'v' {
        match first_dash_from(s, 0) {
            Some(d) => if d > 1 { Some(s.subrange(1, d)) } else { None },
            None => None,
        }
    } else {
        None
    }
}

/// What reading a slot's version yields: its semantic-version part, or the
/// error for missing or malformed metadata.
pub open spec fn slot_version(meta: Option<Seq<char>>) -> OsResult<Option<Seq<char>>> {
    match meta {
        None => Err(OsError::MissingPartitionMetadata),
        Some(v) => match version_core(v) {
            Some(c) => Ok(Some(c)),
            None => Err(OsError::IllegalFirmwareVersion),
        },
    }
}

/// A version reading with its string seen as characters.
pub open spec fn version_result_view(r: OsResult<Option<String>>) -> OsResult<Option<Seq<char>>> {
    match r {
        Ok(o) => Ok(opt_view(o)),
        Err(e) => Err(e),
    }
}

/// Extracts the semantic-version part of a version token such as
/// `v2.0.0-rc3-8-g1a1ba69`; `None` when the token does not have that shape.
pub fn parse_info_version(info: &str) -> (r: Option<String>)
    ensures
        opt_view(r) == version_core(info@),
{
    let n = info.unicode_len();
    if n == 0 || info.get_char(0) != 'v' {
        return None;
    }
    let mut i: usize = 1;
    while i < n
        invariant
            1 <= i <= n,
            n == info@.len(),
            info@[0] == 'v',
            first_dash_from(info@, 0) == first_dash_from(info@, i as int),
        decreases n - i,
    {
        if info.get_char(i) == '-' {
            if i == 1 {
                return None;
            }
            return Some(info.substring_char(1, i).to_owned());
        }
        i = i + 1;
    }
    None
}

fn read_slot_version(meta: &Option<String>) -> (r: OsResult<Option<String>>)
    ensures
        version_result_view(r) == slot_version(opt_view(*meta)),
{
    match meta {
        None => Err(OsError::MissingPartitionMetadata),
        Some(info) => match parse_info_version(info.as_str()) {
            Some(v) => Ok(Some(v)),
            None => Err(OsError::IllegalFirmwareVersion),
        },
    }
}

/// Over-the-air update engine.
pub struct Ota {
    running: Slot,
    other: Slot,
    boot_other: bool,
    retained: RetainedState,
    updating: bool,
}

impl View for Ota {
    type V = OtaView;

    closed spec fn view(&self) -> OtaView {
        OtaView {
            running: self.running.state,
            running_version: opt_view(self.running.version),
            other: self.other.state,
            other_version: opt_view(self.other.version),
            boot_other: self.boot_other,
            failures: self.retained.failures,
            report_pending: self.retained.report_pending,
            updating: self.updating,
        }
    }
}

/// A write transaction into the inactive slot.
///
/// Only `Ota::begin_update` makes one, and it ends by `commit` or `cancel`.
pub struct OtaHandle {
    written: u64,
}

impl OtaHandle {
    pub closed spec fn spec_written(&self) -> u64 {
        self.written
    }

    /// Bytes written through this transaction so far.
    pub fn written(&self) -> (r: u64)
        ensures
            r == self.spec_written(),
    {
        self.written
    }

    /// Records a chunk of `len` bytes written into the slot; the count saturates.
    pub fn record_write(&mut self, len: u64)
        ensures
            final(self).spec_written() == if old(self).spec_written() + len > u64::MAX {
                u64::MAX as int
            } else {
                old(self).spec_written() + len
            },
    {
        self.written = self.written.saturating_add(len);
    }

    /// Finalizes the transaction: the new image becomes the provisional boot
    /// target, the failure counter restarts at zero and the outcome is to be
    /// reported by the next boot.
    pub fn commit(self, ota: &mut Ota)
        requires
            old(ota)@.updating,
        ensures
            final(ota)@ == old(ota)@.committed(),
    {
        ota.other = Slot { state: SlotState::Unverified, version: None };
        ota.boot_other = true;
        ota.retained = RetainedState { failures: 0, report_pending: true };
        ota.updating = false;
    }

    /// Aborts the transaction, discarding the partial image; the boot target and
    /// both slots' validity stay as they were.
    pub fn cancel(self, ota: &mut Ota)
        requires
            old(ota)@.updating,
        ensures
            final(ota)@ == old(ota)@.cancelled(),
    {
        ota.updating = false;
    }
}

impl Ota {
    /// Builds the engine from the platform's slot table: the running slot, the
    /// slot that was last demoted (if any) and the retained state.
    pub fn new(running: Slot, last_invalid: Option<Slot>, retained: RetainedState) -> (r: Ota)
        ensures
            r@.running == running.state,
            r@.running_version == opt_view(running.version),
            r@.other == (if last_invalid is Some { SlotState::Invalid } else { SlotState::Unknown }),
            r@.other_version == (match last_invalid {
                Some(s) => opt_view(s.version),
                None => None,
            }),
            !r@.boot_other,
            r@.failures == retained.failures,
            r@.report_pending == retained.report_pending,
            !r@.updating,
    {
        let other = match last_invalid {
            Some(s) => Slot { state: SlotState::Invalid, version: s.version },
            None => Slot { state: SlotState::Unknown, version: None },
        };
        Ota { running, other, boot_other: false, retained, updating: false }
    }

    /// The retained state to keep across the coming sleep.
    pub fn retained(&self) -> (r: RetainedState)
        ensures
            r.failures == self@.failures,
            r.report_pending == self@.report_pending,
    {
        self.retained
    }

    /// Whether the next boot starts the other slot.
    pub fn boots_other(&self) -> (r: bool)
        ensures
            r == self@.boot_other,
    {
        self.boot_other
    }

    /// Validity of the running slot.
    pub fn running_state(&self) -> (r: SlotState)
        ensures
            r == self@.running,
    {
        self.running.state
    }

    /// Whether the running slot is confirmed.
    pub fn current_verified(&self) -> (r: bool)
        ensures
            r == self@.confirmed(),
    {
        match self.running.state {
            SlotState::Valid => true,
            _ => false,
        }
    }

    /// Whether the other slot was demoted, i.e. this boot is a rollback.
    pub fn rollback_detected(&self) -> (r: bool)
        ensures
            r == self@.rollback_detected(),
    {
        match self.other.state {
            SlotState::Invalid => true,
            _ => false,
        }
    }

    /// Clears the report-pending flag.
    pub fn mark_reported(&mut self)
        ensures
            final(self)@ == old(self)@.reported(),
    {
        self.retained.report_pending = false;
    }

    /// Whether the outcome of an update or a rollback must still be reported.
    pub fn report_needed(&self) -> (r: bool)
        ensures
            r == self@.report_needed(),
    {
        if self.current_verified() && !self.rollback_detected() {
            return false;
        }
        self.retained.report_pending
    }

    /// Opens a write transaction against the inactive slot; fails while one is
    /// already open.
    pub fn begin_update(&mut self) -> (r: OsResult<OtaHandle>)
        ensures
            old(self)@.updating ==> r == Err::<OtaHandle, OsError>(OsError::UpdateInProgress)
                && final(self)@ == old(self)@,
            !old(self)@.updating ==> r is Ok && r->Ok_0.spec_written() == 0
                && final(self)@ == old(self)@.update_begun(),
    {
        if self.updating {
            return Err(OsError::UpdateInProgress);
        }
        self.updating = true;
        Ok(OtaHandle { written: 0 })
    }

    /// Decides at boot whether the running firmware must be rolled back: it is
    /// when it is provisional and has failed `MAX_FAILIURES` times. On `true`
    /// the running slot is demoted and the previous slot is the boot target;
    /// the caller then reboots at once.
    pub fn rollback_if_needed(&mut self) -> (r: bool)
        ensures
            r == old(self)@.rollback_due(),
            final(self)@ == (if r { old(self)@.rolled_back() } else { old(self)@ }),
    {
        if self.current_verified() {
            return false;
        }
        if self.retained.failures >= MAX_FAILIURES {
            self.running.state = SlotState::Invalid;
            self.boot_other = true;
            return true;
        }
        false
    }

    /// Confirms a provisional running firmware after a full successful cycle and
    /// restarts its failure count; returns whether it was provisional, in which
    /// case the caller marks the slot valid on the platform.
    pub fn mark_verified_if_needed(&mut self) -> (r: bool)
        ensures
            r == !old(self)@.confirmed(),
            final(self)@ == old(self)@.verified(),
    {
        if self.current_verified() {
            return false;
        }
        self.running.state = SlotState::Valid;
        self.retained.failures = 0;
        true
    }

    /// Counts a failed cycle; a confirmed firmware is never penalised.
    pub fn inc_failiures(&mut self)
        ensures
            final(self)@ == old(self)@.failed_once(),
    {
        if self.current_verified() {
            return;
        }
        self.retained.failures = self.retained.failures.saturating_add(1);
    }
    /// Version of the running firmware.
    pub fn current_version(&self) -> (r: OsResult<Option<String>>)
        ensures
            version_result_view(r) == slot_version(self@.running_version),
    {
        read_slot_version(&self.running.version)
    }

    /// Version of the firmware that was rolled back from, if this boot is a
    /// rollback.
    pub fn previous_version(&self) -> (r: OsResult<Option<String>>)
        ensures
            version_result_view(r) == (if self@.rollback_detected() {
                slot_version(self@.other_version)
            } else {
                Ok(None)
            }),
    {
        if !self.rollback_detected() {
            return Ok(None);
        }
        read_slot_version(&self.other.version)
    }
}

} // verus!
