//! Reset causes and sleep scheduling.

use vstd::prelude::*;

verus! {

/// Why the chip last came out of reset.
#[derive(Debug, Clone, Copy, PartialEq, Eq, Structural)]
pub enum ResetReason {
    /// Software restart.
    Software,
    /// Reset by external pin.
    ExternalPin,
    /// Reset by a watchdog other than the ones below.
    Watchdog,
    /// Reset over SDIO.
    Sdio,
    /// Software reset after an exception or panic.
    Panic,
    /// Reset by the interrupt watchdog.
    InterruptWatchdog,
    /// Power-on event.
    PowerOn,
    /// The cause could not be determined.
    Unknown,
    /// Brownout reset.
    Brownout,
    /// Reset by the task watchdog.
    TaskWatchdog,
    /// Wake-up from deep sleep.
    DeepSleep,
    /// Reset by the USB peripheral.
    USBPeripheral,
    /// Reset by JTAG.
    JTAG,
    /// Reset caused by an efuse error.
    EfuseError,
    /// Reset after the power glitch detector fired.
    PowerGlitch,
    /// Reset by a CPU lockup.
    CpuLockup,
}

/// The reset causes that are part of normal operation.
pub open spec fn is_normal_reset(r: ResetReason) -> bool {
    ||| r is PowerOn
    ||| r is Software
    ||| r is DeepSleep
    ||| r is USBPeripheral
    ||| r is JTAG
}

/// Classification of reset causes.
pub trait ResetReasonExt {
    /// Whether the reset points at a fault (watchdog, brownout, panic, ...).
    fn is_abnormal(&self) -> bool;
}

impl ResetReasonExt for ResetReason {
    fn is_abnormal(&self) -> (r: bool)
        ensures
            r == !is_normal_reset(*self),
    {
        match self {
            ResetReason::PowerOn => false,
            ResetReason::Software => false,
            ResetReason::DeepSleep => false,
            ResetReason::USBPeripheral => false,
            ResetReason::JTAG => false,
            _ => true,
        }
    }
}

/// Sleep length used when no wake-up time is given: one month, in microseconds.
pub const INFINITE_SLEEP_TIME_US: u64 = 2_629_746_000_000;

/// How the node goes to sleep.
#[derive(Debug, Clone, Copy, PartialEq, Eq, Structural)]
pub enum SleepMode {
    /// Lowest-power sleep with a timer wake-up.
    Deep,
    /// An interruptible wait followed by a restart, which keeps a debugging
    /// console attached while the node is on external power.
    Fake,
}

/// A sleep request: the mode and its length in microseconds.
#[derive(Debug, Clone, Copy, PartialEq, Eq, Structural)]
pub struct SleepRequest {
    pub mode: SleepMode,
    pub micros: u64,
}

/// Chooses how the node sleeps: a fake sleep while a computer is attached over
/// USB, a deep sleep otherwise; without a time, for one month.
pub fn mcu_sleep(time_us: Option<u64>, usb_connected: bool) -> (r: SleepRequest)
    ensures
        r.mode == (if usb_connected { SleepMode::Fake } else { SleepMode::Deep }),
        r.micros == (match time_us {
            Some(t) => t,
            None => INFINITE_SLEEP_TIME_US,
        }),
{
    let micros = match time_us {
        Some(t) => t,
        None => INFINITE_SLEEP_TIME_US,
    };
    if usb_connected {
        SleepRequest { mode: SleepMode::Fake, micros }
    } else {
        SleepRequest { mode: SleepMode::Deep, micros }
    }
}

} // verus!
