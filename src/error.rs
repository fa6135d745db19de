//! Error taxonomy of the firmware core.

use vstd::prelude::*;

verus! {

/// Errors raised by the firmware core.
///
/// Variants that wrap a platform failure carry the platform's numeric error code.
#[derive(Debug, Clone, Copy, PartialEq, Eq, Structural)]
pub enum OsError {
    /// Failed to initialize WiFi.
    WifiInit(i32),
    /// Failed to connect to a WiFi access point.
    WifiConnect(i32),
    /// Failed to set up a WiFi parameter.
    WifiParam(i32),
    /// Failed to set the WiFi configuration.
    WifiConfig(i32),
    /// Failed to start the WiFi interface.
    WifiStart(i32),
    /// Failed to start an access point scan or to fetch its results.
    WifiScan(i32),
    /// Failed to read WiFi interface information.
    WifiInfo(i32),
    /// Timeout while waiting for an event.
    EventTimeout(i32),
    /// Failed to initialize an event waiter.
    EventWaiterInit(i32),
    /// No usable access point found.
    NoInternet,
    /// Error while talking to, or processing data from, the remote server.
    PwmpError,
    /// No environment sensor detected.
    NoEnvSensor,
    /// The OTA subsystem or an update could not be initialized.
    OtaInit(i32),
    /// An update was requested while another one is still open.
    UpdateInProgress,
    /// Failed to write an update chunk to flash.
    OtaWrite(i32),
    /// Failed to abort an update.
    OtaAbort(i32),
    /// An I/O operation on an OTA slot failed.
    OtaSlot(i32),
    /// Failed to initialize the durable store.
    NvsInit(i32),
    /// Failed to read from the durable store.
    NvsRead(i32),
    /// Failed to write to the durable store.
    NvsWrite(i32),
    /// Failed to initialize a GPIO pin.
    GpioInit(i32),
    /// Failed to initialize the ADC.
    AdcInit(i32),
    /// Failed to read from the ADC.
    AdcRead(i32),
    /// Failed to read from the I2C bus.
    I2cRead(i32),
    /// Failed to write to the I2C bus.
    I2cWrite(i32),
    /// A parameter was too long.
    ArgumentTooLong,
    /// Slot metadata holds a malformed version string.
    IllegalFirmwareVersion,
    /// Slot metadata is missing.
    MissingPartitionMetadata,
    /// A bounded buffer ran out of room.
    UnexpectedBufferFailiure,
    /// A value was absent where one was required.
    UnexpectedNull,
    /// A stored string was not valid UTF-8.
    InvalidUtf8,
    /// A key does not exist in the durable store.
    InvalidNvsKey,
}

/// Result type of the firmware core.
pub type OsResult<T> = Result<T, OsError>;

/// The errors after which the node retries on its next cycle: connectivity
/// failures and remote-protocol errors.
pub open spec fn is_recoverable(e: OsError) -> bool {
    ||| e is WifiConnect
    ||| e is NoInternet
    ||| e is PwmpError
}

impl OsError {
    /// Returns whether the error is non-fatal.
    pub fn recoverable(&self) -> (r: bool)
        ensures
            r == is_recoverable(*self),
    {
        match self {
            OsError::WifiConnect(_) => true,
            OsError::NoInternet => true,
            OsError::PwmpError => true,
            _ => false,
        }
    }
}

} // verus!
