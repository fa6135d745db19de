//! Update-safety and run-cycle core of a deep-sleeping sensor node firmware.

pub mod battery;
pub mod crc;
pub mod cycle;
pub mod cycle_laws;
pub mod error;
pub mod logging;
pub mod net;
pub mod net_laws;
pub mod ota;
pub mod ota_laws;
pub mod power;
pub mod sensor;
