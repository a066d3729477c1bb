//! Sensor-to-report pipeline of a USB pedal box: raw sensor readings are
//! mapped onto a signed 16-bit range, published into per-axis slots, and
//! packed into a fixed four-byte HID report.
use vstd::prelude::*;

pub mod io_monitor;
pub mod mapping;
pub mod report;

pub use io_monitor::{AnalogMonitor, AnalogMonitorConfig, LoadCellMonitor, LoadCellMonitorConfig};
pub use mapping::Mapping;

verus! {

/// A sensor read through a multi-step protocol (a weight cell on a serial
/// link) that may fail transiently.
pub trait LoadCell {
    type ReturnType;

    type Error;

    fn read(&mut self) -> Result<Self::ReturnType, Self::Error>;
}

/// A converter that samples one channel, identified by `Pin`, and never fails.
pub trait AnalogRead<Pin> {
    type ReturnType;

    fn read(&mut self, pin: &mut Pin) -> Self::ReturnType;
}

} // verus!
