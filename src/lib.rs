//! Driver for the SHARP GP2Y0E02B infrared distance sensor on an I2C bus.
//!
//! The driver reads and writes the sensor's registers, one transaction per
//! register, and turns the two distance bytes and the shift bit into a
//! reading of `raw / 16 / 2^shift` millimeters.

pub mod bus;
pub mod distance;
pub mod driver;
pub mod register;

pub use bus::{BusEvent, I2cBus, Transfer};
pub use distance::Distance;
pub use driver::{Error, GP2Y0E02B};
pub use register::Register;
