//! The interface between the driver and the bus that the sensor sits on.

pub mod i2c;
pub mod spi;

pub use self::i2c::I2cInterface;
pub use self::spi::SpiInterface;




use vstd::prelude::*;
use crate::variant::Sensor;

verus! {

/// Access to the registers of one sensor. `SpiInterface` and `I2cInterface`
/// implement this.
pub trait Interface {
    /// What the bus reports when a transfer fails.
    type Error;

    /// The chip at the other end.
    type Chip: Sensor;

    /// Writes a byte to the register at `addr`.
    fn write(&mut self, addr: u8, value: u8) -> Result<(), Self::Error>;

    /// Fills `buffer` from the registers that start at `addr`.
    fn read(&mut self, addr: u8, buffer: &mut [u8]) -> Result<(), Self::Error>;
}

} // verus!
