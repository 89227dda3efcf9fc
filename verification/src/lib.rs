//! Register-level driver for the LPS22HB and LPS25HB pressure sensors.

pub mod bus;
pub mod config;
pub mod driver;
pub mod fifo;
pub mod interface;
pub mod interrupt;
pub mod lps22hb;
pub mod lps25hb;
pub mod register;
pub mod sensor;
pub mod settings;
pub mod variant;

pub use bus::{BusOp, Command};
pub use driver::LPS2X;
pub use fifo::{FIFOConfig, FifoStatus};
pub use interface::Interface;
pub use interrupt::{IntStatus, InterruptConfig};
pub use lps22hb::Lps22hb;
pub use lps25hb::Lps25hb;
pub use register::Registers;
pub use sensor::{DataStatus, Pressure, Temperature};
pub use settings::{FIFO_MODE, FIFO_ON, FLAG, INT_ACTIVE, INT_DRDY, INT_PIN};
pub use variant::{Sensor, Variant};
