//! What only the LPS22HB has: its data rates, its bit masks and the register
//! that resets its low-pass filter.

use vstd::prelude::*;
use crate::variant::{Sensor, Variant};

verus! {

/// The LPS22HB as a type.
#[derive(Clone, Copy, Debug)]
pub struct Lps22hb;

/// Output data rate and power mode selection (ODR).
#[allow(non_camel_case_types)]
#[derive(Clone, Copy, Debug, PartialEq, Eq, Structural)]
pub enum ODR {
    /// Power-down / one-shot mode
    PowerDown,
    /// 1 Hz
    _1Hz,
    /// 10 Hz
    _10Hz,
    /// 25 Hz
    _25Hz,
    /// 50 Hz
    _50Hz,
    /// 75 Hz
    _75Hz,
}

impl ODR {
    /// The rate's three-bit code, in bits 6 to 4.
    pub open spec fn code(self) -> u8 {
        match self {
            ODR::PowerDown => 0b000_0000,
            ODR::_1Hz => 0b001_0000,
            ODR::_10Hz => 0b010_0000,
            ODR::_25Hz => 0b011_0000,
            ODR::_50Hz => 0b100_0000,
            ODR::_75Hz => 0b101_0000,
        }
    }

    /// The code, shifted into its place in the register.
    pub fn value(self) -> (v: u8)
        ensures
            v == self.code(),
    {
        match self {
            ODR::PowerDown => 0b000_0000,
            ODR::_1Hz => 0b001_0000,
            ODR::_10Hz => 0b010_0000,
            ODR::_25Hz => 0b011_0000,
            ODR::_50Hz => 0b100_0000,
            ODR::_75Hz => 0b101_0000,
        }
    }
}

impl Sensor for Lps22hb {
    type Rate = ODR;

    open spec fn tag() -> Variant {
        Variant::Lps22hb
    }

    open spec fn rate_code(rate: ODR) -> u8 {
        rate.code()
    }

    proof fn rate_code_in_field(rate: ODR) {
        let code = rate.code();
        assert(code & !0b0111_0000u8 == 0) by (bit_vector)
            requires
                code == 0x00 || code == 0x10 || code == 0x20 || code == 0x30 || code == 0x40
                    || code == 0x50,
        ;
    }

    fn variant() -> (v: Variant) {
        Variant::Lps22hb
    }

    fn rate_value(rate: ODR) -> (code: u8) {
        rate.value()
    }
}

/// Filter reset register: reading it resets the low-pass filter.
pub const LPFP_RES: u8 = 0x33;

// INTERRUPT_CFG
pub const AUTOZERO: u8 = 0b0010_0000;

pub const RESET_AZ: u8 = 0b0001_0000;

/// Enable interrupt generation
pub const DIFF_EN: u8 = 0b0000_1000;

// CTRL_REG1
/// Low-pass filter on pressure data in continuous mode
pub const EN_LPFP: u8 = 0b0000_1000;

pub const LPFP_CFG: u8 = 0b0000_0100;

/// Block data update
pub const BDU: u8 = 0b0000_0010;

// CTRL_REG2
/// Increment address during multiple byte access
pub const IF_ADD_INC: u8 = 0b0001_0000;

// RES_CONF
/// Low current mode enable; must be changed in power-down mode
pub const LC_EN: u8 = 0b0000_0001;

// FIFO_STATUS
/// FIFO stored data level
pub const FSS_MASK: u8 = 0b0011_1111;

// STATUS
/// Temperature data overrun
pub const T_OR: u8 = 0b0010_0000;

/// Pressure data overrun
pub const P_OR: u8 = 0b0001_0000;

/// Temperature data available
pub const T_DA: u8 = 0b0000_0010;

/// Pressure data available
pub const P_DA: u8 = 0b0000_0001;

} // verus!
