//! What only the LPS25HB has: its data rates, its internal averages and its
//! bit masks.

use vstd::prelude::*;
use crate::variant::{Sensor, Variant};

verus! {

/// The LPS25HB as a type.
#[derive(Clone, Copy, Debug)]
pub struct Lps25hb;

/// Output data rate and power mode selection (ODR).
#[allow(non_camel_case_types)]
#[derive(Clone, Copy, Debug, PartialEq, Eq, Structural)]
pub enum ODR {
    /// One-shot mode
    OneShot,
    /// 1 Hz
    _1Hz,
    /// 7 Hz
    _7Hz,
    /// 12.5 Hz
    _12_5Hz,
    /// 25 Hz
    _25Hz,
}

impl ODR {
    /// The rate's three-bit code, in bits 6 to 4.
    pub open spec fn code(self) -> u8 {
        match self {
            ODR::OneShot => 0b000_0000,
            ODR::_1Hz => 0b001_0000,
            ODR::_7Hz => 0b010_0000,
            ODR::_12_5Hz => 0b011_0000,
            ODR::_25Hz => 0b100_0000,
        }
    }

    /// The code, shifted into its place in the register.
    pub fn value(self) -> (v: u8)
        ensures
            v == self.code(),
    {
        match self {
            ODR::OneShot => 0b000_0000,
            ODR::_1Hz => 0b001_0000,
            ODR::_7Hz => 0b010_0000,
            ODR::_12_5Hz => 0b011_0000,
            ODR::_25Hz => 0b100_0000,
        }
    }
}

impl Sensor for Lps25hb {
    type Rate = ODR;

    open spec fn tag() -> Variant {
        Variant::Lps25hb
    }

    open spec fn rate_code(rate: ODR) -> u8 {
        rate.code()
    }

    proof fn rate_code_in_field(rate: ODR) {
        let code = rate.code();
        assert(code & !0b0111_0000u8 == 0) by (bit_vector)
            requires
                code == 0x00 || code == 0x10 || code == 0x20 || code == 0x30 || code == 0x40,
        ;
    }

    fn variant() -> (v: Variant) {
        Variant::Lps25hb
    }

    fn rate_value(rate: ODR) -> (code: u8) {
        rate.value()
    }
}

/// Temperature resolution: the number of internal averages.
#[allow(non_camel_case_types)]
#[derive(Clone, Copy, Debug, PartialEq, Eq, Structural)]
pub enum TEMP_RES {
    /// 8 internal averages
    _8,
    /// 16 internal averages
    _16,
    /// 32 internal averages
    _32,
    /// 64 internal averages
    _64,
}

impl TEMP_RES {
    /// The two-bit code, in bits 3 and 2.
    pub open spec fn code(self) -> u8 {
        match self {
            TEMP_RES::_8 => 0b0000,
            TEMP_RES::_16 => 0b0100,
            TEMP_RES::_32 => 0b1000,
            TEMP_RES::_64 => 0b1100,
        }
    }

    /// The code, shifted into its place in the register.
    pub fn value(self) -> (v: u8)
        ensures
            v == self.code(),
    {
        match self {
            TEMP_RES::_8 => 0b0000,
            TEMP_RES::_16 => 0b0100,
            TEMP_RES::_32 => 0b1000,
            TEMP_RES::_64 => 0b1100,
        }
    }
}

/// Pressure resolution: the number of internal averages.
#[allow(non_camel_case_types)]
#[derive(Clone, Copy, Debug, PartialEq, Eq, Structural)]
pub enum PRESS_RES {
    /// 8 internal averages
    _8,
    /// 32 internal averages
    _32,
    /// 128 internal averages
    _128,
    /// 512 internal averages
    _512,
}

impl PRESS_RES {
    /// The two-bit code, in bits 1 and 0.
    pub open spec fn code(self) -> u8 {
        match self {
            PRESS_RES::_8 => 0b00,
            PRESS_RES::_32 => 0b01,
            PRESS_RES::_128 => 0b10,
            PRESS_RES::_512 => 0b11,
        }
    }

    /// The code, shifted into its place in the register.
    pub fn value(self) -> (v: u8)
        ensures
            v == self.code(),
    {
        match self {
            PRESS_RES::_8 => 0b00,
            PRESS_RES::_32 => 0b01,
            PRESS_RES::_128 => 0b10,
            PRESS_RES::_512 => 0b11,
        }
    }
}

/// FIFO Mean mode: the sample size of the running average.
#[allow(non_camel_case_types)]
#[derive(Clone, Copy, Debug, PartialEq, Eq, Structural)]
pub enum FIFO_MEAN {
    /// 2-sample moving average
    _2sample,
    /// 4-sample moving average
    _4sample,
    /// 8-sample moving average
    _8sample,
    /// 16-sample moving average
    _16sample,
    /// 32-sample moving average
    _32sample,
}

impl FIFO_MEAN {
    /// The five-bit code, in bits 4 to 0.
    pub open spec fn code(self) -> u8 {
        match self {
            FIFO_MEAN::_2sample => 0b00001,
            FIFO_MEAN::_4sample => 0b00011,
            FIFO_MEAN::_8sample => 0b00111,
            FIFO_MEAN::_16sample => 0b01111,
            FIFO_MEAN::_32sample => 0b11111,
        }
    }

    /// The code, shifted into its place in the register.
    pub fn value(self) -> (v: u8)
        ensures
            v == self.code(),
    {
        match self {
            FIFO_MEAN::_2sample => 0b00001,
            FIFO_MEAN::_4sample => 0b00011,
            FIFO_MEAN::_8sample => 0b00111,
            FIFO_MEAN::_16sample => 0b01111,
            FIFO_MEAN::_32sample => 0b11111,
        }
    }
}

// RES_CONF
pub const AVGT_MASK: u8 = 0b0000_1100;

pub const AVGP_MASK: u8 = 0b0000_0011;

// CTRL_REG1
/// Power down control
pub const PD: u8 = 0b1000_0000;

pub const DIFF_EN: u8 = 0b0000_1000;

pub const BDU: u8 = 0b0000_0100;

pub const RESET_AZ: u8 = 0b0000_0010;

// CTRL_REG2
pub const FIFO_MEAN_DEC: u8 = 0b0001_0000;

pub const AUTOZERO: u8 = 0b0000_0010;

// CTRL_REG3
/// FIFO full flag on INT_DRDY pin
pub const F_FSS5: u8 = 0b0010_0000;

/// FIFO watermark status on INT_DRDY pin
pub const F_FTH: u8 = 0b0001_0000;

/// FIFO overrun on INT_DRDY pin
pub const F_OVR: u8 = 0b0000_1000;

/// Data-ready signal on INT_DRDY pin
pub const DRDY: u8 = 0b0000_0100;

// INT_SOURCE
/// Reboot phase status (1 - running)
pub const BOOT_STATUS: u8 = 0b1000_0000;

// STATUS
pub const P_OR: u8 = 0b0010_0000;

pub const T_OR: u8 = 0b0001_0000;

pub const P_DA: u8 = 0b0000_0010;

pub const T_DA: u8 = 0b0000_0001;

// FIFO_STATUS
pub const EMPTY_FIFO: u8 = 0b0010_0000;

pub const FSS_MASK: u8 = 0b0001_1111;

/// OR'ed into the register address of a read over I2C, so that the address
/// advances from byte to byte.
pub const MULTIBYTE: u8 = 0b1000_0000;

} // verus!
