//! Register map and bit masks of both chips.

use vstd::prelude::*;
use crate::lps22hb;
use crate::lps25hb;
use crate::variant::Variant;

verus! {

/// The registers that both chips have. A name stands for the same function on
/// either chip; its address depends on the chip.
#[allow(non_camel_case_types)]
#[derive(Clone, Copy, Debug, PartialEq, Eq, Structural)]
pub enum Registers {
    /// Interrupt control.
    INTERRUPT_CFG,
    /// Pressure threshold, low byte.
    THS_P_L,
    /// Pressure threshold, high byte.
    THS_P_H,
    /// Who am I (identifies the chip).
    WHO_AM_I,
    /// Control register 1.
    CTRL_REG1,
    /// Control register 2.
    CTRL_REG2,
    /// Control register 3.
    CTRL_REG3,
    /// FIFO configuration.
    FIFO_CTRL,
    /// Reference pressure, lowest byte.
    REF_P_XL,
    /// Reference pressure, middle byte.
    REF_P_L,
    /// Reference pressure, highest byte.
    REF_P_H,
    /// Pressure offset, low byte.
    RPDS_L,
    /// Pressure offset, high byte.
    RPDS_H,
    /// Resolution configuration.
    RES_CONF,
    /// Interrupt source.
    INT_SOURCE,
    /// FIFO status.
    FIFO_STATUS,
    /// Data status.
    STATUS,
    /// Pressure output, lowest byte.
    PRESS_OUT_XL,
    /// Pressure output, middle byte.
    PRESS_OUT_L,
    /// Pressure output, highest byte.
    PRESS_OUT_H,
    /// Temperature output, low byte.
    TEMP_OUT_L,
    /// Temperature output, high byte.
    TEMP_OUT_H,
}

impl Registers {
    /// The register's address on the given chip.
    pub open spec fn address(self, variant: Variant) -> u8 {
        match variant {
            Variant::Lps22hb => match self {
                Registers::INTERRUPT_CFG => 0x0B,
                Registers::THS_P_L => 0x0C,
                Registers::THS_P_H => 0x0D,
                Registers::WHO_AM_I => 0x0F,
                Registers::CTRL_REG1 => 0x10,
                Registers::CTRL_REG2 => 0x11,
                Registers::CTRL_REG3 => 0x12,
                Registers::FIFO_CTRL => 0x14,
                Registers::REF_P_XL => 0x15,
                Registers::REF_P_L => 0x16,
                Registers::REF_P_H => 0x17,
                Registers::RPDS_L => 0x18,
                Registers::RPDS_H => 0x19,
                Registers::RES_CONF => 0x1A,
                Registers::INT_SOURCE => 0x25,
                Registers::FIFO_STATUS => 0x26,
                Registers::STATUS => 0x27,
                Registers::PRESS_OUT_XL => 0x28,
                Registers::PRESS_OUT_L => 0x29,
                Registers::PRESS_OUT_H => 0x2A,
                Registers::TEMP_OUT_L => 0x2B,
                Registers::TEMP_OUT_H => 0x2C,
            },
            Variant::Lps25hb => match self {
                Registers::REF_P_XL => 0x08,
                Registers::REF_P_L => 0x09,
                Registers::REF_P_H => 0x0A,
                Registers::WHO_AM_I => 0x0F,
                Registers::RES_CONF => 0x10,
                Registers::CTRL_REG1 => 0x20,
                Registers::CTRL_REG2 => 0x21,
                Registers::CTRL_REG3 => 0x22,
                Registers::INTERRUPT_CFG => 0x24,
                Registers::INT_SOURCE => 0x25,
                Registers::STATUS => 0x27,
                Registers::PRESS_OUT_XL => 0x28,
                Registers::PRESS_OUT_L => 0x29,
                Registers::PRESS_OUT_H => 0x2A,
                Registers::TEMP_OUT_L => 0x2B,
                Registers::TEMP_OUT_H => 0x2C,
                Registers::FIFO_CTRL => 0x2E,
                Registers::FIFO_STATUS => 0x2F,
                Registers::THS_P_L => 0x30,
                Registers::THS_P_H => 0x31,
                Registers::RPDS_L => 0x39,
                Registers::RPDS_H => 0x3A,
            },
        }
    }

    /// Looks the register up in the chip's map.
    pub fn addr(self, variant: Variant) -> (a: u8)
        ensures
            a == self.address(variant),
    {
        match variant {
            Variant::Lps22hb => match self {
                Registers::INTERRUPT_CFG => 0x0B,
                Registers::THS_P_L => 0x0C,
                Registers::THS_P_H => 0x0D,
                Registers::WHO_AM_I => 0x0F,
                Registers::CTRL_REG1 => 0x10,
                Registers::CTRL_REG2 => 0x11,
                Registers::CTRL_REG3 => 0x12,
                Registers::FIFO_CTRL => 0x14,
                Registers::REF_P_XL => 0x15,
                Registers::REF_P_L => 0x16,
                Registers::REF_P_H => 0x17,
                Registers::RPDS_L => 0x18,
                Registers::RPDS_H => 0x19,
                Registers::RES_CONF => 0x1A,
                Registers::INT_SOURCE => 0x25,
                Registers::FIFO_STATUS => 0x26,
                Registers::STATUS => 0x27,
                Registers::PRESS_OUT_XL => 0x28,
                Registers::PRESS_OUT_L => 0x29,
                Registers::PRESS_OUT_H => 0x2A,
                Registers::TEMP_OUT_L => 0x2B,
                Registers::TEMP_OUT_H => 0x2C,
            },
            Variant::Lps25hb => match self {
                Registers::REF_P_XL => 0x08,
                Registers::REF_P_L => 0x09,
                Registers::REF_P_H => 0x0A,
                Registers::WHO_AM_I => 0x0F,
                Registers::RES_CONF => 0x10,
                Registers::CTRL_REG1 => 0x20,
                Registers::CTRL_REG2 => 0x21,
                Registers::CTRL_REG3 => 0x22,
                Registers::INTERRUPT_CFG => 0x24,
                Registers::INT_SOURCE => 0x25,
                Registers::STATUS => 0x27,
                Registers::PRESS_OUT_XL => 0x28,
                Registers::PRESS_OUT_L => 0x29,
                Registers::PRESS_OUT_H => 0x2A,
                Registers::TEMP_OUT_L => 0x2B,
                Registers::TEMP_OUT_H => 0x2C,
                Registers::FIFO_CTRL => 0x2E,
                Registers::FIFO_STATUS => 0x2F,
                Registers::THS_P_L => 0x30,
                Registers::THS_P_H => 0x31,
                Registers::RPDS_L => 0x39,
                Registers::RPDS_H => 0x3A,
            },
        }
    }
}

/// Within one chip no two registers share an address, the filter reset
/// register of the LPS22HB included.
pub proof fn lemma_addresses_distinct(variant: Variant, a: Registers, b: Registers)
    ensures
        a.address(variant) == b.address(variant) ==> a == b,
        a.address(Variant::Lps22hb) != lps22hb::LPFP_RES,
{
}

/// Controls that both chips have, each chip in a place of its own.
#[derive(Clone, Copy, Debug, PartialEq, Eq, Structural)]
pub enum Control {
    /// Block data update
    BlockDataUpdate,
    /// Use of the measured pressure as reference
    Autozero,
    /// Reset of the autozero function
    AutozeroReset,
    /// Interrupt generation on differential pressure
    DifferentialInterrupt,
}

impl Control {
    /// The register that holds the control on the given chip.
    pub open spec fn register(self, variant: Variant) -> Registers {
        match variant {
            Variant::Lps22hb => match self {
                Control::BlockDataUpdate => Registers::CTRL_REG1,
                Control::Autozero => Registers::INTERRUPT_CFG,
                Control::AutozeroReset => Registers::INTERRUPT_CFG,
                Control::DifferentialInterrupt => Registers::INTERRUPT_CFG,
            },
            Variant::Lps25hb => match self {
                Control::BlockDataUpdate => Registers::CTRL_REG1,
                Control::Autozero => Registers::CTRL_REG2,
                Control::AutozeroReset => Registers::CTRL_REG1,
                Control::DifferentialInterrupt => Registers::CTRL_REG1,
            },
        }
    }

    /// The control's bit in that register.
    pub open spec fn mask(self, variant: Variant) -> u8 {
        match variant {
            Variant::Lps22hb => match self {
                Control::BlockDataUpdate => lps22hb::BDU,
                Control::Autozero => lps22hb::AUTOZERO,
                Control::AutozeroReset => lps22hb::RESET_AZ,
                Control::DifferentialInterrupt => lps22hb::DIFF_EN,
            },
            Variant::Lps25hb => match self {
                Control::BlockDataUpdate => lps25hb::BDU,
                Control::Autozero => lps25hb::AUTOZERO,
                Control::AutozeroReset => lps25hb::RESET_AZ,
                Control::DifferentialInterrupt => lps25hb::DIFF_EN,
            },
        }
    }

    /// Looks the control up: the address of its register and its bit.
    pub fn locate(self, variant: Variant) -> (place: (u8, u8))
        ensures
            place.0 == self.register(variant).address(variant),
            place.1 == self.mask(variant),
    {
        let (register, mask) = match variant {
            Variant::Lps22hb => match self {
                Control::BlockDataUpdate => (Registers::CTRL_REG1, lps22hb::BDU),
                Control::Autozero => (Registers::INTERRUPT_CFG, lps22hb::AUTOZERO),
                Control::AutozeroReset => (Registers::INTERRUPT_CFG, lps22hb::RESET_AZ),
                Control::DifferentialInterrupt => (Registers::INTERRUPT_CFG, lps22hb::DIFF_EN),
            },
            Variant::Lps25hb => match self {
                Control::BlockDataUpdate => (Registers::CTRL_REG1, lps25hb::BDU),
                Control::Autozero => (Registers::CTRL_REG2, lps25hb::AUTOZERO),
                Control::AutozeroReset => (Registers::CTRL_REG1, lps25hb::RESET_AZ),
                Control::DifferentialInterrupt => (Registers::CTRL_REG1, lps25hb::DIFF_EN),
            },
        };
        (register.addr(variant), mask)
    }
}

// Masks that are the same on both chips.
// CTRL_REG1
/// Output data rate selection
pub const ODR_MASK: u8 = 0b0111_0000;

// CTRL_REG2
pub const BOOT: u8 = 0b1000_0000;

pub const FIFO_EN: u8 = 0b0100_0000;

pub const STOP_ON_FTH: u8 = 0b0010_0000;

pub const I2C_DIS: u8 = 0b0000_1000;

pub const SWRESET: u8 = 0b0000_0100;

/// Enable single shot to acquire a new dataset
pub const ONE_SHOT: u8 = 0b0000_0001;

// CTRL_REG3
pub const INT_H_L: u8 = 0b1000_0000;

pub const PP_OD: u8 = 0b0100_0000;

/// Data signal on INT_DRDY pin control bits
pub const INT_S_MASK: u8 = 0b0000_0011;

// INTERRUPT_CFG
/// Latch interrupt request
pub const LIR: u8 = 0b0000_0100;

/// Enable interrupt generation on low pressure event
pub const PLE: u8 = 0b0000_0010;

/// Enable interrupt generation on high pressure event
pub const PHE: u8 = 0b0000_0001;

// FIFO_CTRL
/// FIFO mode selection
pub const F_MODE_MASK: u8 = 0b1110_0000;

/// FIFO watermark level selection
pub const WTM_MASK: u8 = 0b0001_1111;

// INT_SOURCE
/// Interrupt active
pub const IA: u8 = 0b0000_0100;

/// Differential pressure low
pub const PL: u8 = 0b0000_0010;

/// Differential pressure high
pub const PH: u8 = 0b0000_0001;

// FIFO_STATUS
/// FIFO watermark status
pub const FTH_FIFO: u8 = 0b1000_0000;

/// FIFO overrun status
pub const OVR: u8 = 0b0100_0000;

} // verus!
