//! The choices that configuration structs are made of.

use vstd::prelude::*;

verus! {

/// Settings for various FIFO- and interrupt-related flags, Enabled or Disabled
#[derive(Clone, Copy, Debug, PartialEq, Eq, Structural)]
pub enum FLAG {
    /// Enabled (bit set)
    Enabled,
    /// Disabled (bit cleared)
    Disabled,
}

impl FLAG {
    /// Whether the flag asks for its bit.
    pub open spec fn is_set(self) -> bool {
        self == FLAG::Enabled
    }

    /// Whether the bit is to be set.
    pub fn status(self) -> (on: bool)
        ensures
            on == self.is_set(),
    {
        match self {
            FLAG::Enabled => true,
            FLAG::Disabled => false,
        }
    }
}

/// FIFO on/off
#[allow(non_camel_case_types)]
#[derive(Clone, Copy, Debug, PartialEq, Eq, Structural)]
pub enum FIFO_ON {
    /// Enabled (bit set)
    Enabled,
    /// Disabled (bit cleared)
    Disabled,
}

impl FIFO_ON {
    /// Whether the FIFO is to be on.
    pub open spec fn is_set(self) -> bool {
        self == FIFO_ON::Enabled
    }

    /// Whether the bit is to be set.
    pub fn status(self) -> (on: bool)
        ensures
            on == self.is_set(),
    {
        match self {
            FIFO_ON::Enabled => true,
            FIFO_ON::Disabled => false,
        }
    }
}

/// FIFO mode selection.
#[allow(non_camel_case_types)]
#[derive(Clone, Copy, Debug, PartialEq, Eq, Structural)]
pub enum FIFO_MODE {
    /// Bypass mode
    Bypass,
    /// FIFO mode
    FIFO,
    /// Stream mode
    Stream,
    /// Stream-to-FIFO mode
    Stream_to_FIFO,
    /// Bypass-to-stream mode
    Bypass_to_stream,
    /// Dynamic-stream mode: what the LPS22HB makes of code 110
    Dynamic_Stream,
    /// FIFO Mean mode: what the LPS25HB makes of code 110
    FIFO_Mean,
    /// Bypass-to-FIFO mode
    Bypass_to_FIFO,
}

impl FIFO_MODE {
    /// The mode's three-bit code, in bits 7 to 5.
    pub open spec fn code(self) -> u8 {
        match self {
            FIFO_MODE::Bypass => 0b0000_0000,
            FIFO_MODE::FIFO => 0b0010_0000,
            FIFO_MODE::Stream => 0b0100_0000,
            FIFO_MODE::Stream_to_FIFO => 0b0110_0000,
            FIFO_MODE::Bypass_to_stream => 0b1000_0000,
            FIFO_MODE::Dynamic_Stream => 0b1100_0000,
            FIFO_MODE::FIFO_Mean => 0b1100_0000,
            FIFO_MODE::Bypass_to_FIFO => 0b1110_0000,
        }
    }

    /// The code, shifted into its place in the register.
    pub fn value(self) -> (v: u8)
        ensures
            v == self.code(),
    {
        match self {
            FIFO_MODE::Bypass => 0b0000_0000,
            FIFO_MODE::FIFO => 0b0010_0000,
            FIFO_MODE::Stream => 0b0100_0000,
            FIFO_MODE::Stream_to_FIFO => 0b0110_0000,
            FIFO_MODE::Bypass_to_stream => 0b1000_0000,
            FIFO_MODE::Dynamic_Stream => 0b1100_0000,
            FIFO_MODE::FIFO_Mean => 0b1100_0000,
            FIFO_MODE::Bypass_to_FIFO => 0b1110_0000,
        }
    }
}

/// INT_DRDY pin configuration.
#[allow(non_camel_case_types)]
#[derive(Clone, Copy, Debug, PartialEq, Eq, Structural)]
pub enum INT_DRDY {
    /// Data signal
    DataSignal,
    /// Pressure high
    P_high,
    /// Pressure low
    P_low,
    /// Pressure low or high
    P_low_or_high,
}

impl INT_DRDY {
    /// The two-bit code, in bits 1 and 0.
    pub open spec fn code(self) -> u8 {
        match self {
            INT_DRDY::DataSignal => 0b00,
            INT_DRDY::P_high => 0b01,
            INT_DRDY::P_low => 0b10,
            INT_DRDY::P_low_or_high => 0b11,
        }
    }

    /// The code, shifted into its place in the register.
    pub fn value(self) -> (v: u8)
        ensures
            v == self.code(),
    {
        match self {
            INT_DRDY::DataSignal => 0b00,
            INT_DRDY::P_high => 0b01,
            INT_DRDY::P_low => 0b10,
            INT_DRDY::P_low_or_high => 0b11,
        }
    }
}

/// Interrupt active setting for the INT_DRDY pin: active high (default) or
/// active low
#[allow(non_camel_case_types)]
#[derive(Clone, Copy, Debug, PartialEq, Eq, Structural)]
pub enum INT_ACTIVE {
    /// Active high
    High,
    /// Active low
    Low,
}

impl INT_ACTIVE {
    /// The INT_H_L bit: set for active low.
    pub open spec fn is_set(self) -> bool {
        self == INT_ACTIVE::Low
    }

    /// Whether the bit is to be set.
    pub fn status(self) -> (on: bool)
        ensures
            on == self.is_set(),
    {
        match self {
            INT_ACTIVE::High => false,
            INT_ACTIVE::Low => true,
        }
    }
}

/// Interrupt pad setting for INT_DRDY pin: push-pull (default) or open-drain.
#[allow(non_camel_case_types)]
#[derive(Clone, Copy, Debug, PartialEq, Eq, Structural)]
pub enum INT_PIN {
    /// Push-pull
    PushPull,
    /// Open drain
    OpenDrain,
}

impl INT_PIN {
    /// The PP_OD bit: set for open drain.
    pub open spec fn is_set(self) -> bool {
        self == INT_PIN::OpenDrain
    }

    /// Whether the bit is to be set.
    pub fn status(self) -> (on: bool)
        ensures
            on == self.is_set(),
    {
        match self {
            INT_PIN::PushPull => false,
            INT_PIN::OpenDrain => true,
        }
    }
}

} // verus!
