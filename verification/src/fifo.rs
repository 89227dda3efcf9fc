//! Various functions related to FIFO

use vstd::prelude::*;
use crate::bus::{fetched, performed, tested, Command};
use crate::driver::LPS2X;
use crate::interface::Interface;
use crate::lps22hb;
use crate::lps25hb;
use crate::lps25hb::FIFO_MEAN;
use crate::register::{
    Registers, FIFO_EN, FTH_FIFO, F_MODE_MASK, OVR, STOP_ON_FTH, WTM_MASK,
};
use crate::settings::{FIFO_MODE, FIFO_ON, FLAG};
use crate::variant::{Sensor, Variant};

verus! {

/// FIFO settings
#[derive(Clone, Copy, Debug, PartialEq, Eq, Structural)]
pub struct FIFOConfig {
    /// Stop on FIFO watermark (enable FIFO watermark use)
    pub enable_watermark: FLAG,
    /// Select FIFO operation mode
    pub fifo_mode: FIFO_MODE,
    /// Set the watermark level, 0 to 32
    pub watermark_level: u8,
    /// Enable decimating output pressure to 1Hz with FIFO Mean mode
    /// (LPS25HB; the LPS22HB has no such bit and the flag is left aside)
    pub enable_decimating: FLAG,
    /// Select sample size for FIFO Mean mode running average (LPS25HB; used
    /// in place of the watermark level when the mode is `FIFO_Mean`)
    pub fifo_mean_config: FIFO_MEAN,
}

impl Default for FIFOConfig {
    fn default() -> (config: Self)
        ensures
            config.enable_watermark == FLAG::Disabled,
            config.fifo_mode == FIFO_MODE::Bypass,
            config.watermark_level == 32,
            config.enable_decimating == FLAG::Disabled,
            config.fifo_mean_config == FIFO_MEAN::_2sample,
    {
        FIFOConfig {
            enable_watermark: FLAG::Disabled,
            fifo_mode: FIFO_MODE::Bypass,
            watermark_level: 32u8,
            enable_decimating: FLAG::Disabled,
            fifo_mean_config: FIFO_MEAN::_2sample,
        }
    }
}

impl FIFOConfig {
    /// The bits that the settings ask for in CTRL_REG2: stop on watermark
    /// and, on the LPS25HB, decimation.
    pub open spec fn ctrl_reg2_bits(self, variant: Variant) -> u8 {
        let stop: u8 = if self.enable_watermark.is_set() {
            STOP_ON_FTH
        } else {
            0
        };
        let decimate: u8 = if variant == Variant::Lps25hb && self.enable_decimating.is_set() {
            lps25hb::FIFO_MEAN_DEC
        } else {
            0
        };
        stop | decimate
    }

    /// The low bits of FIFO_CTRL: the sample size of the running average
    /// where the LPS25HB is put in FIFO Mean mode, else the watermark level.
    pub open spec fn low_bits(self, variant: Variant) -> u8 {
        if variant == Variant::Lps25hb && self.fifo_mode == FIFO_MODE::FIFO_Mean {
            self.fifo_mean_config.code()
        } else {
            self.watermark_level
        }
    }

    /// The byte that the settings ask for in FIFO_CTRL.
    pub open spec fn fifo_ctrl_bits(self, variant: Variant) -> u8 {
        self.fifo_mode.code() | self.low_bits(variant)
    }

    /// Returns the value to be merged into CTRL_REG2.
    pub fn f_ctrl_reg2(&self, variant: Variant) -> (data: u8)
        ensures
            data == self.ctrl_reg2_bits(variant),
    {
        let stop: u8 = if self.enable_watermark.status() {
            STOP_ON_FTH
        } else {
            0
        };
        let decimate: u8 = match variant {
            Variant::Lps25hb => if self.enable_decimating.status() {
                lps25hb::FIFO_MEAN_DEC
            } else {
                0
            },
            Variant::Lps22hb => 0,
        };
        stop | decimate
    }

    /// Returns the value to be written to FIFO_CTRL.
    pub fn f_fifo_ctrl(&self, variant: Variant) -> (data: u8)
        ensures
            data == self.fifo_ctrl_bits(variant),
    {
        let low: u8 = match (variant, self.fifo_mode) {
            (Variant::Lps25hb, FIFO_MODE::FIFO_Mean) => self.fifo_mean_config.value(),
            _ => self.watermark_level,
        };
        self.fifo_mode.value() | low
    }

    /// What `configure_fifo` asks of the registers: the FIFO is switched on
    /// or off, the settings' bits are set in CTRL_REG2, and FIFO_CTRL is
    /// written.
    pub open spec fn commands(self, variant: Variant, flag: FIFO_ON) -> Seq<Command> {
        seq![
            Command::switched(Registers::CTRL_REG2.address(variant), FIFO_EN, flag.is_set()),
            Command::Modify {
                addr: Registers::CTRL_REG2.address(variant),
                clear: 0,
                set: self.ctrl_reg2_bits(variant),
            },
            Command::Write {
                addr: Registers::FIFO_CTRL.address(variant),
                value: self.fifo_ctrl_bits(variant),
            },
        ]
    }
}

/// The settings can be read back from the bits that they ask for in
/// CTRL_REG2: each flag has a bit of its own, and no other bit is asked for.
pub proof fn lemma_ctrl_reg2_flags(config: FIFOConfig, variant: Variant)
    ensures
        tested(config.ctrl_reg2_bits(variant), STOP_ON_FTH) == config.enable_watermark.is_set(),
        tested(config.ctrl_reg2_bits(variant), lps25hb::FIFO_MEAN_DEC) == (variant
            == Variant::Lps25hb && config.enable_decimating.is_set()),
        config.ctrl_reg2_bits(variant) & !(STOP_ON_FTH | lps25hb::FIFO_MEAN_DEC) == 0,
{
    let stop: u8 = if config.enable_watermark.is_set() {
        STOP_ON_FTH
    } else {
        0
    };
    let decimate: u8 = if variant == Variant::Lps25hb && config.enable_decimating.is_set() {
        lps25hb::FIFO_MEAN_DEC
    } else {
        0
    };
    assert(((stop | decimate) & 0x20 != 0) == (stop != 0) && ((stop | decimate) & 0x10 != 0) == (
    decimate != 0) && (stop | decimate) & !(0x20u8 | 0x10u8) == 0) by (bit_vector)
        requires
            stop == 0 || stop == 0x20,
            decimate == 0 || decimate == 0x10,
    ;
}

/// The settings can be read back from the byte that they ask for in
/// FIFO_CTRL, as long as the watermark level is below 32: bits 7 to 5 hold
/// the mode, bits 4 to 0 the level or the sample size. A level of 32 does not
/// fit and comes out as a bit of the mode.
pub proof fn lemma_fifo_ctrl_fields(config: FIFOConfig, variant: Variant)
    requires
        config.low_bits(variant) < 32,
    ensures
        config.fifo_ctrl_bits(variant) & F_MODE_MASK == config.fifo_mode.code(),
        config.fifo_ctrl_bits(variant) & WTM_MASK == config.low_bits(variant),
{
    let mode = config.fifo_mode.code();
    let low = config.low_bits(variant);
    assert((mode | low) & 0xE0 == mode && (mode | low) & 0x1F == low) by (bit_vector)
        requires
            mode == 0x00 || mode == 0x20 || mode == 0x40 || mode == 0x60 || mode == 0x80 || mode
                == 0xC0 || mode == 0xE0,
            low < 32,
    ;
}

/// Contents of the FIFO_STATUS register (threshold reached, overrun, empty,
/// stored data level)
#[derive(Clone, Copy, Debug, PartialEq, Eq, Structural)]
pub struct FifoStatus {
    /// Is FIFO filling equal or higher than the threshold?
    pub fifo_thresh_reached: bool,
    /// Is FIFO full and at least one sample has been overwritten?
    pub fifo_overrun: bool,
    /// Is FIFO empty?
    pub fifo_empty: bool,
    /// FIFO stored data level
    pub fifo_level: u8,
}

/// The number of samples that a FIFO_STATUS byte reports. The LPS22HB gives
/// it as it is. The LPS25HB gives one less, unless the FIFO is empty.
pub open spec fn stored_level(variant: Variant, status: u8) -> u8 {
    match variant {
        Variant::Lps22hb => status & lps22hb::FSS_MASK,
        Variant::Lps25hb => if status & lps25hb::EMPTY_FIFO != 0 {
            0
        } else {
            ((status & lps25hb::FSS_MASK) + 1) as u8
        },
    }
}

/// Whether a FIFO_STATUS byte reports an empty FIFO. The LPS25HB has a flag
/// for it. The LPS22HB has none: its FIFO is empty when it holds no sample.
pub open spec fn reports_empty(variant: Variant, status: u8) -> bool {
    match variant {
        Variant::Lps22hb => status & lps22hb::FSS_MASK == 0,
        Variant::Lps25hb => status & lps25hb::EMPTY_FIFO != 0,
    }
}

/// FIFO stored data level, from a FIFO_STATUS byte.
pub fn fifo_level(variant: Variant, status: u8) -> (level: u8)
    ensures
        level == stored_level(variant, status),
        level <= 63,
        variant == Variant::Lps25hb ==> level <= 32,
{
    match variant {
        Variant::Lps22hb => {
            assert(status & 0b0011_1111u8 <= 63) by (bit_vector);
            status & lps22hb::FSS_MASK
        },
        Variant::Lps25hb => {
            if status & lps25hb::EMPTY_FIFO != 0 {
                0
            } else {
                assert(status & 0b0001_1111u8 <= 31) by (bit_vector);
                (status & lps25hb::FSS_MASK) + 1
            }
        },
    }
}

impl FifoStatus {
    /// What a FIFO_STATUS byte says.
    pub open spec fn of(variant: Variant, status: u8) -> FifoStatus {
        FifoStatus {
            fifo_thresh_reached: tested(status, FTH_FIFO),
            fifo_overrun: tested(status, OVR),
            fifo_empty: reports_empty(variant, status),
            fifo_level: stored_level(variant, status),
        }
    }

    /// Decodes a FIFO_STATUS byte.
    pub fn decode(variant: Variant, status: u8) -> (s: FifoStatus)
        ensures
            s == FifoStatus::of(variant, status),
    {
        FifoStatus {
            fifo_thresh_reached: status & FTH_FIFO != 0,
            fifo_overrun: status & OVR != 0,
            fifo_empty: match variant {
                Variant::Lps22hb => status & lps22hb::FSS_MASK == 0,
                Variant::Lps25hb => status & lps25hb::EMPTY_FIFO != 0,
            },
            fifo_level: fifo_level(variant, status),
        }
    }
}

impl<T: Interface> LPS2X<T> {
    /// Enable and configure FIFO
    pub fn configure_fifo(&mut self, flag: FIFO_ON, config: FIFOConfig) -> (r: Result<
        (),
        T::Error,
    >)
        ensures
            performed(old(self)@, final(self)@, config.commands(Self::chip(), flag), r),
    {
        let variant = T::Chip::variant();
        let ctrl_reg2 = Registers::CTRL_REG2.addr(variant);
        let commands = [
            Command::switch(ctrl_reg2, FIFO_EN, flag.status()),
            Command::Modify { addr: ctrl_reg2, clear: 0, set: config.f_ctrl_reg2(variant) },
            Command::Write {
                addr: Registers::FIFO_CTRL.addr(variant),
                value: config.f_fifo_ctrl(variant),
            },
        ];
        self.run(commands.as_slice())
    }

    /// Get flags and FIFO level from the FIFO_STATUS register
    pub fn get_fifo_status(&mut self) -> (r: Result<FifoStatus, T::Error>)
        ensures
            fetched(old(self)@, final(self)@, Registers::FIFO_STATUS.address(Self::chip()), 1),
            r == final(self)@.last().answer(
                FifoStatus::of(Self::chip(), final(self)@.last().data()[0]),
            ),
    {
        match self.read_register(Registers::FIFO_STATUS) {
            Ok(status) => Ok(FifoStatus::decode(T::Chip::variant(), status)),
            Err(e) => Err(e),
        }
    }

    /// Read FIFO stored data level
    pub fn read_fifo_level(&mut self) -> (r: Result<u8, T::Error>)
        ensures
            fetched(old(self)@, final(self)@, Registers::FIFO_STATUS.address(Self::chip()), 1),
            r == final(self)@.last().answer(
                stored_level(Self::chip(), final(self)@.last().data()[0]),
            ),
    {
        match self.read_register(Registers::FIFO_STATUS) {
            Ok(status) => Ok(fifo_level(T::Chip::variant(), status)),
            Err(e) => Err(e),
        }
    }
}

} // verus!
