//! Functions related to sensor measurements: reading value or status, setting
//! offset and reference

use vstd::prelude::*;
use crate::bus::{fetched, performed, tested, Command};
use crate::driver::LPS2X;
use crate::interface::Interface;
use crate::lps22hb;
use crate::lps25hb;
use crate::register::{Registers, ODR_MASK, ONE_SHOT};
use crate::variant::{Sensor, Variant};

verus! {

/// The output of the pressure sensor must be divided by 4096 to give
/// hectopascals.
pub const PRESS_SCALE: i32 = 4096;

/// Threshold and pressure offset are kept in sixteenths of a hectopascal.
pub const HPA_STEPS: u16 = 16;

/// A pressure as the chip gives it. In hectopascals it is
/// `counts / per_hpa`.
#[derive(Clone, Copy, Debug, PartialEq, Eq, Structural)]
pub struct Pressure {
    pub counts: i32,
    pub per_hpa: i32,
}

/// A temperature as the chip gives it. In degrees Celsius it is
/// `counts / per_degree + offset_tenths / 10`.
#[derive(Clone, Copy, Debug, PartialEq, Eq, Structural)]
pub struct Temperature {
    pub counts: i16,
    pub per_degree: i16,
    pub offset_tenths: i16,
}

/// Contents of the STATUS register (pressure and temperature overrun and
/// data availability flags)
#[derive(Clone, Copy, Debug, PartialEq, Eq, Structural)]
pub struct DataStatus {
    /// Is new pressure data available?
    pub press_available: bool,
    /// Is new temperature data available?
    pub temp_available: bool,
    /// Has new pressure data overwritten the previous one?
    pub press_overrun: bool,
    /// Has new temperature data overwritten the previous one?
    pub temp_overrun: bool,
}

/// Three bytes, lowest first, as one number of 24 bits.
pub open spec fn word24(xl: u8, l: u8, h: u8) -> int {
    xl + 256 * l + 65536 * h
}

/// Two bytes, low byte first, as one number of 16 bits in two's complement.
pub open spec fn word16(lo: u8, hi: u8) -> int {
    if hi < 128 {
        lo + 256 * hi
    } else {
        lo + 256 * hi - 65536
    }
}

/// A count of sixteenths in whole units, rounded towards zero.
pub open spec fn sixteenth(steps: int) -> int {
    if steps >= 0 {
        steps / (HPA_STEPS as int)
    } else {
        -((-steps) / (HPA_STEPS as int))
    }
}

/// How many counts of the temperature output make one degree Celsius.
pub open spec fn temp_scale(variant: Variant) -> int {
    match variant {
        Variant::Lps22hb => 100,
        Variant::Lps25hb => 480,
    }
}

/// The temperature at which the output reads zero, in tenths of a degree
/// Celsius.
pub open spec fn temp_offset_tenths(variant: Variant) -> int {
    match variant {
        Variant::Lps22hb => 0,
        Variant::Lps25hb => 425,
    }
}

/// Puts the bytes of a pressure register together.
pub fn pressure_from(xl: u8, l: u8, h: u8) -> (p: Pressure)
    ensures
        p.counts == word24(xl, l, h),
        p.per_hpa == PRESS_SCALE,
{
    Pressure { counts: (h as i32) * 65536 + (l as i32) * 256 + (xl as i32), per_hpa: PRESS_SCALE }
}

/// Puts the bytes of a 16-bit register pair together.
pub fn signed_from(lo: u8, hi: u8) -> (v: i16)
    ensures
        v == word16(lo, hi),
{
    if hi < 128 {
        (hi as i16) * 256 + (lo as i16)
    } else {
        ((hi as i16) - 256) * 256 + (lo as i16)
    }
}

/// Puts the bytes of the temperature output together, with the scale and
/// the offset of the chip.
pub fn temperature_from(variant: Variant, lo: u8, hi: u8) -> (t: Temperature)
    ensures
        t.counts == word16(lo, hi),
        t.per_degree == temp_scale(variant),
        t.offset_tenths == temp_offset_tenths(variant),
{
    let counts = signed_from(lo, hi);
    match variant {
        Variant::Lps22hb => Temperature { counts, per_degree: 100, offset_tenths: 0 },
        Variant::Lps25hb => Temperature { counts, per_degree: 480, offset_tenths: 425 },
    }
}

/// The hectopascals that a threshold or offset register pair holds.
pub fn hpa_from(lo: u8, hi: u8) -> (hpa: i16)
    ensures
        hpa == sixteenth(word16(lo, hi)),
{
    let steps = signed_from(lo, hi);
    if steps >= 0 {
        steps / 16
    } else if steps == i16::MIN {
        // the one number whose opposite does not fit
        -2048
    } else {
        -((-steps) / 16)
    }
}

/// The low byte of the register pair that holds `hpa` hectopascals.
pub open spec fn steps_low(hpa: u16) -> u8 {
    ((hpa * HPA_STEPS) % 256) as u8
}

/// The high byte of the register pair that holds `hpa` hectopascals.
pub open spec fn steps_high(hpa: u16) -> u8 {
    ((hpa * HPA_STEPS) / 256) as u8
}

/// The register pair, low byte first, that holds `hpa` hectopascals.
pub fn steps_for(hpa: u16) -> (bytes: (u8, u8))
    requires
        hpa * HPA_STEPS <= u16::MAX,
    ensures
        bytes.0 == steps_low(hpa),
        bytes.1 == steps_high(hpa),
        bytes.0 + 256 * bytes.1 == hpa * HPA_STEPS,
{
    let steps: u16 = hpa * HPA_STEPS;
    ((steps % 256) as u8, (steps / 256) as u8)
}

/// A threshold or offset that was written comes back as it was, as long as
/// the register pair, which is read as a signed number, stays positive.
pub proof fn lemma_hpa_round_trip(hpa: u16)
    requires
        hpa * HPA_STEPS < 32768,
    ensures
        sixteenth(word16(steps_low(hpa), steps_high(hpa))) == hpa,
{
}

impl DataStatus {
    /// What a STATUS byte says on the given chip.
    pub open spec fn of(variant: Variant, status: u8) -> DataStatus {
        match variant {
            Variant::Lps22hb => DataStatus {
                press_available: tested(status, lps22hb::P_DA),
                temp_available: tested(status, lps22hb::T_DA),
                press_overrun: tested(status, lps22hb::P_OR),
                temp_overrun: tested(status, lps22hb::T_OR),
            },
            Variant::Lps25hb => DataStatus {
                press_available: tested(status, lps25hb::P_DA),
                temp_available: tested(status, lps25hb::T_DA),
                press_overrun: tested(status, lps25hb::P_OR),
                temp_overrun: tested(status, lps25hb::T_OR),
            },
        }
    }

    /// Decodes a STATUS byte.
    pub fn decode(variant: Variant, status: u8) -> (s: DataStatus)
        ensures
            s == DataStatus::of(variant, status),
    {
        match variant {
            Variant::Lps22hb => DataStatus {
                press_available: status & lps22hb::P_DA != 0,
                temp_available: status & lps22hb::T_DA != 0,
                press_overrun: status & lps22hb::P_OR != 0,
                temp_overrun: status & lps22hb::T_OR != 0,
            },
            Variant::Lps25hb => DataStatus {
                press_available: status & lps25hb::P_DA != 0,
                temp_available: status & lps25hb::T_DA != 0,
                press_overrun: status & lps25hb::P_OR != 0,
                temp_overrun: status & lps25hb::T_OR != 0,
            },
        }
    }
}

impl<T: Interface> LPS2X<T> {
    /// Read the device ID ("who am I")
    pub fn get_device_id(&mut self) -> (r: Result<u8, T::Error>)
        ensures
            fetched(old(self)@, final(self)@, Registers::WHO_AM_I.address(Self::chip()), 1),
            r == final(self)@.last().answer(final(self)@.last().data()[0]),
    {
        self.read_register(Registers::WHO_AM_I)
    }

    /// Pressure reading, from one read of the three output registers.
    pub fn read_pressure(&mut self) -> (r: Result<Pressure, T::Error>)
        ensures
            fetched(old(self)@, final(self)@, Registers::PRESS_OUT_XL.address(Self::chip()), 3),
            r == final(self)@.last().answer(
                Pressure {
                    counts: word24(
                        final(self)@.last().data()[0],
                        final(self)@.last().data()[1],
                        final(self)@.last().data()[2],
                    ) as i32,
                    per_hpa: PRESS_SCALE,
                },
            ),
    {
        let mut data = [0u8, 0u8, 0u8];
        let addr = Registers::PRESS_OUT_XL.addr(T::Chip::variant());
        match self.get(addr, &mut data) {
            Ok(()) => Ok(pressure_from(data[0], data[1], data[2])),
            Err(e) => Err(e),
        }
    }

    /// Temperature reading, from one read of the two output registers.
    pub fn read_temperature(&mut self) -> (r: Result<Temperature, T::Error>)
        ensures
            fetched(old(self)@, final(self)@, Registers::TEMP_OUT_L.address(Self::chip()), 2),
            r == final(self)@.last().answer(
                Temperature {
                    counts: word16(final(self)@.last().data()[0], final(self)@.last().data()[1])
                        as i16,
                    per_degree: temp_scale(Self::chip()) as i16,
                    offset_tenths: temp_offset_tenths(Self::chip()) as i16,
                },
            ),
    {
        let mut data = [0u8, 0u8];
        let variant = T::Chip::variant();
        match self.get(Registers::TEMP_OUT_L.addr(variant), &mut data) {
            Ok(()) => Ok(temperature_from(variant, data[0], data[1])),
            Err(e) => Err(e),
        }
    }

    /// Reference pressure reading, from one read of the three reference
    /// registers.
    pub fn read_reference_pressure(&mut self) -> (r: Result<Pressure, T::Error>)
        ensures
            fetched(old(self)@, final(self)@, Registers::REF_P_XL.address(Self::chip()), 3),
            r == final(self)@.last().answer(
                Pressure {
                    counts: word24(
                        final(self)@.last().data()[0],
                        final(self)@.last().data()[1],
                        final(self)@.last().data()[2],
                    ) as i32,
                    per_hpa: PRESS_SCALE,
                },
            ),
    {
        let mut data = [0u8, 0u8, 0u8];
        let addr = Registers::REF_P_XL.addr(T::Chip::variant());
        match self.get(addr, &mut data) {
            Ok(()) => Ok(pressure_from(data[0], data[1], data[2])),
            Err(e) => Err(e),
        }
    }

    /// Read pressure offset value in hPa, 16-bit data that can be used to
    /// implement One-Point Calibration (OPC) after soldering.
    pub fn read_pressure_offset(&mut self) -> (r: Result<i16, T::Error>)
        ensures
            fetched(old(self)@, final(self)@, Registers::RPDS_L.address(Self::chip()), 2),
            r == final(self)@.last().answer(
                sixteenth(word16(final(self)@.last().data()[0], final(self)@.last().data()[1]))
                    as i16,
            ),
    {
        let mut data = [0u8, 0u8];
        let addr = Registers::RPDS_L.addr(T::Chip::variant());
        match self.get(addr, &mut data) {
            Ok(()) => Ok(hpa_from(data[0], data[1])),
            Err(e) => Err(e),
        }
    }

    /// Read threshold value for pressure interrupt generation, in hPa
    pub fn read_threshold(&mut self) -> (r: Result<i16, T::Error>)
        ensures
            fetched(old(self)@, final(self)@, Registers::THS_P_L.address(Self::chip()), 2),
            r == final(self)@.last().answer(
                sixteenth(word16(final(self)@.last().data()[0], final(self)@.last().data()[1]))
                    as i16,
            ),
    {
        let mut data = [0u8, 0u8];
        let addr = Registers::THS_P_L.addr(T::Chip::variant());
        match self.get(addr, &mut data) {
            Ok(()) => Ok(hpa_from(data[0], data[1])),
            Err(e) => Err(e),
        }
    }

    /// Set threshold value for pressure interrupt generation (VALUE IN hPA!)
    pub fn set_threshold(&mut self, threshold: u16) -> (r: Result<(), T::Error>)
        requires
            threshold * HPA_STEPS <= u16::MAX,
        ensures
            performed(
                old(self)@,
                final(self)@,
                seq![
                    Command::Write {
                        addr: Registers::THS_P_L.address(Self::chip()),
                        value: steps_low(threshold),
                    },
                    Command::Write {
                        addr: Registers::THS_P_H.address(Self::chip()),
                        value: steps_high(threshold),
                    },
                ],
                r,
            ),
    {
        let variant = T::Chip::variant();
        let (low, high) = steps_for(threshold);
        let commands = [
            Command::Write { addr: Registers::THS_P_L.addr(variant), value: low },
            Command::Write { addr: Registers::THS_P_H.addr(variant), value: high },
        ];
        self.run(commands.as_slice())
    }

    /// Set the pressure offset value (VALUE IN hPA!)
    pub fn set_pressure_offset(&mut self, offset: u16) -> (r: Result<(), T::Error>)
        requires
            offset * HPA_STEPS <= u16::MAX,
        ensures
            performed(
                old(self)@,
                final(self)@,
                seq![
                    Command::Write {
                        addr: Registers::RPDS_L.address(Self::chip()),
                        value: steps_low(offset),
                    },
                    Command::Write {
                        addr: Registers::RPDS_H.address(Self::chip()),
                        value: steps_high(offset),
                    },
                ],
                r,
            ),
    {
        let variant = T::Chip::variant();
        let (low, high) = steps_for(offset);
        let commands = [
            Command::Write { addr: Registers::RPDS_L.addr(variant), value: low },
            Command::Write { addr: Registers::RPDS_H.addr(variant), value: high },
        ];
        self.run(commands.as_slice())
    }

    /// Get all the flags from the STATUS register
    pub fn get_data_status(&mut self) -> (r: Result<DataStatus, T::Error>)
        ensures
            fetched(old(self)@, final(self)@, Registers::STATUS.address(Self::chip()), 1),
            r == final(self)@.last().answer(
                DataStatus::of(Self::chip(), final(self)@.last().data()[0]),
            ),
    {
        match self.read_register(Registers::STATUS) {
            Ok(status) => Ok(DataStatus::decode(T::Chip::variant(), status)),
            Err(e) => Err(e),
        }
    }

    /// Triggers the one-shot mode: the data rate is put to power-down /
    /// one-shot, then the ONE_SHOT bit is set. The bit clears itself when the
    /// acquisition is done; this call does not wait for that.
    pub fn one_shot(&mut self) -> (r: Result<(), T::Error>)
        ensures
            performed(
                old(self)@,
                final(self)@,
                seq![
                    Command::Modify {
                        addr: Registers::CTRL_REG1.address(Self::chip()),
                        clear: ODR_MASK,
                        set: 0,
                    },
                    Command::Modify {
                        addr: Registers::CTRL_REG2.address(Self::chip()),
                        clear: 0,
                        set: ONE_SHOT,
                    },
                ],
                r,
            ),
    {
        let variant = T::Chip::variant();
        let commands = [
            Command::Modify { addr: Registers::CTRL_REG1.addr(variant), clear: ODR_MASK, set: 0 },
            Command::Modify { addr: Registers::CTRL_REG2.addr(variant), clear: 0, set: ONE_SHOT },
        ];
        self.run(commands.as_slice())
    }
}

} // verus!
