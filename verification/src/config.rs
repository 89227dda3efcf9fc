//! Various functions related to configuration

use vstd::prelude::*;
use crate::bus::{
    echoed, fetched, lemma_field_then_read, lemma_modify_then_read, merged, performed, tested,
    BusOp, Command,
};
use crate::driver::LPS2X;
use crate::interface::Interface;
use crate::lps22hb;
use crate::lps22hb::Lps22hb;
use crate::lps25hb;
use crate::lps25hb::{Lps25hb, PRESS_RES, TEMP_RES};
use crate::register::{Control, Registers, BOOT, I2C_DIS, ODR_MASK, SWRESET};
use crate::variant::Sensor;

verus! {

/// Once the data rate has been set, the ODR field of the control register
/// reads as the code of the rate, for every rate that the chip offers, and the
/// other bits of the register are as they were.
pub proof fn lemma_datarate_round_trip<S: Sensor>(byte: u8, rate: S::Rate)
    ensures
        merged(byte, ODR_MASK, S::rate_code(rate)) & ODR_MASK == S::rate_code(rate),
        merged(byte, ODR_MASK, S::rate_code(rate)) & !ODR_MASK == byte & !ODR_MASK,
{
    S::rate_code_in_field(rate);
    lemma_field_then_read(byte, ODR_MASK, S::rate_code(rate));
}

/// Set the data rate, then read. Where `set_datarate` went through and the
/// control register gives back what was written to it, a read of the
/// register finds the code of the rate in the ODR field and the other bits
/// as the register held them before.
pub proof fn lemma_set_datarate_then_read<S: Sensor, E>(
    start: Seq<BusOp<E>>,
    middle: Seq<BusOp<E>>,
    end: Seq<BusOp<E>>,
    rate: S::Rate,
)
    requires
        performed(
            start,
            middle,
            seq![
                Command::Modify {
                    addr: Registers::CTRL_REG1.address(S::tag()),
                    clear: ODR_MASK,
                    set: S::rate_code(rate),
                },
            ],
            Ok::<(), E>(()),
        ),
        fetched(middle, end, Registers::CTRL_REG1.address(S::tag()), 1),
        echoed(middle.last(), end.last()),
    ensures
        end.last().data()[0] & ODR_MASK == S::rate_code(rate),
        end.last().data()[0] & !ODR_MASK == middle[start.len() as int].data()[0] & !ODR_MASK,
{
    lemma_modify_then_read(
        start,
        middle,
        end,
        Registers::CTRL_REG1.address(S::tag()),
        ODR_MASK,
        S::rate_code(rate),
    );
    lemma_datarate_round_trip::<S>(middle[start.len() as int].data()[0], rate);
}

impl<T: Interface> LPS2X<T> {
    /// Set output data rate: the ODR field of CTRL_REG1 gets the rate's code,
    /// the other bits of the register stay.
    pub fn set_datarate(&mut self, odr: <T::Chip as Sensor>::Rate) -> (r: Result<(), T::Error>)
        ensures
            performed(
                old(self)@,
                final(self)@,
                seq![
                    Command::Modify {
                        addr: Registers::CTRL_REG1.address(Self::chip()),
                        clear: ODR_MASK,
                        set: <T::Chip as Sensor>::rate_code(odr),
                    },
                ],
                r,
            ),
    {
        let addr = Registers::CTRL_REG1.addr(T::Chip::variant());
        let set = T::Chip::rate_value(odr);
        self.carry_out(Command::Modify { addr, clear: ODR_MASK, set })
    }

    /// Enable or disable block data update.
    pub fn bdu_enable(&mut self, flag: bool) -> (r: Result<(), T::Error>)
        ensures
            performed(
                old(self)@,
                final(self)@,
                seq![
                    Command::switched(
                        Control::BlockDataUpdate.register(Self::chip()).address(Self::chip()),
                        Control::BlockDataUpdate.mask(Self::chip()),
                        flag,
                    ),
                ],
                r,
            ),
    {
        let (addr, mask) = Control::BlockDataUpdate.locate(T::Chip::variant());
        self.carry_out(Command::switch(addr, mask, flag))
    }

    /// AUTOZERO: when set, the measured pressure is used as the reference in
    /// REF_P. From that point on the output pressure registers are updated
    /// and the same value is also used for interrupt generation:
    /// PRESS_OUT = measured pressure - REF_P.
    pub fn autozero_config(&mut self, flag: bool) -> (r: Result<(), T::Error>)
        ensures
            performed(
                old(self)@,
                final(self)@,
                seq![
                    Command::switched(
                        Control::Autozero.register(Self::chip()).address(Self::chip()),
                        Control::Autozero.mask(Self::chip()),
                        flag,
                    ),
                ],
                r,
            ),
    {
        let (addr, mask) = Control::Autozero.locate(T::Chip::variant());
        self.carry_out(Command::switch(addr, mask, flag))
    }

    /// Resets the Autozero function. The bit clears itself.
    pub fn autozero_reset(&mut self) -> (r: Result<(), T::Error>)
        ensures
            performed(
                old(self)@,
                final(self)@,
                seq![
                    Command::Modify {
                        addr: Control::AutozeroReset.register(Self::chip()).address(Self::chip()),
                        clear: 0,
                        set: Control::AutozeroReset.mask(Self::chip()),
                    },
                ],
                r,
            ),
    {
        let (addr, mask) = Control::AutozeroReset.locate(T::Chip::variant());
        self.carry_out(Command::Modify { addr, clear: 0, set: mask })
    }

    /// Disables I2C interface (default 0, I2C enabled).
    pub fn i2c_disable(&mut self, flag: bool) -> (r: Result<(), T::Error>)
        ensures
            performed(
                old(self)@,
                final(self)@,
                seq![Command::switched(Registers::CTRL_REG2.address(Self::chip()), I2C_DIS, flag)],
                r,
            ),
    {
        let addr = Registers::CTRL_REG2.addr(T::Chip::variant());
        self.carry_out(Command::switch(addr, I2C_DIS, flag))
    }

    /// Reboot. Refreshes the content of the internal registers stored in the
    /// Flash memory block. The BOOT bit is set here and cleared by the
    /// hardware at the end of the boot process, which this call does not
    /// wait for.
    pub fn reboot(&mut self) -> (r: Result<(), T::Error>)
        ensures
            performed(
                old(self)@,
                final(self)@,
                seq![
                    Command::Modify {
                        addr: Registers::CTRL_REG2.address(Self::chip()),
                        clear: 0,
                        set: BOOT,
                    },
                ],
                r,
            ),
    {
        let addr = Registers::CTRL_REG2.addr(T::Chip::variant());
        self.carry_out(Command::Modify { addr, clear: 0, set: BOOT })
    }

    /// Run software reset (resets the device to the power-on configuration).
    /// The bit clears itself; this call does not wait for that.
    pub fn software_reset(&mut self) -> (r: Result<(), T::Error>)
        ensures
            performed(
                old(self)@,
                final(self)@,
                seq![
                    Command::Modify {
                        addr: Registers::CTRL_REG2.address(Self::chip()),
                        clear: 0,
                        set: SWRESET,
                    },
                ],
                r,
            ),
    {
        let addr = Registers::CTRL_REG2.addr(T::Chip::variant());
        self.carry_out(Command::Modify { addr, clear: 0, set: SWRESET })
    }
}

/// The two resolutions have fields of their own in RES_CONF: once one has
/// been set, its field reads as its code, and the field of the other and the
/// rest of the register are as they were.
pub proof fn lemma_resolutions_apart(byte: u8, temperature: TEMP_RES, pressure: PRESS_RES)
    ensures
        merged(byte, lps25hb::AVGT_MASK, temperature.code()) & lps25hb::AVGT_MASK
            == temperature.code(),
        merged(byte, lps25hb::AVGT_MASK, temperature.code()) & !lps25hb::AVGT_MASK == byte
            & !lps25hb::AVGT_MASK,
        merged(byte, lps25hb::AVGP_MASK, pressure.code()) & lps25hb::AVGP_MASK == pressure.code(),
        merged(byte, lps25hb::AVGP_MASK, pressure.code()) & !lps25hb::AVGP_MASK == byte
            & !lps25hb::AVGP_MASK,
        lps25hb::AVGT_MASK & lps25hb::AVGP_MASK == 0,
{
    let t = temperature.code();
    let p = pressure.code();
    assert(t & !0b0000_1100u8 == 0 && p & !0b0000_0011u8 == 0 && 0b0000_1100u8 & 0b0000_0011u8
        == 0) by (bit_vector)
        requires
            t == 0b0000 || t == 0b0100 || t == 0b1000 || t == 0b1100,
            p < 4,
    ;
    lemma_field_then_read(byte, lps25hb::AVGT_MASK, t);
    lemma_field_then_read(byte, lps25hb::AVGP_MASK, p);
}

impl<T> LPS2X<T> where T: Interface<Chip = Lps25hb> {
    /// Temperature internal average configuration (default 64).
    pub fn temperature_resolution(&mut self, resolution: TEMP_RES) -> (r: Result<(), T::Error>)
        ensures
            performed(
                old(self)@,
                final(self)@,
                seq![
                    Command::Modify {
                        addr: Registers::RES_CONF.address(Self::chip()),
                        clear: lps25hb::AVGT_MASK,
                        set: resolution.code(),
                    },
                ],
                r,
            ),
    {
        let addr = Registers::RES_CONF.addr(T::Chip::variant());
        self.carry_out(
            Command::Modify { addr, clear: lps25hb::AVGT_MASK, set: resolution.value() },
        )
    }

    /// Pressure internal average configuration (default 512).
    pub fn pressure_resolution(&mut self, resolution: PRESS_RES) -> (r: Result<(), T::Error>)
        ensures
            performed(
                old(self)@,
                final(self)@,
                seq![
                    Command::Modify {
                        addr: Registers::RES_CONF.address(Self::chip()),
                        clear: lps25hb::AVGP_MASK,
                        set: resolution.code(),
                    },
                ],
                r,
            ),
    {
        let addr = Registers::RES_CONF.addr(T::Chip::variant());
        self.carry_out(
            Command::Modify { addr, clear: lps25hb::AVGP_MASK, set: resolution.value() },
        )
    }

    /// Turn the sensor on (sensor is in power down by default).
    ///
    /// The LPS22HB has no power-down bit: it is on whenever a data rate is
    /// set or a one-shot conversion runs, so a driver for it has no
    /// `sensor_on`.
    pub fn sensor_on(&mut self, flag: bool) -> (r: Result<(), T::Error>)
        ensures
            performed(
                old(self)@,
                final(self)@,
                seq![
                    Command::switched(Registers::CTRL_REG1.address(Self::chip()), lps25hb::PD, flag),
                ],
                r,
            ),
    {
        let addr = Registers::CTRL_REG1.addr(T::Chip::variant());
        self.carry_out(Command::switch(addr, lps25hb::PD, flag))
    }

    /// Is reboot phase running? One read of INT_SOURCE; the answer is its
    /// top bit.
    pub fn reboot_running(&mut self) -> (r: Result<bool, T::Error>)
        ensures
            fetched(old(self)@, final(self)@, Registers::INT_SOURCE.address(Self::chip()), 1),
            r == final(self)@.last().answer(
                tested(final(self)@.last().data()[0], lps25hb::BOOT_STATUS),
            ),
    {
        self.is_register_bit_flag_high(Registers::INT_SOURCE, lps25hb::BOOT_STATUS)
    }
}

impl<T> LPS2X<T> where T: Interface<Chip = Lps22hb> {
    /// Register address automatically incremented during a multiple byte
    /// access with a serial interface (I2C or SPI). Default value: enabled.
    pub fn address_incrementing(&mut self, flag: bool) -> (r: Result<(), T::Error>)
        ensures
            performed(
                old(self)@,
                final(self)@,
                seq![
                    Command::switched(
                        Registers::CTRL_REG2.address(Self::chip()),
                        lps22hb::IF_ADD_INC,
                        flag,
                    ),
                ],
                r,
            ),
    {
        let addr = Registers::CTRL_REG2.addr(T::Chip::variant());
        self.carry_out(Command::switch(addr, lps22hb::IF_ADD_INC, flag))
    }

    /// Enable low-power mode (must be done only with the device in
    /// power-down mode).
    pub fn enable_low_power(&mut self) -> (r: Result<(), T::Error>)
        ensures
            performed(
                old(self)@,
                final(self)@,
                seq![
                    Command::Modify {
                        addr: Registers::RES_CONF.address(Self::chip()),
                        clear: 0,
                        set: lps22hb::LC_EN,
                    },
                ],
                r,
            ),
    {
        let addr = Registers::RES_CONF.addr(T::Chip::variant());
        self.carry_out(Command::Modify { addr, clear: 0, set: lps22hb::LC_EN })
    }

    /// Enable and configure low-pass filter on pressure data in Continuous
    /// mode.
    pub fn lowpass_filter(&mut self, enable: bool, configure: bool) -> (r: Result<(), T::Error>)
        ensures
            performed(
                old(self)@,
                final(self)@,
                seq![
                    Command::switched(
                        Registers::CTRL_REG1.address(Self::chip()),
                        lps22hb::EN_LPFP,
                        enable,
                    ),
                    Command::switched(
                        Registers::CTRL_REG1.address(Self::chip()),
                        lps22hb::LPFP_CFG,
                        configure,
                    ),
                ],
                r,
            ),
    {
        let addr = Registers::CTRL_REG1.addr(T::Chip::variant());
        let commands = [
            Command::switch(addr, lps22hb::EN_LPFP, enable),
            Command::switch(addr, lps22hb::LPFP_CFG, configure),
        ];
        self.run(commands.as_slice())
    }

    /// Reset low-pass filter. If the LPFP is active, in order to avoid the
    /// transitory phase, the filter can be reset by reading this register
    /// before generating pressure measurements.
    pub fn lowpass_filter_reset(&mut self) -> (r: Result<(), T::Error>)
        ensures
            fetched(old(self)@, final(self)@, lps22hb::LPFP_RES, 1),
            r == final(self)@.last().result(),
    {
        let mut data = [0u8];
        self.get(lps22hb::LPFP_RES, &mut data)
    }
}

} // verus!
