//! Various functions related to interrupts

use vstd::prelude::*;
use crate::bus::{fetched, performed, tested, Command};
use crate::driver::LPS2X;
use crate::interface::Interface;
use crate::lps25hb;
use crate::register::{
    Control, Registers, IA, INT_H_L, INT_S_MASK, LIR, PH, PHE, PL, PLE, PP_OD,
};
use crate::settings::{FLAG, INT_ACTIVE, INT_DRDY, INT_PIN};
use crate::variant::{Sensor, Variant};

verus! {

/// Interrupt pin settings
#[derive(Clone, Copy, Debug, PartialEq, Eq, Structural)]
pub struct InterruptConfig {
    /// configure interrupt pin as active high or active low
    pub active_high_or_low: INT_ACTIVE,
    /// configure interrupt pin as push-pull or open drain
    pub pushpull_or_opendrain: INT_PIN,
    /// configure data signal on the interrupt pin
    pub data_signal_config: INT_DRDY,
    /// enable FIFO full flag on interrupt pin (LPS25HB)
    pub enable_fifo_full: FLAG,
    /// enable FIFO watermark flag on interrupt pin (LPS25HB)
    pub enable_fifo_fth: FLAG,
    /// enable FIFO overrun flag on interrupt pin (LPS25HB)
    pub enable_fifo_overrun: FLAG,
    /// enable data ready signal on interrupt pin (LPS25HB)
    pub enable_data_ready: FLAG,
    /// enable computing of differential pressure output
    pub enable_differential: FLAG,
    /// enable latching interrupt request to INT_SOURCE register
    pub enable_latch_interrupt: FLAG,
    /// enable low pressure event on interrupt pin
    pub enable_low_event: FLAG,
    /// enable high pressure event on interrupt pin
    pub enable_high_event: FLAG,
}

impl Default for InterruptConfig {
    fn default() -> (config: Self)
        ensures
            config.active_high_or_low == INT_ACTIVE::High,
            config.pushpull_or_opendrain == INT_PIN::PushPull,
            config.data_signal_config == INT_DRDY::DataSignal,
            config.enable_fifo_full == FLAG::Disabled,
            config.enable_fifo_fth == FLAG::Disabled,
            config.enable_fifo_overrun == FLAG::Disabled,
            config.enable_data_ready == FLAG::Disabled,
            config.enable_differential == FLAG::Disabled,
            config.enable_latch_interrupt == FLAG::Disabled,
            config.enable_low_event == FLAG::Disabled,
            config.enable_high_event == FLAG::Disabled,
    {
        InterruptConfig {
            active_high_or_low: INT_ACTIVE::High,
            pushpull_or_opendrain: INT_PIN::PushPull,
            data_signal_config: INT_DRDY::DataSignal,
            enable_fifo_full: FLAG::Disabled,
            enable_fifo_fth: FLAG::Disabled,
            enable_fifo_overrun: FLAG::Disabled,
            enable_data_ready: FLAG::Disabled,
            enable_differential: FLAG::Disabled,
            enable_latch_interrupt: FLAG::Disabled,
            enable_low_event: FLAG::Disabled,
            enable_high_event: FLAG::Disabled,
        }
    }
}

/// `mask` if the flag is enabled, else no bit.
pub open spec fn bit_if(on: bool, mask: u8) -> u8 {
    if on {
        mask
    } else {
        0
    }
}

fn bit(on: bool, mask: u8) -> (b: u8)
    ensures
        b == bit_if(on, mask),
{
    if on {
        mask
    } else {
        0
    }
}

impl InterruptConfig {
    /// How the pin behaves: its polarity, its pad and the signal on it.
    pub open spec fn pin_bits(self) -> u8 {
        bit_if(self.active_high_or_low.is_set(), INT_H_L) | bit_if(
            self.pushpull_or_opendrain.is_set(),
            PP_OD,
        ) | self.data_signal_config.code()
    }

    /// Which FIFO and data-ready signals go to the pin.
    pub open spec fn routing_bits(self) -> u8 {
        bit_if(self.enable_fifo_full.is_set(), lps25hb::F_FSS5) | bit_if(
            self.enable_fifo_fth.is_set(),
            lps25hb::F_FTH,
        ) | bit_if(self.enable_fifo_overrun.is_set(), lps25hb::F_OVR) | bit_if(
            self.enable_data_ready.is_set(),
            lps25hb::DRDY,
        )
    }

    /// The byte that the settings ask for in CTRL_REG3: how the pin behaves
    /// and, on the LPS25HB, which signals go to it.
    pub open spec fn ctrl_reg3_bits(self, variant: Variant) -> u8 {
        match variant {
            Variant::Lps22hb => self.pin_bits(),
            Variant::Lps25hb => self.pin_bits() | self.routing_bits(),
        }
    }

    /// The byte that the settings ask for in INTERRUPT_CFG: latching and the
    /// two pressure events.
    pub open spec fn interrupt_cfg_bits(self) -> u8 {
        bit_if(self.enable_latch_interrupt.is_set(), LIR) | bit_if(
            self.enable_low_event.is_set(),
            PLE,
        ) | bit_if(self.enable_high_event.is_set(), PHE)
    }

    /// Returns the value to be written to CTRL_REG3.
    pub fn int_ctrl_reg3(&self, variant: Variant) -> (data: u8)
        ensures
            data == self.ctrl_reg3_bits(variant),
    {
        let pin = bit(self.active_high_or_low.status(), INT_H_L) | bit(
            self.pushpull_or_opendrain.status(),
            PP_OD,
        ) | self.data_signal_config.value();
        match variant {
            Variant::Lps22hb => pin,
            Variant::Lps25hb => {
                let routing = bit(self.enable_fifo_full.status(), lps25hb::F_FSS5) | bit(
                    self.enable_fifo_fth.status(),
                    lps25hb::F_FTH,
                ) | bit(self.enable_fifo_overrun.status(), lps25hb::F_OVR) | bit(
                    self.enable_data_ready.status(),
                    lps25hb::DRDY,
                );
                pin | routing
            },
        }
    }

    /// Returns the value to be written to INTERRUPT_CFG.
    pub fn int_interrupt_cfg(&self) -> (data: u8)
        ensures
            data == self.interrupt_cfg_bits(),
    {
        bit(self.enable_latch_interrupt.status(), LIR) | bit(self.enable_low_event.status(), PLE)
            | bit(self.enable_high_event.status(), PHE)
    }

    /// What `configure_interrupts` asks of the registers: interrupt generation
    /// on differential pressure is switched on or off, then CTRL_REG3 and
    /// INTERRUPT_CFG are written, whatever they held.
    pub open spec fn commands(self, variant: Variant) -> Seq<Command> {
        seq![
            Command::switched(
                Control::DifferentialInterrupt.register(variant).address(variant),
                Control::DifferentialInterrupt.mask(variant),
                self.enable_differential.is_set(),
            ),
            Command::Write {
                addr: Registers::CTRL_REG3.address(variant),
                value: self.ctrl_reg3_bits(variant),
            },
            Command::Write {
                addr: Registers::INTERRUPT_CFG.address(variant),
                value: self.interrupt_cfg_bits(),
            },
        ]
    }
}

/// The settings of the pin can be read back from the byte that they ask for
/// in CTRL_REG3: polarity and pad have a bit each, the signal has bits 1 and
/// 0, and on the LPS25HB each signal that goes to the pin has a bit of its
/// own.
pub proof fn lemma_ctrl_reg3_fields(config: InterruptConfig, variant: Variant)
    ensures
        tested(config.ctrl_reg3_bits(variant), INT_H_L) == config.active_high_or_low.is_set(),
        tested(config.ctrl_reg3_bits(variant), PP_OD) == config.pushpull_or_opendrain.is_set(),
        config.ctrl_reg3_bits(variant) & INT_S_MASK == config.data_signal_config.code(),
        variant == Variant::Lps22hb ==> config.ctrl_reg3_bits(variant) & !(INT_H_L | PP_OD
            | INT_S_MASK) == 0,
        variant == Variant::Lps25hb ==> {
            &&& tested(config.ctrl_reg3_bits(variant), lps25hb::F_FSS5)
                == config.enable_fifo_full.is_set()
            &&& tested(config.ctrl_reg3_bits(variant), lps25hb::F_FTH)
                == config.enable_fifo_fth.is_set()
            &&& tested(config.ctrl_reg3_bits(variant), lps25hb::F_OVR)
                == config.enable_fifo_overrun.is_set()
            &&& tested(config.ctrl_reg3_bits(variant), lps25hb::DRDY)
                == config.enable_data_ready.is_set()
        },
{
    let a = bit_if(config.active_high_or_low.is_set(), INT_H_L);
    let p = bit_if(config.pushpull_or_opendrain.is_set(), PP_OD);
    let s = config.data_signal_config.code();
    let f = bit_if(config.enable_fifo_full.is_set(), lps25hb::F_FSS5);
    let t = bit_if(config.enable_fifo_fth.is_set(), lps25hb::F_FTH);
    let o = bit_if(config.enable_fifo_overrun.is_set(), lps25hb::F_OVR);
    let d = bit_if(config.enable_data_ready.is_set(), lps25hb::DRDY);
    assert(((a | p | s) & 0x80 != 0) == (a != 0) && ((a | p | s) & 0x40 != 0) == (p != 0) && (a
        | p | s) & 0x03 == s && (a | p | s) & !(0x80u8 | 0x40u8 | 0x03u8) == 0) by (bit_vector)
        requires
            a == 0 || a == 0x80,
            p == 0 || p == 0x40,
            s < 4,
    ;
    assert({
        let byte = (a | p | s) | (f | t | o | d);
        &&& (byte & 0x80 != 0) == (a != 0)
        &&& (byte & 0x40 != 0) == (p != 0)
        &&& byte & 0x03 == s
        &&& (byte & 0x20 != 0) == (f != 0)
        &&& (byte & 0x10 != 0) == (t != 0)
        &&& (byte & 0x08 != 0) == (o != 0)
        &&& (byte & 0x04 != 0) == (d != 0)
    }) by (bit_vector)
        requires
            a == 0 || a == 0x80,
            p == 0 || p == 0x40,
            s < 4,
            f == 0 || f == 0x20,
            t == 0 || t == 0x10,
            o == 0 || o == 0x08,
            d == 0 || d == 0x04,
    ;
}

/// The settings of the interrupt sources can be read back from the byte that
/// they ask for in INTERRUPT_CFG: each has a bit of its own, and no other bit
/// is asked for.
pub proof fn lemma_interrupt_cfg_flags(config: InterruptConfig)
    ensures
        tested(config.interrupt_cfg_bits(), LIR) == config.enable_latch_interrupt.is_set(),
        tested(config.interrupt_cfg_bits(), PLE) == config.enable_low_event.is_set(),
        tested(config.interrupt_cfg_bits(), PHE) == config.enable_high_event.is_set(),
        config.interrupt_cfg_bits() & !(LIR | PLE | PHE) == 0,
{
    let l = bit_if(config.enable_latch_interrupt.is_set(), LIR);
    let w = bit_if(config.enable_low_event.is_set(), PLE);
    let h = bit_if(config.enable_high_event.is_set(), PHE);
    assert(((l | w | h) & 0x04 != 0) == (l != 0) && ((l | w | h) & 0x02 != 0) == (w != 0) && ((l
        | w | h) & 0x01 != 0) == (h != 0) && (l | w | h) & !(0x04u8 | 0x02u8 | 0x01u8) == 0)
        by (bit_vector)
        requires
            l == 0 || l == 0x04,
            w == 0 || w == 0x02,
            h == 0 || h == 0x01,
    ;
}

/// Contents of the INT_SOURCE register (interrupt active and differential
/// pressure events flags)
#[derive(Clone, Copy, Debug, PartialEq, Eq, Structural)]
pub struct IntStatus {
    /// Has any interrupt event been generated?
    pub interrupt_active: bool,
    /// Has low differential pressure event been generated?
    pub diff_press_low: bool,
    /// Has high differential pressure event been generated?
    pub diff_press_high: bool,
}

impl IntStatus {
    /// What an INT_SOURCE byte says.
    pub open spec fn of(source: u8) -> IntStatus {
        IntStatus {
            interrupt_active: tested(source, IA),
            diff_press_low: tested(source, PL),
            diff_press_high: tested(source, PH),
        }
    }

    /// Decodes an INT_SOURCE byte.
    pub fn decode(source: u8) -> (s: IntStatus)
        ensures
            s == IntStatus::of(source),
    {
        IntStatus {
            interrupt_active: source & IA != 0,
            diff_press_low: source & PL != 0,
            diff_press_high: source & PH != 0,
        }
    }
}

impl<T: Interface> LPS2X<T> {
    /// Configure interrupt pin and interrupt sources, enable and configure
    /// differential pressure interrupts.
    ///
    /// CTRL_REG3 and INTERRUPT_CFG are written in full, not merged with what
    /// they held. On the LPS22HB the bit that the first step switches lies in
    /// INTERRUPT_CFG too, so the last step clears it again.
    pub fn configure_interrupts(&mut self, config: InterruptConfig) -> (r: Result<(), T::Error>)
        ensures
            performed(old(self)@, final(self)@, config.commands(Self::chip()), r),
    {
        let variant = T::Chip::variant();
        let (addr, mask) = Control::DifferentialInterrupt.locate(variant);
        let commands = [
            Command::switch(addr, mask, config.enable_differential.status()),
            Command::Write {
                addr: Registers::CTRL_REG3.addr(variant),
                value: config.int_ctrl_reg3(variant),
            },
            Command::Write {
                addr: Registers::INTERRUPT_CFG.addr(variant),
                value: config.int_interrupt_cfg(),
            },
        ];
        self.run(commands.as_slice())
    }

    /// Get all the flags from the INT_SOURCE register (NOTE: INT_SOURCE
    /// register is cleared by reading it)
    pub fn get_int_status(&mut self) -> (r: Result<IntStatus, T::Error>)
        ensures
            fetched(old(self)@, final(self)@, Registers::INT_SOURCE.address(Self::chip()), 1),
            r == final(self)@.last().answer(IntStatus::of(final(self)@.last().data()[0])),
    {
        match self.read_register(Registers::INT_SOURCE) {
            Ok(source) => Ok(IntStatus::decode(source)),
            Err(e) => Err(e),
        }
    }
}

} // verus!
