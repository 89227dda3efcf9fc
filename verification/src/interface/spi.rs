//! SPI Interface

use core::marker::PhantomData;
use vstd::prelude::*;
use super::Interface;
use crate::variant::{Sensor, Variant};

verus! {

/// R/W bit should be high for SPI Read operation
pub const SPI_READ: u8 = 0x80;

/// MS bit. When 0, does not increment the address; when 1, increments the
/// address in multiple reads. The LPS25HB needs it set.
pub const MS_BIT: u8 = 0x40;

/// Errors in this crate
#[derive(Debug)]
pub enum Error<CommE, PinE> {
    /// Communication error
    Comm(CommE),
    /// Pin setting error
    Pin(PinE),
}

/// The SPI bus that an `SpiInterface` drives: blocking transfers of bytes.
pub trait SpiBus {
    /// What the bus reports when a transfer fails.
    type Error;

    /// Sends `words` to the device, ignoring all the incoming words.
    fn write(&mut self, words: &[u8]) -> Result<(), Self::Error>;

    /// Sends `words` to the device and puts the words received in their
    /// place.
    fn transfer(&mut self, words: &mut [u8]) -> Result<(), Self::Error>;
}

/// The chip select line of the device.
pub trait SelectPin {
    /// What the pin reports when it cannot be set.
    type Error;

    /// Drives the pin low: the device is selected.
    fn set_low(&mut self) -> Result<(), Self::Error>;

    /// Drives the pin high: the device is released.
    fn set_high(&mut self) -> Result<(), Self::Error>;
}

/// One thing that was asked of the bus or of the chip select line, with
/// what came back.
pub enum SpiOp<CommE, PinE> {
    /// The chip select line was driven low.
    Select { result: Result<(), PinE> },
    /// `bytes` were sent.
    Send { bytes: Seq<u8>, outcome: Result<(), CommE> },
    /// `data.len()` bytes were exchanged; `data` is what the buffer held
    /// afterwards.
    Exchange { data: Seq<u8>, outcome: Result<(), CommE> },
    /// The chip select line was driven high.
    Release { result: Result<(), PinE> },
}

/// The address byte that a read of the register at `addr` sends: the read
/// bit and, for the LPS25HB, the bit that makes the address advance.
pub open spec fn read_address(variant: Variant, addr: u8) -> u8 {
    match variant {
        Variant::Lps22hb => SPI_READ | addr,
        Variant::Lps25hb => SPI_READ | MS_BIT | addr,
    }
}

/// Every read has the read bit in its address byte, and on the LPS25HB the
/// bit that makes the address advance as well, whatever the register.
pub proof fn lemma_read_address_bits(variant: Variant, addr: u8)
    ensures
        read_address(variant, addr) & SPI_READ == SPI_READ,
        variant == Variant::Lps25hb ==> read_address(variant, addr) & MS_BIT == MS_BIT,
        read_address(variant, addr) & !(SPI_READ | MS_BIT) == addr & !(SPI_READ | MS_BIT),
{
    assert((0x80u8 | addr) & 0x80 == 0x80) by (bit_vector);
    assert((0x80u8 | 0x40 | addr) & 0x80 == 0x80) by (bit_vector);
    assert((0x80u8 | 0x40 | addr) & 0x40 == 0x40) by (bit_vector);
    assert((0x80u8 | addr) & !(0x80u8 | 0x40) == addr & !(0x80u8 | 0x40)) by (bit_vector);
    assert((0x80u8 | 0x40 | addr) & !(0x80u8 | 0x40) == addr & !(0x80u8 | 0x40)) by (bit_vector);
}

/// How a transaction ended, given what its steps answered: with the error
/// of the first step that failed. `comm` is the first transfer that failed,
/// if any, and `release` is what the chip select line answered at the end.
pub open spec fn ended<CommE, PinE>(comm: Result<(), CommE>, release: Result<(), PinE>) -> Result<
    (),
    Error<CommE, PinE>,
> {
    match comm {
        Err(e) => Err(Error::Comm(e)),
        Ok(()) => match release {
            Err(e) => Err(Error::Pin(e)),
            Ok(()) => Ok(()),
        },
    }
}

/// `ops` are a whole write of `value` to the register at `addr`, and `r` is
/// how it ended. The device is selected first; if that fails nothing else
/// is done. The two bytes are sent, and the device is released whether they
/// went through or not.
pub open spec fn written<CommE, PinE>(
    ops: Seq<SpiOp<CommE, PinE>>,
    r: Result<(), Error<CommE, PinE>>,
    addr: u8,
    value: u8,
) -> bool {
    &&& ops.len() >= 1
    &&& ops[0] matches SpiOp::Select { result: selected }
    &&& match selected {
        Err(e) => ops.len() == 1 && r == Err::<(), Error<CommE, PinE>>(Error::Pin(e)),
        Ok(()) => {
            &&& ops.len() == 3
            &&& ops[1] matches SpiOp::Send { bytes, outcome: sent }
            &&& bytes == seq![addr, value]
            &&& ops[2] matches SpiOp::Release { result: released }
            &&& r == ended(sent, released)
        },
    }
}

/// `ops` are a whole read into a buffer, started with the address byte
/// `first`, `data` is what the buffer held afterwards, and `r` is how the
/// read ended. The device is selected first; if that fails nothing else is
/// done. The address byte is sent and, if that went through, the buffer is
/// exchanged. The device is released whether the transfers went through or
/// not.
pub open spec fn received<CommE, PinE>(
    ops: Seq<SpiOp<CommE, PinE>>,
    r: Result<(), Error<CommE, PinE>>,
    first: u8,
    data: Seq<u8>,
) -> bool {
    &&& ops.len() >= 1
    &&& ops[0] matches SpiOp::Select { result: selected }
    &&& match selected {
        Err(e) => ops.len() == 1 && r == Err::<(), Error<CommE, PinE>>(Error::Pin(e)),
        Ok(()) => {
            &&& ops.len() >= 3
            &&& ops[1] matches SpiOp::Send { bytes, outcome: sent }
            &&& bytes == seq![first]
            &&& match sent {
                Err(e) => {
                    &&& ops.len() == 3
                    &&& ops[2] matches SpiOp::Release { result: released }
                    &&& r == ended(sent, released)
                },
                Ok(()) => {
                    &&& ops.len() == 4
                    &&& ops[2] matches SpiOp::Exchange { data: filled, outcome: exchanged }
                    &&& filled == data
                    &&& ops[3] matches SpiOp::Release { result: released }
                    &&& r == ended(exchanged, released)
                },
            }
        },
    }
}

/// This combines the SPI Interface and chip select pins, and for the
/// contracts a record of what was asked of the two.
pub struct SpiInterface<SPI: SpiBus, CS: SelectPin, S> {
    spi: SPI,
    cs: CS,
    chip: PhantomData<S>,
    wire: Ghost<Seq<SpiOp<SPI::Error, CS::Error>>>,
}

impl<SPI: SpiBus, CS: SelectPin, S> View for SpiInterface<SPI, CS, S> {
    type V = Seq<SpiOp<SPI::Error, CS::Error>>;

    /// Everything that the interface has asked of its bus and of its chip
    /// select line, oldest first.
    closed spec fn view(&self) -> Seq<SpiOp<SPI::Error, CS::Error>> {
        self.wire@
    }
}

impl<SPI: SpiBus, CS: SelectPin, S> SpiInterface<SPI, CS, S> {
    /// Initializes an Interface with `SPI` instance and chip select
    /// `OutputPin`
    /// # Arguments
    /// * `spi` - SPI instance
    /// * `cs` - Chip Select pin
    pub fn init(spi: SPI, cs: CS) -> (interface: Self)
        ensures
            interface.bus() == spi,
            interface.select_pin() == cs,
            interface@ == Seq::<SpiOp<SPI::Error, CS::Error>>::empty(),
    {
        SpiInterface { spi, cs, chip: PhantomData, wire: Ghost(Seq::empty()) }
    }

    /// The bus that the interface owns.
    pub closed spec fn bus(&self) -> SPI {
        self.spi
    }

    /// The chip select line that the interface owns.
    pub closed spec fn select_pin(&self) -> CS {
        self.cs
    }

    /// Gives the bus and the chip select line back.
    pub fn release(self) -> (parts: (SPI, CS))
        ensures
            parts.0 == self.bus(),
            parts.1 == self.select_pin(),
    {
        (self.spi, self.cs)
    }

    /// Selects the device.
    fn select(&mut self) -> (r: Result<(), CS::Error>)
        ensures
            final(self)@ == old(self)@.push(SpiOp::Select { result: r }),
    {
        let r = self.cs.set_low();
        proof {
            self.wire@ = self.wire@.push(SpiOp::Select { result: r });
        }
        r
    }

    /// Releases the device.
    fn deselect(&mut self) -> (r: Result<(), CS::Error>)
        ensures
            final(self)@ == old(self)@.push(SpiOp::Release { result: r }),
    {
        let r = self.cs.set_high();
        proof {
            self.wire@ = self.wire@.push(SpiOp::Release { result: r });
        }
        r
    }

    /// Sends bytes to the device.
    fn send(&mut self, bytes: &[u8]) -> (r: Result<(), SPI::Error>)
        ensures
            final(self)@ == old(self)@.push(SpiOp::Send { bytes: bytes@, outcome: r }),
    {
        let r = self.spi.write(bytes);
        proof {
            self.wire@ = self.wire@.push(SpiOp::Send { bytes: bytes@, outcome: r });
        }
        r
    }

    /// Exchanges the buffer with the device.
    fn exchange(&mut self, buffer: &mut [u8]) -> (r: Result<(), SPI::Error>)
        ensures
            final(self)@ == old(self)@.push(SpiOp::Exchange { data: final(buffer)@, outcome: r }),
    {
        let r = self.spi.transfer(buffer);
        proof {
            self.wire@ = self.wire@.push(SpiOp::Exchange { data: buffer@, outcome: r });
        }
        r
    }

    /// Releases the device and says how the transaction ended.
    fn finish(&mut self, comm: Result<(), SPI::Error>) -> (r: Result<
        (),
        Error<SPI::Error, CS::Error>,
    >)
        ensures
            final(self)@ == old(self)@.push(final(self)@.last()),
            final(self)@.last() matches SpiOp::Release { result: released } && r == ended(
                comm,
                released,
            ),
    {
        let released = self.deselect();
        match comm {
            Err(e) => Err(Error::Comm(e)),
            Ok(()) => match released {
                Err(e) => Err(Error::Pin(e)),
                Ok(()) => Ok(()),
            },
        }
    }
}

/// The address byte of a read.
pub fn address_for_read(variant: Variant, addr: u8) -> (first: u8)
    ensures
        first == read_address(variant, addr),
{
    match variant {
        Variant::Lps22hb => SPI_READ | addr,
        Variant::Lps25hb => SPI_READ | MS_BIT | addr,
    }
}

impl<SPI: SpiBus, CS: SelectPin, S: Sensor> Interface for SpiInterface<SPI, CS, S> {
    type Error = Error<SPI::Error, CS::Error>;

    type Chip = S;

    /// One transaction: the register address and the value, between select
    /// and release.
    fn write(&mut self, addr: u8, value: u8) -> (r: Result<(), Self::Error>)
        ensures
            old(self)@.is_prefix_of(final(self)@),
            written(final(self)@.skip(old(self)@.len() as int), r, addr, value),
    {
        match self.select() {
            Err(e) => {
                return Err(Error::Pin(e));
            },
            Ok(()) => {},
        }
        let bytes = [addr, value];
        let sent = self.send(bytes.as_slice());
        self.finish(sent)
    }

    /// One transaction: the address byte of the read, then the buffer,
    /// between select and release.
    fn read(&mut self, addr: u8, buffer: &mut [u8]) -> (r: Result<(), Self::Error>)
        ensures
            old(self)@.is_prefix_of(final(self)@),
            received(
                final(self)@.skip(old(self)@.len() as int),
                r,
                read_address(S::tag(), addr),
                final(buffer)@,
            ),
    {
        match self.select() {
            Err(e) => {
                return Err(Error::Pin(e));
            },
            Ok(()) => {},
        }
        let bytes = [address_for_read(S::variant(), addr)];
        assert(bytes@ =~= seq![read_address(S::tag(), addr)]);
        let sent = self.send(bytes.as_slice());
        if sent.is_err() {
            return self.finish(sent);
        }
        let exchanged = self.exchange(buffer);
        self.finish(exchanged)
    }
}

} // verus!
