//! I2C interface

use core::marker::PhantomData;
use vstd::prelude::*;
use super::Interface;
use crate::lps25hb::MULTIBYTE;
use crate::variant::{Sensor, Variant};

verus! {

/// Errors in this crate
#[derive(Debug)]
pub enum Error<CommE> {
    /// Communication error
    Comm(CommE),
}

/// Pressure sensor address for I2C communication
#[allow(non_camel_case_types)]
#[derive(Clone, Copy, Debug, PartialEq, Eq, Structural)]
pub enum I2cAddress {
    /// SA0 pad tied to VCC
    SA0_VCC,
    /// SA0 pad tied to ground
    SA0_GND,
}

impl I2cAddress {
    /// The seven-bit address that the strap selects.
    pub open spec fn bits(self) -> u8 {
        match self {
            I2cAddress::SA0_VCC => 0b1011101,
            I2cAddress::SA0_GND => 0b1011100,
        }
    }

    pub fn addr(self) -> (a: u8)
        ensures
            a == self.bits(),
    {
        match self {
            I2cAddress::SA0_VCC => 0b1011101,
            I2cAddress::SA0_GND => 0b1011100,
        }
    }
}

/// The I2C bus that an `I2cInterface` drives: blocking transfers to a device
/// with a seven-bit address.
pub trait I2cBus {
    /// What the bus reports when a transfer fails.
    type Error;

    /// Writes `bytes` to the device at `address`.
    fn write(&mut self, address: u8, bytes: &[u8]) -> Result<(), Self::Error>;

    /// Writes `bytes` to the device at `address` and then reads enough bytes
    /// to fill `buffer`, in a single transaction.
    fn write_read(&mut self, address: u8, bytes: &[u8], buffer: &mut [u8]) -> Result<
        (),
        Self::Error,
    >;
}

/// One transfer that was asked of the bus, with what came back.
pub enum I2cOp<E> {
    /// `bytes` were sent to the device at `address`.
    Write { address: u8, bytes: Seq<u8>, result: Result<(), E> },
    /// `bytes` were sent to the device at `address` and `data.len()` bytes
    /// asked of it; `data` is what the buffer held afterwards.
    WriteRead { address: u8, bytes: Seq<u8>, data: Seq<u8>, result: Result<(), E> },
}

/// What the interface makes of the bus's answer: an error of the bus is a
/// communication error.
pub open spec fn reported<E>(result: Result<(), E>) -> Result<(), Error<E>> {
    match result {
        Ok(()) => Ok(()),
        Err(e) => Err(Error::Comm(e)),
    }
}

/// The address byte that a read of the register at `addr` sends. The LPS25HB
/// advances from register to register only if the top bit is set.
pub open spec fn read_address(variant: Variant, addr: u8) -> u8 {
    match variant {
        Variant::Lps22hb => addr,
        Variant::Lps25hb => addr | MULTIBYTE,
    }
}

/// The address byte of a read.
pub fn address_for_read(variant: Variant, addr: u8) -> (first: u8)
    ensures
        first == read_address(variant, addr),
{
    match variant {
        Variant::Lps22hb => addr,
        Variant::Lps25hb => addr | MULTIBYTE,
    }
}

/// This holds `I2C` and device address, and for the contracts a record of
/// the transfers that were asked of the bus.
pub struct I2cInterface<I2C: I2cBus, S> {
    i2c: I2C,
    dev_addr: u8,
    chip: PhantomData<S>,
    wire: Ghost<Seq<I2cOp<I2C::Error>>>,
}

impl<I2C: I2cBus, S> View for I2cInterface<I2C, S> {
    type V = Seq<I2cOp<I2C::Error>>;

    /// Every transfer that the interface has asked of its bus, oldest first.
    closed spec fn view(&self) -> Seq<I2cOp<I2C::Error>> {
        self.wire@
    }
}

impl<I2C: I2cBus, S> I2cInterface<I2C, S> {
    /// The bus that the interface owns.
    pub closed spec fn bus(&self) -> I2C {
        self.i2c
    }

    /// The address of the device on the bus.
    pub closed spec fn device(&self) -> u8 {
        self.dev_addr
    }

    /// Initializes an Interface with `I2C` instance and device address
    /// # Arguments
    /// * `i2c` - I2C instance
    /// * `dev_addr` - `I2cAddress`: address of the pressure sensor on the bus
    pub fn init(i2c: I2C, dev_addr: I2cAddress) -> (interface: Self)
        ensures
            interface.bus() == i2c,
            interface.device() == dev_addr.bits(),
            interface@ == Seq::<I2cOp<I2C::Error>>::empty(),
    {
        I2cInterface {
            i2c,
            dev_addr: dev_addr.addr(),
            chip: PhantomData,
            wire: Ghost(Seq::empty()),
        }
    }
}

impl<I2C: I2cBus, S> I2cInterface<I2C, S> {
    /// Gives the bus back.
    pub fn release(self) -> (i2c: I2C)
        ensures
            i2c == self.bus(),
    {
        self.i2c
    }
}

impl<I2C: I2cBus, S: Sensor> Interface for I2cInterface<I2C, S> {
    type Error = Error<I2C::Error>;

    type Chip = S;

    /// One transfer: the register address, then the value.
    fn write(&mut self, addr: u8, value: u8) -> (r: Result<(), Self::Error>)
        ensures
            final(self).device() == old(self).device(),
            final(self)@.len() == old(self)@.len() + 1,
            final(self)@.drop_last() == old(self)@,
            final(self)@.last() matches I2cOp::Write { address, bytes, result }
                && address == old(self).device() && bytes == seq![addr, value] && r == reported(
                result,
            ),
    {
        let frame = [addr, value];
        let result = self.i2c.write(self.dev_addr, frame.as_slice());
        proof {
            self.wire@ = self.wire@.push(
                I2cOp::Write { address: self.dev_addr, bytes: frame@, result },
            );
        }
        match result {
            Ok(()) => Ok(()),
            Err(e) => Err(Error::Comm(e)),
        }
    }

    /// One transfer: the address byte of the read is sent, then the buffer
    /// is filled.
    fn read(&mut self, addr: u8, buffer: &mut [u8]) -> (r: Result<(), Self::Error>)
        ensures
            final(self).device() == old(self).device(),
            final(self)@.len() == old(self)@.len() + 1,
            final(self)@.drop_last() == old(self)@,
            final(self)@.last() matches I2cOp::WriteRead { address, bytes, data, result }
                && address == old(self).device() && bytes == seq![read_address(S::tag(), addr)]
                && data == final(buffer)@ && r == reported(result),
    {
        let frame = [address_for_read(S::variant(), addr)];
        let result = self.i2c.write_read(self.dev_addr, frame.as_slice(), buffer);
        proof {
            self.wire@ = self.wire@.push(
                I2cOp::WriteRead { address: self.dev_addr, bytes: frame@, data: buffer@, result },
            );
        }
        match result {
            Ok(()) => Ok(()),
            Err(e) => Err(Error::Comm(e)),
        }
    }
}

} // verus!
