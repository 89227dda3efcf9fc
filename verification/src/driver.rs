//! The driver and the primitives that every operation is made of.

use vstd::prelude::*;
use crate::bus::{
    echoed, fetched, lemma_clear_then_test, lemma_follows_both, lemma_follows_failed,
    lemma_follows_one, lemma_modify_then_read, lemma_ok_is_unit, lemma_set_then_test, performed,
    tested, BusOp, Command,
};
use crate::interface::Interface;
use crate::register::Registers;
use crate::variant::{Sensor, Variant};

verus! {

/// Holds the driver instance with the selected interface.
///
/// The driver keeps a record of what it asks of the interface: one entry for
/// each call, made where the call is made, in `put` and in `get`, and nowhere
/// else. The record exists for the contracts only. They say of every
/// operation which requests it makes, in which order, where it stops, and
/// what it makes of the answers.
pub struct LPS2X<T: Interface> {
    interface: T,
    history: Ghost<Seq<BusOp<T::Error>>>,
}

impl<T: Interface> View for LPS2X<T> {
    type V = Seq<BusOp<T::Error>>;

    /// Every request that the driver has put to its interface, oldest first.
    closed spec fn view(&self) -> Seq<BusOp<T::Error>> {
        self.history@
    }
}

impl<T: Interface> LPS2X<T> {
    /// The chip that the interface is for.
    pub open spec fn chip() -> Variant {
        <T::Chip as Sensor>::tag()
    }

    /// The interface that the driver owns.
    pub closed spec fn interface(&self) -> T {
        self.interface
    }

    /// Create a new instance of the driver.
    pub fn new(interface: T) -> (driver: Self)
        ensures
            driver.interface() == interface,
            driver@ == Seq::<BusOp<T::Error>>::empty(),
    {
        LPS2X { interface, history: Ghost(Seq::empty()) }
    }

    /// Destroy driver instance, return interface instance.
    pub fn destroy(self) -> (interface: T)
        ensures
            interface == self.interface(),
    {
        self.interface
    }

    /// Writes one byte and records the request.
    pub(crate) fn put(&mut self, addr: u8, value: u8) -> (r: Result<(), T::Error>)
        ensures
            final(self)@ == old(self)@.push(BusOp::Write { addr, value, result: r }),
    {
        let r = self.interface.write(addr, value);
        proof {
            self.history@ = self.history@.push(BusOp::Write { addr, value, result: r });
        }
        r
    }

    /// Reads `N` bytes and records the request.
    pub(crate) fn get<const N: usize>(&mut self, addr: u8, buffer: &mut [u8; N]) -> (r: Result<
        (),
        T::Error,
    >)
        ensures
            final(self)@ == old(self)@.push(BusOp::Read { addr, data: final(buffer)@, result: r }),
            fetched(old(self)@, final(self)@, addr, N as nat),
    {
        let r = self.interface.read(addr, buffer);
        proof {
            self.history@ = self.history@.push(BusOp::Read { addr, data: buffer@, result: r });
            assert(self@.drop_last() =~= old(self)@);
        }
        r
    }

    /// Carries out one command.
    pub(crate) fn carry_out(&mut self, command: Command) -> (r: Result<(), T::Error>)
        ensures
            performed(old(self)@, final(self)@, seq![command], r),
    {
        let ghost before = self@;
        match command {
            Command::Write { addr, value } => {
                let r = self.put(addr, value);
                proof {
                    let ops = self@.skip(before.len() as int);
                    lemma_follows_one(command, ops);
                }
                r
            },
            Command::Modify { addr, clear, set } => {
                let mut byte = [0u8];
                let first = self.get(addr, &mut byte);
                match first {
                    Err(e) => {
                        proof {
                            let ops = self@.skip(before.len() as int);
                            assert(ops == seq![
                                BusOp::Read { addr, data: byte@, result: Err::<(), T::Error>(e) },
                            ]);
                            lemma_follows_one(command, ops);
                        }
                        Err(e)
                    },
                    Ok(()) => {
                        let value = (byte[0] & !clear) | set;
                        let r = self.put(addr, value);
                        proof {
                            let ops = self@.skip(before.len() as int);
                            assert(ops =~= seq![
                                BusOp::Read { addr, data: byte@, result: first },
                                BusOp::Write { addr, value, result: r },
                            ]);
                            lemma_follows_one(command, ops);
                        }
                        r
                    },
                }
            },
        }
    }

    /// Read a byte from the given register.
    pub fn read_register(&mut self, address: Registers) -> (r: Result<u8, T::Error>)
        ensures
            fetched(old(self)@, final(self)@, address.address(Self::chip()), 1),
            r == final(self)@.last().answer(final(self)@.last().data()[0]),
    {
        let mut byte = [0u8];
        let addr = address.addr(T::Chip::variant());
        match self.get(addr, &mut byte) {
            Ok(()) => Ok(byte[0]),
            Err(e) => Err(e),
        }
    }

    /// Clear selected bits using a bitmask.
    pub fn clear_register_bit_flag(&mut self, address: Registers, bitmask: u8) -> (r: Result<
        (),
        T::Error,
    >)
        ensures
            performed(
                old(self)@,
                final(self)@,
                seq![
                    Command::Modify { addr: address.address(Self::chip()), clear: bitmask, set: 0 },
                ],
                r,
            ),
    {
        let addr = address.addr(T::Chip::variant());
        self.carry_out(Command::Modify { addr, clear: bitmask, set: 0 })
    }

    /// Set selected bits using a bitmask.
    pub fn set_register_bit_flag(&mut self, address: Registers, bitmask: u8) -> (r: Result<
        (),
        T::Error,
    >)
        ensures
            performed(
                old(self)@,
                final(self)@,
                seq![
                    Command::Modify { addr: address.address(Self::chip()), clear: 0, set: bitmask },
                ],
                r,
            ),
    {
        let addr = address.addr(T::Chip::variant());
        self.carry_out(Command::Modify { addr, clear: 0, set: bitmask })
    }

    /// Check if specific bits are set.
    pub fn is_register_bit_flag_high(&mut self, address: Registers, bitmask: u8) -> (r: Result<
        bool,
        T::Error,
    >)
        ensures
            fetched(old(self)@, final(self)@, address.address(Self::chip()), 1),
            r == final(self)@.last().answer(tested(final(self)@.last().data()[0], bitmask)),
    {
        match self.read_register(address) {
            Ok(data) => Ok((data & bitmask) != 0),
            Err(e) => Err(e),
        }
    }

    /// Carries out `commands` in order and stops at the first request that
    /// fails.
    pub fn run(&mut self, commands: &[Command]) -> (r: Result<(), T::Error>)
        ensures
            performed(old(self)@, final(self)@, commands@, r),
    {
        let ghost before = self@;
        let mut i: usize = 0;
        while i < commands.len()
            invariant
                i <= commands.len(),
                before == old(self)@,
                performed(before, self@, commands@.take(i as int), Ok::<(), T::Error>(())),
            decreases commands.len() - i,
        {
            let ghost sofar = self@;
            let r = self.carry_out(commands[i]);
            proof {
                let ops1 = sofar.skip(before.len() as int);
                let ops2 = self@.skip(sofar.len() as int);
                assert(self@.skip(before.len() as int) =~= ops1 + ops2);
                let next = seq![commands@[i as int]];
                lemma_follows_both(commands@.take(i as int), ops1, next, ops2, r);
                assert(commands@.take(i as int) + next =~= commands@.take(i + 1));
            }
            if r.is_err() {
                proof {
                    lemma_follows_failed(
                        commands@.take(i + 1),
                        commands@.skip(i + 1),
                        self@.skip(before.len() as int),
                        r,
                    );
                    assert(commands@.take(i + 1) + commands@.skip(i + 1) =~= commands@);
                }
                return r;
            }
            proof {
                lemma_ok_is_unit(r);
            }
            i += 1;
        }
        proof {
            assert(commands@.take(i as int) == commands@);
        }
        Ok(())
    }
}

/// Set, then test. Where `set_register_bit_flag` went through and the
/// register gives back what was written to it, `is_register_bit_flag_high`
/// with the same mask answers true, unless the mask is empty; and the bits
/// outside the mask are those that the register held before.
pub proof fn lemma_set_bits_then_test_bits<E>(
    start: Seq<BusOp<E>>,
    middle: Seq<BusOp<E>>,
    end: Seq<BusOp<E>>,
    addr: u8,
    mask: u8,
)
    requires
        performed(
            start,
            middle,
            seq![Command::Modify { addr, clear: 0, set: mask }],
            Ok::<(), E>(()),
        ),
        fetched(middle, end, addr, 1),
        echoed(middle.last(), end.last()),
    ensures
        mask != 0 ==> end.last().answer(tested(end.last().data()[0], mask)) == Ok::<bool, E>(true),
        end.last().data()[0] & !mask == middle[start.len() as int].data()[0] & !mask,
{
    lemma_modify_then_read(start, middle, end, addr, 0, mask);
    lemma_set_then_test(middle[start.len() as int].data()[0], mask);
}

/// Clear, then test. Where `clear_register_bit_flag` went through and the
/// register gives back what was written to it, `is_register_bit_flag_high`
/// with the same mask answers false; and the bits outside the mask are those
/// that the register held before.
pub proof fn lemma_clear_bits_then_test_bits<E>(
    start: Seq<BusOp<E>>,
    middle: Seq<BusOp<E>>,
    end: Seq<BusOp<E>>,
    addr: u8,
    mask: u8,
)
    requires
        performed(
            start,
            middle,
            seq![Command::Modify { addr, clear: mask, set: 0 }],
            Ok::<(), E>(()),
        ),
        fetched(middle, end, addr, 1),
        echoed(middle.last(), end.last()),
    ensures
        end.last().answer(tested(end.last().data()[0], mask)) == Ok::<bool, E>(false),
        end.last().data()[0] & !mask == middle[start.len() as int].data()[0] & !mask,
{
    lemma_modify_then_read(start, middle, end, addr, mask, 0);
    lemma_clear_then_test(middle[start.len() as int].data()[0], mask);
}

} // verus!
