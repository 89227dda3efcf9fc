//! What a driver does on its bus, as a sequence of requests, and the
//! register commands that its operations are made of.

use vstd::prelude::*;

verus! {

/// One request that was put to the interface, with what came back.
pub enum BusOp<E> {
    /// `data.len()` bytes were asked for, starting at register `addr`; `data`
    /// is what the buffer held afterwards.
    Read { addr: u8, data: Seq<u8>, result: Result<(), E> },
    /// `value` was sent to register `addr`.
    Write { addr: u8, value: u8, result: Result<(), E> },
}

impl<E> BusOp<E> {
    /// What the interface answered.
    pub open spec fn result(self) -> Result<(), E> {
        match self {
            BusOp::Read { result, .. } => result,
            BusOp::Write { result, .. } => result,
        }
    }

    /// The bytes that a read brought; empty for a write.
    pub open spec fn data(self) -> Seq<u8> {
        match self {
            BusOp::Read { data, .. } => data,
            BusOp::Write { .. } => Seq::empty(),
        }
    }

    /// A read of `len` bytes starting at `addr`.
    pub open spec fn is_read_of(self, addr: u8, len: nat) -> bool {
        self matches BusOp::Read { addr: a, data, .. } && a == addr && data.len() == len
    }

    /// A write of `value` to `addr`.
    pub open spec fn is_write_of(self, addr: u8, value: u8) -> bool {
        self matches BusOp::Write { addr: a, value: v, .. } && a == addr && v == value
    }

    /// What a caller gets of a request that was meant to yield `value`: the
    /// value if the request went through, else the interface's error.
    pub open spec fn answer<V>(self, value: V) -> Result<V, E> {
        match self.result() {
            Ok(()) => Ok(value),
            Err(e) => Err(e),
        }
    }
}

/// A register byte with the bits of `clear` cleared and then those of `set`
/// set.
pub open spec fn merged(current: u8, clear: u8, set: u8) -> u8 {
    (current & !clear) | set
}

/// Whether any bit of `mask` is set in a register byte.
pub open spec fn tested(byte: u8, mask: u8) -> bool {
    byte & mask != 0
}

/// Once the bits of a mask have been set in a register byte, a test of the
/// same mask finds them, unless the mask is empty; the bits outside the mask
/// are as they were.
pub proof fn lemma_set_then_test(byte: u8, mask: u8)
    ensures
        merged(byte, 0, mask) == byte | mask,
        mask != 0 ==> tested(merged(byte, 0, mask), mask),
        merged(byte, 0, mask) & mask == mask,
        merged(byte, 0, mask) & !mask == byte & !mask,
{
    assert((byte & !0u8) | mask == byte | mask) by (bit_vector);
    assert(((byte & !0u8) | mask) & mask == mask) by (bit_vector);
    assert(((byte & !0u8) | mask) & !mask == byte & !mask) by (bit_vector);
}

/// Once the bits of a mask have been cleared in a register byte, a test of
/// the same mask finds none; the bits outside the mask are as they were.
pub proof fn lemma_clear_then_test(byte: u8, mask: u8)
    ensures
        merged(byte, mask, 0) == byte & !mask,
        !tested(merged(byte, mask, 0), mask),
        merged(byte, mask, 0) & !mask == byte & !mask,
{
    assert((byte & !mask) | 0u8 == byte & !mask) by (bit_vector);
    assert(((byte & !mask) | 0u8) & mask == 0) by (bit_vector);
    assert(((byte & !mask) | 0u8) & !mask == byte & !mask) by (bit_vector);
}

/// Once a field has been given a value that lies within it, the field reads
/// as that value and the bits outside the field are as they were.
pub proof fn lemma_field_then_read(byte: u8, field: u8, value: u8)
    requires
        value & !field == 0,
    ensures
        merged(byte, field, value) & field == value,
        merged(byte, field, value) & !field == byte & !field,
{
    assert(((byte & !field) | value) & field == value) by (bit_vector)
        requires
            value & !field == 0,
    ;
    assert(((byte & !field) | value) & !field == byte & !field) by (bit_vector)
        requires
            value & !field == 0,
    ;
}

/// What is asked of one register.
#[derive(Clone, Copy, Debug, PartialEq, Eq, Structural)]
pub enum Command {
    /// Read the register, clear the bits of `clear`, set those of `set`, and
    /// write the byte back.
    Modify { addr: u8, clear: u8, set: u8 },
    /// Write `value`, whatever the register holds.
    Write { addr: u8, value: u8 },
}

impl Command {
    /// The command that sets the bits of `mask` in the register at `addr`
    /// if `on`, and clears them if not.
    pub open spec fn switched(addr: u8, mask: u8, on: bool) -> Command {
        if on {
            Command::Modify { addr, clear: 0, set: mask }
        } else {
            Command::Modify { addr, clear: mask, set: 0 }
        }
    }

    /// Makes the command that sets the bits of `mask` if `on`, and clears
    /// them if not.
    pub fn switch(addr: u8, mask: u8, on: bool) -> (c: Command)
        ensures
            c == Command::switched(addr, mask, on),
    {
        if on {
            Command::Modify { addr, clear: 0, set: mask }
        } else {
            Command::Modify { addr, clear: mask, set: 0 }
        }
    }

    /// How many requests the command takes, given the requests that begin
    /// with its own: a `Modify` stops after a read that failed.
    pub open spec fn span<E>(self, ops: Seq<BusOp<E>>) -> nat {
        match self {
            Command::Write { .. } => 1,
            Command::Modify { .. } => if ops.len() > 0 && ops[0].result() is Ok {
                2
            } else {
                1
            },
        }
    }

    /// `ops` are the requests of this command and no others.
    pub open spec fn done_by<E>(self, ops: Seq<BusOp<E>>) -> bool {
        match self {
            Command::Write { addr, value } => ops.len() == 1 && ops[0].is_write_of(addr, value),
            Command::Modify { addr, clear, set } => {
                &&& ops.len() >= 1
                &&& ops[0].is_read_of(addr, 1)
                &&& match ops[0].result() {
                    Err(_) => ops.len() == 1,
                    Ok(()) => ops.len() == 2 && ops[1].is_write_of(
                        addr,
                        merged(ops[0].data()[0], clear, set),
                    ),
                }
            },
        }
    }
}

/// `ops` are the requests that carrying out `commands` in order makes, up to
/// and including the first that failed, and `r` is how that ended: the error
/// of the failed request, or `Ok` when all went through.
pub open spec fn follows<E>(commands: Seq<Command>, ops: Seq<BusOp<E>>, r: Result<(), E>) -> bool
    decreases commands.len(),
{
    if commands.len() == 0 {
        ops.len() == 0 && r is Ok
    } else {
        let n = commands[0].span(ops) as int;
        &&& n <= ops.len()
        &&& commands[0].done_by(ops.take(n))
        &&& match ops[n - 1].result() {
            Err(e) => ops.len() == n && r == Err::<(), E>(e),
            Ok(()) => follows(commands.drop_first(), ops.skip(n), r),
        }
    }
}

/// Between the histories `before` and `after`, `commands` were carried out
/// and nothing else, and that ended with `r`.
pub open spec fn performed<E>(
    before: Seq<BusOp<E>>,
    after: Seq<BusOp<E>>,
    commands: Seq<Command>,
    r: Result<(), E>,
) -> bool {
    &&& before.is_prefix_of(after)
    &&& follows(commands, after.skip(before.len() as int), r)
}

/// Between the histories `before` and `after` there was one request and
/// nothing else: a read of `len` bytes starting at `addr`.
pub open spec fn fetched<E>(
    before: Seq<BusOp<E>>,
    after: Seq<BusOp<E>>,
    addr: u8,
    len: nat,
) -> bool {
    &&& after.len() == before.len() + 1
    &&& after.drop_last() == before
    &&& after.last().is_read_of(addr, len)
}

/// The register kept what `write` sent to it and gave it back to `read`.
pub open spec fn echoed<E>(write: BusOp<E>, read: BusOp<E>) -> bool {
    &&& write matches BusOp::Write { addr, value, result }
    &&& result is Ok
    &&& read.is_read_of(addr, 1)
    &&& read.result() is Ok
    &&& read.data()[0] == value
}

/// Where a `Modify` went through and the register gives back what was
/// written to it, a read finds the byte that was read at first, with the
/// bits of `clear` cleared and those of `set` set.
pub proof fn lemma_modify_then_read<E>(
    start: Seq<BusOp<E>>,
    middle: Seq<BusOp<E>>,
    end: Seq<BusOp<E>>,
    addr: u8,
    clear: u8,
    set: u8,
)
    requires
        performed(start, middle, seq![Command::Modify { addr, clear, set }], Ok::<(), E>(())),
        fetched(middle, end, addr, 1),
        echoed(middle.last(), end.last()),
    ensures
        middle.len() == start.len() + 2,
        middle[start.len() as int].is_read_of(addr, 1),
        end.last().data()[0] == merged(middle[start.len() as int].data()[0], clear, set),
{
    reveal_with_fuel(follows, 2);
}

/// A result that carries no value and is `Ok` is `Ok(())`.
pub proof fn lemma_ok_is_unit<E>(r: Result<(), E>)
    ensures
        r is Ok ==> r == Ok::<(), E>(()),
{
    match r {
        Ok(unit) => {},
        Err(_) => {},
    }
}

/// A command alone: its requests follow it, with the result of the last.
pub proof fn lemma_follows_one<E>(command: Command, ops: Seq<BusOp<E>>)
    requires
        command.done_by(ops),
    ensures
        follows(seq![command], ops, ops.last().result()),
{
    let n = command.span(ops) as int;
    lemma_ok_is_unit(ops.last().result());
    assert(follows(seq![command].drop_first(), ops.skip(n), Ok::<(), E>(())));
}

/// Commands that failed are not followed by any other.
pub proof fn lemma_follows_failed<E>(
    commands: Seq<Command>,
    rest: Seq<Command>,
    ops: Seq<BusOp<E>>,
    r: Result<(), E>,
)
    requires
        follows(commands, ops, r),
        r is Err,
    ensures
        follows(commands + rest, ops, r),
    decreases commands.len(),
{
    if commands.len() > 0 {
        let n = commands[0].span(ops) as int;
        if ops[n - 1].result() is Ok {
            lemma_follows_failed(commands.drop_first(), rest, ops.skip(n), r);
            assert((commands + rest).drop_first() == commands.drop_first() + rest);
        }
    }
}

/// Commands that went through, and then others: the requests of both, one
/// after the other, follow the whole.
pub proof fn lemma_follows_both<E>(
    first: Seq<Command>,
    ops1: Seq<BusOp<E>>,
    second: Seq<Command>,
    ops2: Seq<BusOp<E>>,
    r: Result<(), E>,
)
    requires
        follows(first, ops1, Ok::<(), E>(())),
        follows(second, ops2, r),
    ensures
        follows(first + second, ops1 + ops2, r),
    decreases first.len(),
{
    if first.len() == 0 {
    } else {
        let n = first[0].span(ops1) as int;
        assert((ops1 + ops2).skip(n) == ops1.skip(n) + ops2);
        assert((first + second).drop_first() == first.drop_first() + second);
        lemma_follows_both(first.drop_first(), ops1.skip(n), second, ops2, r);
    }
}

} // verus!
