//! The register transport: how a register read and a register write appear on
//! the bus, and the fixed-width integer accessors built on them.
//!
//! A [`Transaction`] lists the bus steps of one operation in the order the
//! peripheral must see them. A runner performs the steps one by one and stops at
//! the first bus error; the bytes of every read, in order, form the reply that
//! the decoders here turn into values.
use vstd::prelude::*;
use crate::bytes::{
    be_bytes, be_value, byte_range, decode_be, encode_be, lemma_be_bytes_len, lemma_be_round_trip,
    lemma_be_value_bound,
};
use crate::common::Reg;

verus! {

/// The pause, in microseconds, that the peripheral needs after being addressed
/// before data is ready, and after a write before it takes the next one.
pub const DELAY_TIME_MICROS: u32 = 125;

/// One step of a bus transaction.
#[derive(Clone, Debug, PartialEq, Eq)]
pub enum BusStep {
    /// Write `bytes` to the peripheral at the 7-bit address `addr`.
    Write { addr: u8, bytes: Vec<u8> },
    /// Read `len` bytes from the peripheral at the 7-bit address `addr`.
    Read { addr: u8, len: usize },
    /// Pause for `micros` microseconds.
    Delay { micros: u32 },
}

/// The mathematical form of a [`BusStep`].
pub enum BusOp {
    Write { addr: u8, bytes: Seq<u8> },
    Read { addr: u8, len: nat },
    Delay { micros: u32 },
}

impl View for BusStep {
    type V = BusOp;

    open spec fn view(&self) -> BusOp {
        match self {
            BusStep::Write { addr, bytes } => BusOp::Write { addr: *addr, bytes: bytes@ },
            BusStep::Read { addr, len } => BusOp::Read { addr: *addr, len: *len as nat },
            BusStep::Delay { micros } => BusOp::Delay { micros: *micros },
        }
    }
}

/// The bus steps of one operation, in the order in which they must happen.
#[derive(Clone, Debug, PartialEq, Eq)]
pub struct Transaction {
    pub steps: Vec<BusStep>,
}

impl View for Transaction {
    type V = Seq<BusOp>;

    open spec fn view(&self) -> Seq<BusOp> {
        self.steps@.map_values(|s: BusStep| s@)
    }
}

/// The steps of a register read: address the register, wait, read `len` bytes.
pub open spec fn read_ops(addr: u8, reg: Seq<u8>, len: nat) -> Seq<BusOp> {
    seq![
        BusOp::Write { addr, bytes: reg },
        BusOp::Delay { micros: DELAY_TIME_MICROS },
        BusOp::Read { addr, len },
    ]
}

/// The steps of a register write: one bus write of the register address
/// followed by the payload, then the wait.
pub open spec fn write_ops(addr: u8, reg: Seq<u8>, payload: Seq<u8>) -> Seq<BusOp> {
    seq![BusOp::Write { addr, bytes: reg + payload }, BusOp::Delay { micros: DELAY_TIME_MICROS }]
}

impl Transaction {
    /// A transaction with no steps.
    pub fn new() -> (r: Transaction)
        ensures
            r@ == Seq::<BusOp>::empty(),
    {
        Transaction { steps: Vec::new() }
    }

    /// Adds a bus write of `bytes` to `addr`.
    pub fn write(&mut self, addr: u8, bytes: Vec<u8>)
        ensures
            final(self)@ == old(self)@.push(BusOp::Write { addr, bytes: bytes@ }),
    {
        self.steps.push(BusStep::Write { addr, bytes });
        assert(self@ =~= old(self)@.push(BusOp::Write { addr, bytes: bytes@ }));
    }

    /// Adds a bus read of `len` bytes from `addr`.
    pub fn read(&mut self, addr: u8, len: usize)
        ensures
            final(self)@ == old(self)@.push(BusOp::Read { addr, len: len as nat }),
    {
        self.steps.push(BusStep::Read { addr, len });
        assert(self@ =~= old(self)@.push(BusOp::Read { addr, len: len as nat }));
    }

    /// Adds a pause of `micros` microseconds.
    pub fn delay(&mut self, micros: u32)
        ensures
            final(self)@ == old(self)@.push(BusOp::Delay { micros }),
    {
        self.steps.push(BusStep::Delay { micros });
        assert(self@ =~= old(self)@.push(BusOp::Delay { micros }));
    }

    /// Adds the steps of `other` after those already here.
    pub fn append(&mut self, other: Transaction)
        ensures
            final(self)@ == old(self)@ + other@,
    {
        let ghost added = other@;
        let mut other = other;
        self.steps.append(&mut other.steps);
        assert(self@ =~= old(self)@ + added);
    }
}

/// Reads `len` bytes from the register `reg` of the peripheral at `addr`.
pub fn register_read(addr: u8, reg: &Reg, len: usize) -> (r: Transaction)
    ensures
        r@ == read_ops(addr, reg@, len as nat),
{
    let mut t = Transaction::new();
    let mut address: Vec<u8> = Vec::new();
    address.push(reg[0]);
    address.push(reg[1]);
    assert(address@ =~= reg@);
    t.write(addr, address);
    t.delay(DELAY_TIME_MICROS);
    t.read(addr, len);
    assert(t@ =~= read_ops(addr, reg@, len as nat));
    t
}

/// Writes `bytes` to the register `reg` of the peripheral at `addr`, as a
/// single bus write that carries the register address and the payload.
pub fn register_write(addr: u8, reg: &Reg, bytes: &[u8]) -> (r: Transaction)
    ensures
        r@ == write_ops(addr, reg@, bytes@),
{
    let mut frame: Vec<u8> = Vec::new();
    frame.push(reg[0]);
    frame.push(reg[1]);
    let mut i: usize = 0;
    while i < bytes.len()
        invariant
            i <= bytes@.len(),
            frame@ == reg@ + bytes@.take(i as int),
        decreases bytes@.len() - i,
    {
        frame.push(bytes[i]);
        i = i + 1;
        assert(frame@ =~= reg@ + bytes@.take(i as int));
    }
    assert(bytes@.take(i as int) =~= bytes@);
    let mut t = Transaction::new();
    t.write(addr, frame);
    t.delay(DELAY_TIME_MICROS);
    assert(t@ =~= write_ops(addr, reg@, bytes@));
    t
}

/// Reads a big-endian `u8` from the register `reg`.
pub fn read_u8(addr: u8, reg: &Reg) -> (r: Transaction)
    ensures
        r@ == read_ops(addr, reg@, 1),
{
    register_read(addr, reg, 1)
}

/// Reads a big-endian `u16` from the register `reg`.
pub fn read_u16(addr: u8, reg: &Reg) -> (r: Transaction)
    ensures
        r@ == read_ops(addr, reg@, 2),
{
    register_read(addr, reg, 2)
}

/// Reads a big-endian `u32` from the register `reg`.
pub fn read_u32(addr: u8, reg: &Reg) -> (r: Transaction)
    ensures
        r@ == read_ops(addr, reg@, 4),
{
    register_read(addr, reg, 4)
}

/// Reads a big-endian `u64` from the register `reg`.
pub fn read_u64(addr: u8, reg: &Reg) -> (r: Transaction)
    ensures
        r@ == read_ops(addr, reg@, 8),
{
    register_read(addr, reg, 8)
}

/// Reads a big-endian `i8` from the register `reg`.
pub fn read_i8(addr: u8, reg: &Reg) -> (r: Transaction)
    ensures
        r@ == read_ops(addr, reg@, 1),
{
    register_read(addr, reg, 1)
}

/// Reads a big-endian `i16` from the register `reg`.
pub fn read_i16(addr: u8, reg: &Reg) -> (r: Transaction)
    ensures
        r@ == read_ops(addr, reg@, 2),
{
    register_read(addr, reg, 2)
}

/// Reads a big-endian `i32` from the register `reg`.
pub fn read_i32(addr: u8, reg: &Reg) -> (r: Transaction)
    ensures
        r@ == read_ops(addr, reg@, 4),
{
    register_read(addr, reg, 4)
}

/// Reads a big-endian `i64` from the register `reg`.
pub fn read_i64(addr: u8, reg: &Reg) -> (r: Transaction)
    ensures
        r@ == read_ops(addr, reg@, 8),
{
    register_read(addr, reg, 8)
}

/// Writes `value` to the register `reg` as 1 big-endian byte.
pub fn write_u8(addr: u8, reg: &Reg, value: u8) -> (r: Transaction)
    ensures
        r@ == write_ops(addr, reg@, be_bytes(value as nat, 1)),
{
    let payload = encode_be(value as u64, 1);
    register_write(addr, reg, payload.as_slice())
}

/// Writes `value` to the register `reg` as 2 big-endian bytes.
pub fn write_u16(addr: u8, reg: &Reg, value: u16) -> (r: Transaction)
    ensures
        r@ == write_ops(addr, reg@, be_bytes(value as nat, 2)),
{
    let payload = encode_be(value as u64, 2);
    register_write(addr, reg, payload.as_slice())
}

/// Writes `value` to the register `reg` as 4 big-endian bytes.
pub fn write_u32(addr: u8, reg: &Reg, value: u32) -> (r: Transaction)
    ensures
        r@ == write_ops(addr, reg@, be_bytes(value as nat, 4)),
{
    let payload = encode_be(value as u64, 4);
    register_write(addr, reg, payload.as_slice())
}

/// Writes `value` to the register `reg` as 8 big-endian bytes.
pub fn write_u64(addr: u8, reg: &Reg, value: u64) -> (r: Transaction)
    ensures
        r@ == write_ops(addr, reg@, be_bytes(value as nat, 8)),
{
    let payload = encode_be(value as u64, 8);
    register_write(addr, reg, payload.as_slice())
}

/// Writes `value` to the register `reg` as 1 big-endian byte.
pub fn write_i8(addr: u8, reg: &Reg, value: i8) -> (r: Transaction)
    ensures
        r@ == write_ops(addr, reg@, be_bytes((value as u8) as nat, 1)),
{
    let bits: u8 = #[verifier::truncate] (value as u8);
    let payload = encode_be(bits as u64, 1);
    register_write(addr, reg, payload.as_slice())
}

/// Writes `value` to the register `reg` as 2 big-endian bytes.
pub fn write_i16(addr: u8, reg: &Reg, value: i16) -> (r: Transaction)
    ensures
        r@ == write_ops(addr, reg@, be_bytes((value as u16) as nat, 2)),
{
    let bits: u16 = #[verifier::truncate] (value as u16);
    let payload = encode_be(bits as u64, 2);
    register_write(addr, reg, payload.as_slice())
}

/// Writes `value` to the register `reg` as 4 big-endian bytes.
pub fn write_i32(addr: u8, reg: &Reg, value: i32) -> (r: Transaction)
    ensures
        r@ == write_ops(addr, reg@, be_bytes((value as u32) as nat, 4)),
{
    let bits: u32 = #[verifier::truncate] (value as u32);
    let payload = encode_be(bits as u64, 4);
    register_write(addr, reg, payload.as_slice())
}

/// Writes `value` to the register `reg` as 8 big-endian bytes.
pub fn write_i64(addr: u8, reg: &Reg, value: i64) -> (r: Transaction)
    ensures
        r@ == write_ops(addr, reg@, be_bytes((value as u64) as nat, 8)),
{
    let bits: u64 = #[verifier::truncate] (value as u64);
    let payload = encode_be(bits as u64, 8);
    register_write(addr, reg, payload.as_slice())
}

/// The `u8` that the 1-byte reply of `read_u8` holds.
pub fn decode_u8(reply: &[u8]) -> (r: u8)
    requires
        reply@.len() == 1,
    ensures
        r == be_value(reply@),
{
    proof {
        lemma_be_value_bound(reply@);
        reveal_with_fuel(byte_range, 2);
    }
    decode_be(reply) as u8
}

/// The `u16` that the 2-byte reply of `read_u16` holds.
pub fn decode_u16(reply: &[u8]) -> (r: u16)
    requires
        reply@.len() == 2,
    ensures
        r == be_value(reply@),
{
    proof {
        lemma_be_value_bound(reply@);
        reveal_with_fuel(byte_range, 3);
    }
    decode_be(reply) as u16
}

/// The `u32` that the 4-byte reply of `read_u32` holds.
pub fn decode_u32(reply: &[u8]) -> (r: u32)
    requires
        reply@.len() == 4,
    ensures
        r == be_value(reply@),
{
    proof {
        lemma_be_value_bound(reply@);
        reveal_with_fuel(byte_range, 5);
    }
    decode_be(reply) as u32
}

/// The `u64` that the 8-byte reply of `read_u64` holds.
pub fn decode_u64(reply: &[u8]) -> (r: u64)
    requires
        reply@.len() == 8,
    ensures
        r == be_value(reply@),
{
    proof {
        lemma_be_value_bound(reply@);
        reveal_with_fuel(byte_range, 9);
    }
    decode_be(reply) as u64
}

/// The `i8` that the 1-byte reply of `read_i8` holds.
pub fn decode_i8(reply: &[u8]) -> (r: i8)
    requires
        reply@.len() == 1,
    ensures
        r == be_value(reply@) as i8,
{
    proof {
        lemma_be_value_bound(reply@);
        reveal_with_fuel(byte_range, 2);
    }
    let bits: u8 = decode_be(reply) as u8;
    #[verifier::truncate]
    (bits as i8)
}

/// The `i16` that the 2-byte reply of `read_i16` holds.
pub fn decode_i16(reply: &[u8]) -> (r: i16)
    requires
        reply@.len() == 2,
    ensures
        r == be_value(reply@) as i16,
{
    proof {
        lemma_be_value_bound(reply@);
        reveal_with_fuel(byte_range, 3);
    }
    let bits: u16 = decode_be(reply) as u16;
    #[verifier::truncate]
    (bits as i16)
}

/// The `i32` that the 4-byte reply of `read_i32` holds.
pub fn decode_i32(reply: &[u8]) -> (r: i32)
    requires
        reply@.len() == 4,
    ensures
        r == be_value(reply@) as i32,
{
    proof {
        lemma_be_value_bound(reply@);
        reveal_with_fuel(byte_range, 5);
    }
    let bits: u32 = decode_be(reply) as u32;
    #[verifier::truncate]
    (bits as i32)
}

/// The `i64` that the 8-byte reply of `read_i64` holds.
pub fn decode_i64(reply: &[u8]) -> (r: i64)
    requires
        reply@.len() == 8,
    ensures
        r == be_value(reply@) as i64,
{
    proof {
        lemma_be_value_bound(reply@);
        reveal_with_fuel(byte_range, 9);
    }
    let bits: u64 = decode_be(reply) as u64;
    #[verifier::truncate]
    (bits as i64)
}

/// What a bus that keeps the payload of a register write hands back to a later
/// register read: where `write` writes a register and `read` reads the same
/// register at the same address, the leading bytes of the payload that `write`
/// carried, as many as `read` asks for.
pub open spec fn echo_reply(write: Seq<BusOp>, read: Seq<BusOp>) -> Seq<u8> {
    if write.len() >= 1 && read.len() >= 3 {
        match (write[0], read[0], read[2]) {
            (
                BusOp::Write { addr: to, bytes: frame },
                BusOp::Write { addr: from, bytes: target },
                BusOp::Read { addr: source, len },
            ) => {
                if to == from && from == source && target.len() == 2 && frame.len() >= 2
                    && frame.take(2) == target && len <= frame.len() - 2 {
                    frame.subrange(2, 2 + len as int)
                } else {
                    Seq::empty()
                }
            },
            _ => Seq::empty(),
        }
    } else {
        Seq::empty()
    }
}

proof fn lemma_echo_round_trip(addr: u8, reg: Seq<u8>, v: nat, n: nat)
    requires
        reg.len() == 2,
        v < byte_range(n),
    ensures
        echo_reply(write_ops(addr, reg, be_bytes(v, n)), read_ops(addr, reg, n)) == be_bytes(v, n),
        be_value(be_bytes(v, n)) == v,
{
    lemma_be_bytes_len(v, n);
    lemma_be_round_trip(v, n);
    let frame = reg + be_bytes(v, n);
    assert(frame.take(2) =~= reg);
    assert(frame.subrange(2, 2 + n as int) =~= be_bytes(v, n));
}

/// A `u8` written to a register with `write_u8` and read back with `read_u8`
/// from a bus that echoes register writes decodes, through `decode_u8`, to the
/// value written.
pub proof fn lemma_round_trip_u8(addr: u8, reg: Reg, value: u8)
    ensures
        be_value(
            echo_reply(
                write_ops(addr, reg@, be_bytes(value as nat, 1)),
                read_ops(addr, reg@, 1),
            ),
        ) == value,
{
    reveal_with_fuel(byte_range, 2);
    lemma_echo_round_trip(addr, reg@, value as nat, 1);
}

/// A `u16` written to a register with `write_u16` and read back with `read_u16`
/// from a bus that echoes register writes decodes, through `decode_u16`, to the
/// value written.
pub proof fn lemma_round_trip_u16(addr: u8, reg: Reg, value: u16)
    ensures
        be_value(
            echo_reply(
                write_ops(addr, reg@, be_bytes(value as nat, 2)),
                read_ops(addr, reg@, 2),
            ),
        ) == value,
{
    reveal_with_fuel(byte_range, 3);
    lemma_echo_round_trip(addr, reg@, value as nat, 2);
}

/// A `u32` written to a register with `write_u32` and read back with `read_u32`
/// from a bus that echoes register writes decodes, through `decode_u32`, to the
/// value written.
pub proof fn lemma_round_trip_u32(addr: u8, reg: Reg, value: u32)
    ensures
        be_value(
            echo_reply(
                write_ops(addr, reg@, be_bytes(value as nat, 4)),
                read_ops(addr, reg@, 4),
            ),
        ) == value,
{
    reveal_with_fuel(byte_range, 5);
    lemma_echo_round_trip(addr, reg@, value as nat, 4);
}

/// A `u64` written to a register with `write_u64` and read back with `read_u64`
/// from a bus that echoes register writes decodes, through `decode_u64`, to the
/// value written.
pub proof fn lemma_round_trip_u64(addr: u8, reg: Reg, value: u64)
    ensures
        be_value(
            echo_reply(
                write_ops(addr, reg@, be_bytes(value as nat, 8)),
                read_ops(addr, reg@, 8),
            ),
        ) == value,
{
    reveal_with_fuel(byte_range, 9);
    lemma_echo_round_trip(addr, reg@, value as nat, 8);
}

/// A `i8` written to a register with `write_i8` and read back with `read_i8`
/// from a bus that echoes register writes decodes, through `decode_i8`, to the
/// value written.
pub proof fn lemma_round_trip_i8(addr: u8, reg: Reg, value: i8)
    ensures
        be_value(
            echo_reply(
                write_ops(addr, reg@, be_bytes((value as u8) as nat, 1)),
                read_ops(addr, reg@, 1),
            ),
        ) as i8 == value,
{
    reveal_with_fuel(byte_range, 2);
    lemma_echo_round_trip(addr, reg@, (value as u8) as nat, 1);
    assert((value as u8) as i8 == value) by (bit_vector);
}

/// A `i16` written to a register with `write_i16` and read back with `read_i16`
/// from a bus that echoes register writes decodes, through `decode_i16`, to the
/// value written.
pub proof fn lemma_round_trip_i16(addr: u8, reg: Reg, value: i16)
    ensures
        be_value(
            echo_reply(
                write_ops(addr, reg@, be_bytes((value as u16) as nat, 2)),
                read_ops(addr, reg@, 2),
            ),
        ) as i16 == value,
{
    reveal_with_fuel(byte_range, 3);
    lemma_echo_round_trip(addr, reg@, (value as u16) as nat, 2);
    assert((value as u16) as i16 == value) by (bit_vector);
}

/// A `i32` written to a register with `write_i32` and read back with `read_i32`
/// from a bus that echoes register writes decodes, through `decode_i32`, to the
/// value written.
pub proof fn lemma_round_trip_i32(addr: u8, reg: Reg, value: i32)
    ensures
        be_value(
            echo_reply(
                write_ops(addr, reg@, be_bytes((value as u32) as nat, 4)),
                read_ops(addr, reg@, 4),
            ),
        ) as i32 == value,
{
    reveal_with_fuel(byte_range, 5);
    lemma_echo_round_trip(addr, reg@, (value as u32) as nat, 4);
    assert((value as u32) as i32 == value) by (bit_vector);
}

/// A `i64` written to a register with `write_i64` and read back with `read_i64`
/// from a bus that echoes register writes decodes, through `decode_i64`, to the
/// value written.
pub proof fn lemma_round_trip_i64(addr: u8, reg: Reg, value: i64)
    ensures
        be_value(
            echo_reply(
                write_ops(addr, reg@, be_bytes((value as u64) as nat, 8)),
                read_ops(addr, reg@, 8),
            ),
        ) as i64 == value,
{
    reveal_with_fuel(byte_range, 9);
    lemma_echo_round_trip(addr, reg@, (value as u64) as nat, 8);
    assert((value as u64) as i64 == value) by (bit_vector);
}

} // verus!
