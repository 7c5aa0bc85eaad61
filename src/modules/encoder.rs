//! The rotary encoder block.
use vstd::prelude::*;
use crate::bytes::be_bytes;
use crate::common::{module_id, reg, Modules};
use crate::driver::{read_i32, read_ops, write_i32, write_ops, write_u8, Transaction};

verus! {

/// Function id of the interrupt enable register (1 byte, write).
pub const INT_SET: u8 = 0x10;

/// Function id of the interrupt disable register (1 byte, write).
pub const INT_CLR: u8 = 0x20;

/// Function id of the absolute position register (4 bytes, signed).
pub const POSITION: u8 = 0x30;

/// Function id of the register holding the movement since it was last read
/// (4 bytes, signed).
pub const DELTA: u8 = 0x40;

/// The address of the encoder register `function`.
pub open spec fn encoder_reg(function: u8) -> Seq<u8> {
    seq![module_id(Modules::Encoder), function]
}

/// Reads the movement since the last such read; decode the reply with
/// `decode_i32`.
pub fn delta(addr: u8) -> (r: Transaction)
    ensures
        r@ == read_ops(addr, encoder_reg(DELTA), 4),
{
    read_i32(addr, &reg(Modules::Encoder, DELTA))
}

/// Reads the absolute position; decode the reply with `decode_i32`.
pub fn position(addr: u8) -> (r: Transaction)
    ensures
        r@ == read_ops(addr, encoder_reg(POSITION), 4),
{
    read_i32(addr, &reg(Modules::Encoder, POSITION))
}

/// Sets the absolute position to `pos`.
pub fn set_position(addr: u8, pos: i32) -> (r: Transaction)
    ensures
        r@ == write_ops(addr, encoder_reg(POSITION), be_bytes((pos as u32) as nat, 4)),
{
    write_i32(addr, &reg(Modules::Encoder, POSITION), pos)
}

/// Lets the encoder raise its interrupt line.
pub fn enable_interrupt(addr: u8) -> (r: Transaction)
    ensures
        r@ == write_ops(addr, encoder_reg(INT_SET), seq![1u8]),
{
    proof {
        reveal_with_fuel(be_bytes, 2);
    }
    write_u8(addr, &reg(Modules::Encoder, INT_SET), 1)
}

/// Stops the encoder from raising its interrupt line.
pub fn disable_interrupt(addr: u8) -> (r: Transaction)
    ensures
        r@ == write_ops(addr, encoder_reg(INT_CLR), seq![1u8]),
{
    proof {
        reveal_with_fuel(be_bytes, 2);
    }
    write_u8(addr, &reg(Modules::Encoder, INT_CLR), 1)
}

} // verus!
