//! Field extraction for 16-bit instruction words.

use vstd::prelude::*;

use crate::error::ChipError;

verus! {

/// The error for the word `op` fetched at `addr`, which is no instruction.
pub fn invalid_instruction(op: u16, addr: u16) -> (e: ChipError)
    ensures
        e == (ChipError::InvalidOpcode { op, addr }),
{
    ChipError::InvalidOpcode { op, addr }
}

/// The leading 4-bit opcode family of an instruction word.
pub fn get_first_nibble(num: u16) -> (r: u8)
    ensures
        r == num / 0x1000,
{
    assert((num & 0xF000u16) >> 12u16 == num / 0x1000) by (bit_vector);
    ((num & 0xF000) >> 12) as u8
}

/// The second nibble: the `x` register index.
pub fn get_second_nibble(num: u16) -> (r: u8)
    ensures
        r == (num / 0x100) % 0x10,
{
    assert((num & 0x0F00u16) >> 8u16 == (num / 0x100) % 0x10) by (bit_vector);
    ((num & 0x0F00) >> 8) as u8
}

/// The third nibble: the `y` register index.
pub fn get_third_nibble(num: u16) -> (r: u8)
    ensures
        r == (num / 0x10) % 0x10,
{
    assert((num & 0x00F0u16) >> 4u16 == (num / 0x10) % 0x10) by (bit_vector);
    ((num & 0x00F0) >> 4) as u8
}

/// The last nibble: `n` in `Dxyn` and the sub-operation of family `8`.
pub fn get_last_nibble(num: u16) -> (r: u8)
    ensures
        r == num % 0x10,
{
    assert(num & 0x000Fu16 == num % 0x10) by (bit_vector);
    (num & 0x000F) as u8
}

/// The low twelve bits: the address `nnn`.
pub fn get_addr(num: u16) -> (r: u16)
    ensures
        r == num % 0x1000,
{
    assert(num & 0x0FFFu16 == num % 0x1000) by (bit_vector);
    num & 0x0FFF
}

/// The low byte: the immediate `kk`.
pub fn get_last_byte(num: u16) -> (r: u8)
    ensures
        r == num % 0x100,
{
    assert(num & 0x00FFu16 == num % 0x100) by (bit_vector);
    (num & 0x00FF) as u8
}

} // verus!
