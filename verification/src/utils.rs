//! Byte-level helpers shared by the register file and the CPU: combining and
//! splitting 16-bit values, single-bit tests, and the carry / half-carry
//! predicates of the SM83 arithmetic instructions.

use vstd::prelude::*;

verus! {

/// Combines two bytes into a 16-bit value, `x` as the high byte and `y` as
/// the low byte.
pub fn u8s_to_u16(x: u8, y: u8) -> (r: u16)
    ensures
        r == x * 256 + y,
{
    (x as u16) * 256 + (y as u16)
}

/// Splits a 16-bit value into its high byte followed by its low byte.
pub fn u16_to_u8s(value: u16) -> (r: [u8; 2])
    ensures
        r[0] == value / 256,
        r[1] == value % 256,
{
    [(value / 256) as u8, (value % 256) as u8]
}

/// Single-bit tests and updates through a mask of the same width.
pub trait BitWise: Sized {
    fn is_bit_set(&self, bit: Self) -> bool;

    fn set_bit(&self, bit: Self) -> Self;

    fn unset_bit(&self, bit: Self) -> Self;

    fn toggle_bit(&self, bit: Self, should_set: bool) -> Self;
}

impl BitWise for u8 {
    fn is_bit_set(&self, bit: u8) -> (r: bool)
        ensures
            r == ((*self & bit) != 0),
    {
        *self & bit != 0
    }

    fn set_bit(&self, bit: u8) -> (r: u8)
        ensures
            r == (*self | bit),
    {
        *self | bit
    }

    fn unset_bit(&self, bit: u8) -> (r: u8)
        ensures
            r == (*self & !bit),
    {
        *self & !bit
    }

    fn toggle_bit(&self, bit: u8, should_set: bool) -> (r: u8)
        ensures
            r == if should_set {
                *self | bit
            } else {
                (*self & !bit)
            },
    {
        if should_set {
            self.set_bit(bit)
        } else {
            self.unset_bit(bit)
        }
    }
}

/// The carry and half-carry conditions of the SM83 arithmetic instructions.
/// A half-carry is a carry out of the low nibble for 8-bit operands and out
/// of the low 12 bits for 16-bit operands.
pub trait Carryable: Sized {
    fn add_should_half_carry(&self, b: Self) -> bool;

    fn add_should_carry(&self, b: Self) -> bool;

    fn dec_should_half_carry(&self) -> bool;

    fn inc_should_half_carry(&self) -> bool;

    fn sub_should_half_carry(&self, b: Self) -> bool;

    fn sub_should_carry(&self, b: Self) -> bool;
}

impl Carryable for u8 {
    fn add_should_half_carry(&self, b: u8) -> (r: bool)
        ensures
            r == (*self % 16 + b % 16 > 15),
    {
        (*self % 16) + (b % 16) > 15
    }

    fn add_should_carry(&self, b: u8) -> (r: bool)
        ensures
            r == (*self + b > 255),
    {
        (*self as u16) + (b as u16) > 255
    }

    fn dec_should_half_carry(&self) -> (r: bool)
        ensures
            r == (*self % 16 == 15),
    {
        *self % 16 == 15
    }

    fn inc_should_half_carry(&self) -> (r: bool)
        ensures
            r == (*self % 16 == 0),
    {
        *self % 16 == 0
    }

    fn sub_should_half_carry(&self, b: u8) -> (r: bool)
        ensures
            r == (*self % 16 < b % 16),
    {
        (*self % 16) < (b % 16)
    }

    fn sub_should_carry(&self, b: u8) -> (r: bool)
        ensures
            r == (b > *self),
    {
        b > *self
    }
}

impl Carryable for u16 {
    fn add_should_half_carry(&self, b: u16) -> (r: bool)
        ensures
            r == (*self % 0x1000 + b % 0x1000 > 0xfff),
    {
        (*self % 0x1000) + (b % 0x1000) > 0xfff
    }

    fn add_should_carry(&self, b: u16) -> (r: bool)
        ensures
            r == (*self + b > 0xffff),
    {
        (*self as u32) + (b as u32) > 0xffff
    }

    fn dec_should_half_carry(&self) -> (r: bool)
        ensures
            r == (*self % 16 == 15),
    {
        *self % 16 == 15
    }

    fn inc_should_half_carry(&self) -> (r: bool)
        ensures
            r == (*self % 16 == 0),
    {
        *self % 16 == 0
    }

    fn sub_should_half_carry(&self, b: u16) -> (r: bool)
        ensures
            r == (*self % 0x1000 < b % 0x1000),
    {
        (*self % 0x1000) < (b % 0x1000)
    }

    fn sub_should_carry(&self, b: u16) -> (r: bool)
        ensures
            r == (b > *self),
    {
        b > *self
    }
}

} // verus!
