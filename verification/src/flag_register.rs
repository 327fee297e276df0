//! The four condition flags packed into the high nibble of the F register:
//! Carry (bit 4), Half-Carry (bit 5), Negative (bit 6) and Zero (bit 7).
//! The low nibble of F is unused and always reads as zero.

use vstd::prelude::*;

verus! {

#[derive(Clone, Copy, Debug, PartialEq, Eq, Structural)]
pub enum FlagRegisterValue {
    Carry,
    HalfCarry,
    Negative,
    Zero,
}

/// The single-bit mask of a flag within the F register.
pub open spec fn flag_mask(flag: FlagRegisterValue) -> u8 {
    match flag {
        FlagRegisterValue::Carry => 0x10,
        FlagRegisterValue::HalfCarry => 0x20,
        FlagRegisterValue::Negative => 0x40,
        FlagRegisterValue::Zero => 0x80,
    }
}

impl FlagRegisterValue {
    /// The runtime value of the flag's mask.
    pub fn mask(self) -> (r: u8)
        ensures
            r == flag_mask(self),
    {
        match self {
            FlagRegisterValue::Carry => 0x10,
            FlagRegisterValue::HalfCarry => 0x20,
            FlagRegisterValue::Negative => 0x40,
            FlagRegisterValue::Zero => 0x80,
        }
    }
}

} // verus!
