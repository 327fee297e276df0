//! The SM83 register file: eight 8-bit cells (A, F, B, C, D, E, H, L) with
//! combined 16-bit views (AF, BC, DE, HL) and flag accessors on F.
//!
//! Writing a combined register writes exactly its two constituent cells.
//! Only the high nibble of F is meaningful: every write to F clears the low
//! nibble, so it always reads as zero.

use vstd::prelude::*;

use crate::flag_register::{flag_mask, FlagRegisterValue};
use crate::utils::{u16_to_u8s, u8s_to_u16};

verus! {

#[derive(Clone, Copy, Debug, PartialEq, Eq, Structural, Hash)]
pub enum GeneralRegister {
    A,
    F,
    B,
    C,
    D,
    E,
    H,
    L,
}

#[derive(Clone, Copy, Debug, PartialEq, Eq, Structural, Hash)]
pub enum CombinedRegister {
    AF,
    BC,
    DE,
    HL,
}

/// The register holding the high byte of a combined register.
pub open spec fn hi_reg(register: CombinedRegister) -> GeneralRegister {
    match register {
        CombinedRegister::AF => GeneralRegister::A,
        CombinedRegister::BC => GeneralRegister::B,
        CombinedRegister::DE => GeneralRegister::D,
        CombinedRegister::HL => GeneralRegister::H,
    }
}

/// The register holding the low byte of a combined register.
pub open spec fn lo_reg(register: CombinedRegister) -> GeneralRegister {
    match register {
        CombinedRegister::AF => GeneralRegister::F,
        CombinedRegister::BC => GeneralRegister::C,
        CombinedRegister::DE => GeneralRegister::E,
        CombinedRegister::HL => GeneralRegister::L,
    }
}

/// A value as it is stored in F: the low nibble cleared.
pub open spec fn masked_flags(value: u8) -> u8 {
    (value / 16 * 16) as u8
}

pub struct Registers {
    pub a: u8,
    pub f: u8,
    pub b: u8,
    pub c: u8,
    pub d: u8,
    pub e: u8,
    pub h: u8,
    pub l: u8,
}

impl Registers {
    /// The value held by an 8-bit register.
    pub open spec fn spec_get(self, register: GeneralRegister) -> u8 {
        match register {
            GeneralRegister::A => self.a,
            GeneralRegister::F => self.f,
            GeneralRegister::B => self.b,
            GeneralRegister::C => self.c,
            GeneralRegister::D => self.d,
            GeneralRegister::E => self.e,
            GeneralRegister::H => self.h,
            GeneralRegister::L => self.l,
        }
    }

    /// The register file after writing one 8-bit register.  A write to F
    /// only keeps the high nibble.
    pub open spec fn with8(self, register: GeneralRegister, value: u8) -> Registers {
        match register {
            GeneralRegister::A => Registers { a: value, ..self },
            GeneralRegister::F => Registers { f: masked_flags(value), ..self },
            GeneralRegister::B => Registers { b: value, ..self },
            GeneralRegister::C => Registers { c: value, ..self },
            GeneralRegister::D => Registers { d: value, ..self },
            GeneralRegister::E => Registers { e: value, ..self },
            GeneralRegister::H => Registers { h: value, ..self },
            GeneralRegister::L => Registers { l: value, ..self },
        }
    }

    /// The value of a combined 16-bit register: high cell times 256 plus
    /// low cell.
    pub open spec fn spec_get16(self, register: CombinedRegister) -> u16 {
        (self.spec_get(hi_reg(register)) * 256 + self.spec_get(lo_reg(register))) as u16
    }

    /// The register file after writing a combined register: the high byte
    /// goes to the high cell and the low byte to the low cell.
    pub open spec fn with16(self, register: CombinedRegister, value: u16) -> Registers {
        self.with8(hi_reg(register), (value / 256) as u8).with8(
            lo_reg(register),
            (value % 256) as u8,
        )
    }

    /// Whether a flag bit is set in F.
    pub open spec fn spec_flag(self, flag: FlagRegisterValue) -> bool {
        self.f & flag_mask(flag) != 0
    }

    /// The register file with one flag bit of F set or cleared.
    pub open spec fn with_flag(self, flag: FlagRegisterValue, value: bool) -> Registers {
        if value {
            Registers { f: self.f | flag_mask(flag), ..self }
        } else {
            Registers { f: self.f & !flag_mask(flag), ..self }
        }
    }

    pub fn set(&mut self, register: GeneralRegister, value: u8)
        ensures
            *final(self) == old(self).with8(register, value),
    {
        match register {
            GeneralRegister::A => self.a = value,
            GeneralRegister::F => self.f = value / 16 * 16,
            GeneralRegister::B => self.b = value,
            GeneralRegister::C => self.c = value,
            GeneralRegister::D => self.d = value,
            GeneralRegister::E => self.e = value,
            GeneralRegister::H => self.h = value,
            GeneralRegister::L => self.l = value,
        }
    }

    pub fn get(&self, register: GeneralRegister) -> (r: u8)
        ensures
            r == self.spec_get(register),
    {
        match register {
            GeneralRegister::A => self.a,
            GeneralRegister::F => self.f,
            GeneralRegister::B => self.b,
            GeneralRegister::C => self.c,
            GeneralRegister::D => self.d,
            GeneralRegister::E => self.e,
            GeneralRegister::H => self.h,
            GeneralRegister::L => self.l,
        }
    }

    pub fn set16(&mut self, register: CombinedRegister, value: u16)
        ensures
            *final(self) == old(self).with16(register, value),
    {
        let bytes = u16_to_u8s(value);
        let left = bytes[0];
        let right = bytes[1];

        match register {
            CombinedRegister::AF => {
                self.set(GeneralRegister::A, left);
                self.set(GeneralRegister::F, right);
            }
            CombinedRegister::BC => {
                self.set(GeneralRegister::B, left);
                self.set(GeneralRegister::C, right);
            }
            CombinedRegister::DE => {
                self.set(GeneralRegister::D, left);
                self.set(GeneralRegister::E, right);
            }
            CombinedRegister::HL => {
                self.set(GeneralRegister::H, left);
                self.set(GeneralRegister::L, right);
            }
        }
    }

    pub fn get16(&self, register: CombinedRegister) -> (r: u16)
        ensures
            r == self.spec_get16(register),
    {
        match register {
            CombinedRegister::AF => {
                u8s_to_u16(self.get(GeneralRegister::A), self.get(GeneralRegister::F))
            }
            CombinedRegister::BC => {
                u8s_to_u16(self.get(GeneralRegister::B), self.get(GeneralRegister::C))
            }
            CombinedRegister::DE => {
                u8s_to_u16(self.get(GeneralRegister::D), self.get(GeneralRegister::E))
            }
            CombinedRegister::HL => {
                u8s_to_u16(self.get(GeneralRegister::H), self.get(GeneralRegister::L))
            }
        }
    }

    pub fn set_flag(&mut self, flag: FlagRegisterValue)
        ensures
            *final(self) == old(self).with_flag(flag, true),
    {
        self.f = self.f | flag.mask();
    }

    pub fn unset_flag(&mut self, flag: FlagRegisterValue)
        ensures
            *final(self) == old(self).with_flag(flag, false),
    {
        self.f = self.f & !flag.mask();
    }

    pub fn toggle_flag(&mut self, flag: FlagRegisterValue, should_set: bool)
        ensures
            *final(self) == old(self).with_flag(flag, should_set),
    {
        if should_set {
            self.set_flag(flag);
        } else {
            self.unset_flag(flag);
        }
    }

    pub fn is_flag_set(&self, flag: FlagRegisterValue) -> (r: bool)
        ensures
            r == self.spec_flag(flag),
    {
        self.f & flag.mask() != 0
    }

    /// Adds one to a combined register, wrapping at 16 bits, and returns
    /// the new value.
    pub fn increment16(&mut self, register: CombinedRegister) -> (r: u16)
        ensures
            r == (old(self).spec_get16(register) + 1) % 0x10000,
            *final(self) == old(self).with16(register, r),
    {
        let result = self.get16(register).wrapping_add(1);
        self.set16(register, result);
        result
    }

    /// Subtracts one from a combined register, wrapping at 16 bits, and
    /// returns the new value.
    pub fn decrement16(&mut self, register: CombinedRegister) -> (r: u16)
        ensures
            r == (old(self).spec_get16(register) - 1) % 0x10000,
            *final(self) == old(self).with16(register, r),
    {
        let result = self.get16(register).wrapping_sub(1);
        self.set16(register, result);
        result
    }
}

impl Default for Registers {
    /// A register file with every cell zero.
    fn default() -> (r: Self)
        ensures
            forall|g: GeneralRegister| r.spec_get(g) == 0,
    {
        Registers { a: 0, f: 0, b: 0, c: 0, d: 0, e: 0, h: 0, l: 0 }
    }
}

/// Law: writing a combined register and reading it back returns the value
/// written, and the two constituent cells hold the expected high and low
/// bytes.  For AF the value's low nibble must be clear, because the low
/// nibble of F always reads as zero.
pub proof fn lemma_set16_get16_round_trip(
    regs: Registers,
    register: CombinedRegister,
    value: u16,
)
    requires
        register == CombinedRegister::AF ==> value % 16 == 0,
    ensures
        regs.with16(register, value).spec_get16(register) == value,
        regs.with16(register, value).spec_get(hi_reg(register)) == value / 256,
        regs.with16(register, value).spec_get(lo_reg(register)) == value % 256,
{
    assert(value == value / 256 * 256 + value % 256) by (nonlinear_arith);
    if register == CombinedRegister::AF {
        assert(value % 256 % 16 == value % 16) by (nonlinear_arith);
        assert(masked_flags((value % 256) as u8) == value % 256) by (nonlinear_arith)
            requires
                value % 256 % 16 == 0,
                0 <= value % 256 < 256,
        ;
    }
}

} // verus!
