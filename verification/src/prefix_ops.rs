//! The CB-prefixed instruction handlers: rotates, the logical right
//! shift, single-bit tests and bit clears, on a register or on the byte
//! addressed by HL.  None of these moves the program counter: the prefix
//! dispatcher advances it by two for the whole prefixed instruction.

use vstd::prelude::*;

use crate::cpu::Cpu;
use crate::cpu_registers::{CombinedRegister, GeneralRegister};
use crate::flag_register::FlagRegisterValue;
use crate::mbc::{MbcView, MemoryError, MBC};
use crate::ops::{
    addr_fetch, bit_flags, rl_result, rlc_result, rotate_flags, rr_result, rrc_result,
};

verus! {

impl Cpu {
    /// RLC r: rotate a register left circularly.
    pub fn rlc_r(&mut self, register: GeneralRegister)
        ensures
            *final(self) == (Cpu {
                registers: rotate_flags(
                    old(self).registers,
                    rlc_result(old(self).registers.spec_get(register)),
                    old(self).registers.spec_get(register) >= 128,
                ).with8(register, rlc_result(old(self).registers.spec_get(register))),
                ..*old(self)
            }),
    {
        let value = self.registers.get(register);
        let result = self.rlc_inner(value);
        self.registers.set(register, result);
    }

    /// RL r: rotate a register left through Carry.
    pub fn rl_r(&mut self, register: GeneralRegister)
        ensures
            *final(self) == (Cpu {
                registers: rotate_flags(
                    old(self).registers,
                    rl_result(
                        old(self).registers.spec_flag(FlagRegisterValue::Carry),
                        old(self).registers.spec_get(register),
                    ),
                    old(self).registers.spec_get(register) >= 128,
                ).with8(
                    register,
                    rl_result(
                        old(self).registers.spec_flag(FlagRegisterValue::Carry),
                        old(self).registers.spec_get(register),
                    ),
                ),
                ..*old(self)
            }),
    {
        let value = self.registers.get(register);
        let result = self.rl_inner(value);
        self.registers.set(register, result);
    }

    /// RRC r: rotate a register right circularly.
    pub fn rrc_r(&mut self, register: GeneralRegister)
        ensures
            *final(self) == (Cpu {
                registers: rotate_flags(
                    old(self).registers,
                    rrc_result(old(self).registers.spec_get(register)),
                    old(self).registers.spec_get(register) % 2 == 1,
                ).with8(register, rrc_result(old(self).registers.spec_get(register))),
                ..*old(self)
            }),
    {
        let value = self.registers.get(register);
        let result = self.rrc_inner(value);
        self.registers.set(register, result);
    }

    /// RR r: rotate a register right through Carry.
    pub fn rr_r(&mut self, register: GeneralRegister)
        ensures
            *final(self) == (Cpu {
                registers: rotate_flags(
                    old(self).registers,
                    rr_result(
                        old(self).registers.spec_flag(FlagRegisterValue::Carry),
                        old(self).registers.spec_get(register),
                    ),
                    old(self).registers.spec_get(register) % 2 == 1,
                ).with8(
                    register,
                    rr_result(
                        old(self).registers.spec_flag(FlagRegisterValue::Carry),
                        old(self).registers.spec_get(register),
                    ),
                ),
                ..*old(self)
            }),
    {
        let value = self.registers.get(register);
        let result = self.rr_inner(value);
        self.registers.set(register, result);
    }

    /// SRL r: shift a register right logically; Carry takes the bit
    /// shifted out.
    pub fn srl_r(&mut self, register: GeneralRegister)
        ensures
            *final(self) == (Cpu {
                registers: rotate_flags(
                    old(self).registers,
                    old(self).registers.spec_get(register) / 2,
                    old(self).registers.spec_get(register) % 2 == 1,
                ).with8(register, old(self).registers.spec_get(register) / 2),
                ..*old(self)
            }),
    {
        let value = self.registers.get(register);
        let result = value / 2;
        self.registers.toggle_flag(FlagRegisterValue::Zero, result == 0);
        self.registers.unset_flag(FlagRegisterValue::Negative);
        self.registers.unset_flag(FlagRegisterValue::HalfCarry);
        self.registers.toggle_flag(FlagRegisterValue::Carry, value % 2 == 1);
        self.registers.set(register, result);
    }

    /// BIT n, r: test one bit of a register.  Only flags change; the
    /// register keeps its value.
    pub fn bit_r(&mut self, bit: u8, register: GeneralRegister)
        requires
            bit < 8,
        ensures
            *final(self) == (Cpu {
                registers: bit_flags(
                    old(self).registers,
                    bit,
                    old(self).registers.spec_get(register),
                ),
                ..*old(self)
            }),
    {
        let value = self.registers.get(register);
        self.bit_inner(bit, value);
    }

    /// BIT n, (rr): test one bit of the byte addressed by a combined
    /// register.  Only flags change; the byte is never written back.
    pub fn bit_mem_rr(&mut self, mbc: &MBC, bit: u8, register: CombinedRegister) -> (r: Result<
        (),
        MemoryError,
    >)
        requires
            mbc@.wf(),
            bit < 8,
        ensures
            r == addr_fetch(mbc@, old(self).registers.spec_get16(register) as int),
            r is Ok ==> *final(self) == (Cpu {
                registers: bit_flags(
                    old(self).registers,
                    bit,
                    mbc@.read_value(old(self).registers.spec_get16(register) as int),
                ),
                ..*old(self)
            }),
            r is Err ==> *final(self) == *old(self),
    {
        let location = self.registers.get16(register) as usize;
        let value = match mbc.read(location) {
            Ok(v) => v,
            Err(e) => {
                return Err(e);
            }
        };
        self.bit_inner(bit, value);
        Ok(())
    }

    /// RES n, r: clear one bit of a register.  No flags change.
    pub fn res_r(&mut self, bit: u8, register: GeneralRegister)
        requires
            bit < 8,
        ensures
            *final(self) == (Cpu {
                registers: old(self).registers.with8(
                    register,
                    old(self).registers.spec_get(register) & !(1u8 << bit),
                ),
                ..*old(self)
            }),
    {
        let value = self.registers.get(register);
        let result = value & !(1u8 << bit);
        self.registers.set(register, result);
    }

    /// RES n, (HL): clear one bit of the byte addressed by HL in place.
    /// No flags change.
    pub fn res_mem_rr(&mut self, mbc: &mut MBC, bit: u8) -> (r: Result<(), MemoryError>)
        requires
            old(mbc)@.wf(),
            bit < 8,
        ensures
            r == addr_fetch(
                old(mbc)@,
                old(self).registers.spec_get16(CombinedRegister::HL) as int,
            ),
            r is Ok ==> *final(self) == *old(self) && final(mbc)@ == old(mbc)@.write_effect(
                old(self).registers.spec_get16(CombinedRegister::HL) as int,
                old(mbc)@.read_value(old(self).registers.spec_get16(CombinedRegister::HL) as int)
                    & !(1u8 << bit),
            ),
            r is Err ==> *final(self) == *old(self) && final(mbc)@ == old(mbc)@,
            final(mbc)@.wf(),
    {
        let location = self.registers.get16(CombinedRegister::HL) as usize;
        let value = match mbc.read(location) {
            Ok(v) => v,
            Err(e) => {
                return Err(e);
            }
        };
        let result = value & !(1u8 << bit);
        if let Err(e) = mbc.write(location, result) {
            return Err(e);
        }
        Ok(())
    }

    /// RLC (rr): rotate the byte addressed by a combined register left
    /// circularly, in place.
    pub fn rlc_mem_rr(&mut self, mbc: &mut MBC, register: CombinedRegister) -> (r: Result<
        (),
        MemoryError,
    >)
        requires
            old(mbc)@.wf(),
        ensures
            r == addr_fetch(old(mbc)@, old(self).registers.spec_get16(register) as int),
            r is Ok ==> *final(self) == (Cpu {
                registers: rotate_flags(
                    old(self).registers,
                    rlc_result(
                        old(mbc)@.read_value(old(self).registers.spec_get16(register) as int),
                    ),
                    old(mbc)@.read_value(old(self).registers.spec_get16(register) as int) >= 128,
                ),
                ..*old(self)
            }) && final(mbc)@ == old(mbc)@.write_effect(
                old(self).registers.spec_get16(register) as int,
                rlc_result(old(mbc)@.read_value(old(self).registers.spec_get16(register) as int)),
            ),
            r is Err ==> *final(self) == *old(self) && final(mbc)@ == old(mbc)@,
            final(mbc)@.wf(),
    {
        let location = self.registers.get16(register) as usize;
        let value = match mbc.read(location) {
            Ok(v) => v,
            Err(e) => {
                return Err(e);
            }
        };
        let result = self.rlc_inner(value);
        if let Err(e) = mbc.write(location, result) {
            return Err(e);
        }
        Ok(())
    }

    /// RL (rr): rotate the byte addressed by a combined register left
    /// through Carry, in place.
    pub fn rl_mem_rr(&mut self, mbc: &mut MBC, register: CombinedRegister) -> (r: Result<
        (),
        MemoryError,
    >)
        requires
            old(mbc)@.wf(),
        ensures
            r == addr_fetch(old(mbc)@, old(self).registers.spec_get16(register) as int),
            r is Ok ==> *final(self) == (Cpu {
                registers: rotate_flags(
                    old(self).registers,
                    rl_result(
                        old(self).registers.spec_flag(FlagRegisterValue::Carry),
                        old(mbc)@.read_value(old(self).registers.spec_get16(register) as int),
                    ),
                    old(mbc)@.read_value(old(self).registers.spec_get16(register) as int) >= 128,
                ),
                ..*old(self)
            }) && final(mbc)@ == old(mbc)@.write_effect(
                old(self).registers.spec_get16(register) as int,
                rl_result(
                    old(self).registers.spec_flag(FlagRegisterValue::Carry),
                    old(mbc)@.read_value(old(self).registers.spec_get16(register) as int),
                ),
            ),
            r is Err ==> *final(self) == *old(self) && final(mbc)@ == old(mbc)@,
            final(mbc)@.wf(),
    {
        let location = self.registers.get16(register) as usize;
        let value = match mbc.read(location) {
            Ok(v) => v,
            Err(e) => {
                return Err(e);
            }
        };
        let result = self.rl_inner(value);
        if let Err(e) = mbc.write(location, result) {
            return Err(e);
        }
        Ok(())
    }

    /// RRC (rr): rotate the byte addressed by a combined register right
    /// circularly, in place.
    pub fn rrc_mem_rr(&mut self, mbc: &mut MBC, register: CombinedRegister) -> (r: Result<
        (),
        MemoryError,
    >)
        requires
            old(mbc)@.wf(),
        ensures
            r == addr_fetch(old(mbc)@, old(self).registers.spec_get16(register) as int),
            r is Ok ==> *final(self) == (Cpu {
                registers: rotate_flags(
                    old(self).registers,
                    rrc_result(
                        old(mbc)@.read_value(old(self).registers.spec_get16(register) as int),
                    ),
                    old(mbc)@.read_value(old(self).registers.spec_get16(register) as int) % 2
                        == 1,
                ),
                ..*old(self)
            }) && final(mbc)@ == old(mbc)@.write_effect(
                old(self).registers.spec_get16(register) as int,
                rrc_result(old(mbc)@.read_value(old(self).registers.spec_get16(register) as int)),
            ),
            r is Err ==> *final(self) == *old(self) && final(mbc)@ == old(mbc)@,
            final(mbc)@.wf(),
    {
        let location = self.registers.get16(register) as usize;
        let value = match mbc.read(location) {
            Ok(v) => v,
            Err(e) => {
                return Err(e);
            }
        };
        let result = self.rrc_inner(value);
        if let Err(e) = mbc.write(location, result) {
            return Err(e);
        }
        Ok(())
    }

    /// RR (rr): rotate the byte addressed by a combined register right
    /// through Carry, in place.
    pub fn rr_mem_rr(&mut self, mbc: &mut MBC, register: CombinedRegister) -> (r: Result<
        (),
        MemoryError,
    >)
        requires
            old(mbc)@.wf(),
        ensures
            r == addr_fetch(old(mbc)@, old(self).registers.spec_get16(register) as int),
            r is Ok ==> *final(self) == (Cpu {
                registers: rotate_flags(
                    old(self).registers,
                    rr_result(
                        old(self).registers.spec_flag(FlagRegisterValue::Carry),
                        old(mbc)@.read_value(old(self).registers.spec_get16(register) as int),
                    ),
                    old(mbc)@.read_value(old(self).registers.spec_get16(register) as int) % 2
                        == 1,
                ),
                ..*old(self)
            }) && final(mbc)@ == old(mbc)@.write_effect(
                old(self).registers.spec_get16(register) as int,
                rr_result(
                    old(self).registers.spec_flag(FlagRegisterValue::Carry),
                    old(mbc)@.read_value(old(self).registers.spec_get16(register) as int),
                ),
            ),
            r is Err ==> *final(self) == *old(self) && final(mbc)@ == old(mbc)@,
            final(mbc)@.wf(),
    {
        let location = self.registers.get16(register) as usize;
        let value = match mbc.read(location) {
            Ok(v) => v,
            Err(e) => {
                return Err(e);
            }
        };
        let result = self.rr_inner(value);
        if let Err(e) = mbc.write(location, result) {
            return Err(e);
        }
        Ok(())
    }
}

} // verus!
