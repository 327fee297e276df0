//! The base-table instruction handlers: loads, 8- and 16-bit arithmetic,
//! logic, compares, rotates of the accumulator, stack operations and
//! control flow.  Each handler advances the program counter by its own
//! instruction length; taken jumps, calls and returns set it directly.
//!
//! The flag semantics follow the documented SM83 behaviour: Zero when the
//! result is zero, Negative for the subtraction family, Half-Carry on a
//! carry out of bit 3 (bit 11 for the 16-bit adds), Carry on a full-width
//! overflow or borrow.  A flag not named by an instruction's contract is
//! left untouched.

use vstd::prelude::*;

use crate::cpu::{
    pc_wrap, pop_err, pop_ok, pop_value, push_stack_mem, push_stack_result, Cpu,
};
use crate::cpu_registers::{CombinedRegister, GeneralRegister, Registers};
use crate::flag_register::FlagRegisterValue;
use crate::mbc::{MbcView, MemoryError, MBC};
use crate::utils::u16_to_u8s;

verus! {

/// The register file after an 8-bit ADD of `value` into A.
pub open spec fn add_registers(regs: Registers, value: u8) -> Registers {
    let a = regs.spec_get(GeneralRegister::A);
    let result = ((a + value) % 256) as u8;
    regs.with8(GeneralRegister::A, result).with_flag(FlagRegisterValue::Zero, result == 0)
        .with_flag(FlagRegisterValue::Negative, false)
        .with_flag(FlagRegisterValue::HalfCarry, a % 16 + value % 16 > 15)
        .with_flag(FlagRegisterValue::Carry, a + value > 255)
}

/// The register file after ADC: `value` plus the incoming Carry flag
/// added into A, with the carries computed over the full three-term sum.
pub open spec fn adc_registers(regs: Registers, value: u8) -> Registers {
    let a = regs.spec_get(GeneralRegister::A);
    let c: int = if regs.spec_flag(FlagRegisterValue::Carry) {
        1
    } else {
        0
    };
    let result = ((a + value + c) % 256) as u8;
    regs.with8(GeneralRegister::A, result).with_flag(FlagRegisterValue::Zero, result == 0)
        .with_flag(FlagRegisterValue::Negative, false)
        .with_flag(FlagRegisterValue::HalfCarry, a % 16 + value % 16 + c > 15)
        .with_flag(FlagRegisterValue::Carry, a + value + c > 255)
}

/// The register file after an 8-bit SUB of `value` from A.
pub open spec fn sub_registers(regs: Registers, value: u8) -> Registers {
    let a = regs.spec_get(GeneralRegister::A);
    let result = ((a - value) % 256) as u8;
    regs.with_flag(FlagRegisterValue::Zero, result == 0).with_flag(
        FlagRegisterValue::Negative,
        true,
    ).with_flag(FlagRegisterValue::HalfCarry, a % 16 < value % 16).with_flag(
        FlagRegisterValue::Carry,
        value > a,
    ).with8(GeneralRegister::A, result)
}

/// The register file after SBC: `value` plus the incoming Carry flag
/// subtracted from A, with the borrows computed over the full sum.
pub open spec fn sbc_registers(regs: Registers, value: u8) -> Registers {
    let a = regs.spec_get(GeneralRegister::A);
    let c: int = if regs.spec_flag(FlagRegisterValue::Carry) {
        1
    } else {
        0
    };
    let result = ((a - value - c) % 256) as u8;
    regs.with_flag(FlagRegisterValue::Zero, result == 0).with_flag(
        FlagRegisterValue::Negative,
        true,
    ).with_flag(FlagRegisterValue::HalfCarry, a % 16 < value % 16 + c).with_flag(
        FlagRegisterValue::Carry,
        value + c > a,
    ).with8(GeneralRegister::A, result)
}

/// The register file after AND into A: Half-Carry always set, Carry
/// always cleared.
pub open spec fn and_registers(regs: Registers, value: u8) -> Registers {
    let a = regs.spec_get(GeneralRegister::A);
    let result = a & value;
    regs.with8(GeneralRegister::A, result).with_flag(FlagRegisterValue::Zero, result == 0)
        .with_flag(FlagRegisterValue::Negative, false)
        .with_flag(FlagRegisterValue::HalfCarry, true)
        .with_flag(FlagRegisterValue::Carry, false)
}

/// The register file after XOR into A: Half-Carry and Carry cleared.
pub open spec fn xor_registers(regs: Registers, value: u8) -> Registers {
    let a = regs.spec_get(GeneralRegister::A);
    let result = a ^ value;
    regs.with8(GeneralRegister::A, result).with_flag(FlagRegisterValue::Zero, result == 0)
        .with_flag(FlagRegisterValue::Negative, false)
        .with_flag(FlagRegisterValue::HalfCarry, false)
        .with_flag(FlagRegisterValue::Carry, false)
}

/// The register file after OR into A: Half-Carry and Carry cleared.
pub open spec fn or_registers(regs: Registers, value: u8) -> Registers {
    let a = regs.spec_get(GeneralRegister::A);
    let result = a | value;
    regs.with8(GeneralRegister::A, result).with_flag(FlagRegisterValue::Zero, result == 0)
        .with_flag(FlagRegisterValue::Negative, false)
        .with_flag(FlagRegisterValue::HalfCarry, false)
        .with_flag(FlagRegisterValue::Carry, false)
}

/// The register file after CP: the flags of a subtraction, with A itself
/// unchanged.
pub open spec fn cp_registers(regs: Registers, value: u8) -> Registers {
    let a = regs.spec_get(GeneralRegister::A);
    regs.with_flag(FlagRegisterValue::Zero, a == value).with_flag(
        FlagRegisterValue::Negative,
        true,
    ).with_flag(FlagRegisterValue::HalfCarry, a % 16 < value % 16).with_flag(
        FlagRegisterValue::Carry,
        value > a,
    )
}

/// The register file after a 16-bit ADD of `value` into HL: Zero is left
/// untouched, Half-Carry comes out of bit 11.
pub open spec fn add16_registers(regs: Registers, value: u16) -> Registers {
    let hl = regs.spec_get16(CombinedRegister::HL);
    let result = ((hl + value) % 0x10000) as u16;
    regs.with16(CombinedRegister::HL, result).with_flag(FlagRegisterValue::Negative, false)
        .with_flag(FlagRegisterValue::HalfCarry, hl % 0x1000 + value % 0x1000 > 0xfff)
        .with_flag(FlagRegisterValue::Carry, hl + value > 0xffff)
}

/// The register file after INC of an 8-bit register: Carry untouched,
/// Half-Carry when the low nibble wrapped.
pub open spec fn inc8_registers(regs: Registers, register: GeneralRegister) -> Registers {
    let result = ((regs.spec_get(register) + 1) % 256) as u8;
    regs.with_flag(FlagRegisterValue::Zero, result == 0).with_flag(
        FlagRegisterValue::Negative,
        false,
    ).with_flag(FlagRegisterValue::HalfCarry, result % 16 == 0).with8(register, result)
}

/// The register file after DEC of an 8-bit register: Carry untouched,
/// Half-Carry on a borrow out of the low nibble.
pub open spec fn dec8_registers(regs: Registers, register: GeneralRegister) -> Registers {
    let result = ((regs.spec_get(register) - 1) % 256) as u8;
    regs.with_flag(FlagRegisterValue::Zero, result == 0).with_flag(
        FlagRegisterValue::Negative,
        true,
    ).with_flag(FlagRegisterValue::HalfCarry, result % 16 == 15).with8(register, result)
}

/// The flags every rotate and shift instruction writes: Zero from the
/// result, Negative and Half-Carry cleared, Carry from the bit shifted
/// out.
pub open spec fn rotate_flags(regs: Registers, result: u8, carry_out: bool) -> Registers {
    regs.with_flag(FlagRegisterValue::Zero, result == 0).with_flag(
        FlagRegisterValue::Negative,
        false,
    ).with_flag(FlagRegisterValue::HalfCarry, false).with_flag(
        FlagRegisterValue::Carry,
        carry_out,
    )
}

/// A value rotated left through the Carry flag: the old Carry becomes
/// bit 0.
pub open spec fn rl_result(carry_in: bool, value: u8) -> u8 {
    ((value % 128) * 2 + (if carry_in {
        1int
    } else {
        0int
    })) as u8
}

/// A value rotated left circularly: bit 7 becomes bit 0.
pub open spec fn rlc_result(value: u8) -> u8 {
    ((value % 128) * 2 + value / 128) as u8
}

/// A value rotated right through the Carry flag: the old Carry becomes
/// bit 7.
pub open spec fn rr_result(carry_in: bool, value: u8) -> u8 {
    (value / 2 + (if carry_in {
        128int
    } else {
        0int
    })) as u8
}

/// A value rotated right circularly: bit 0 becomes bit 7.
pub open spec fn rrc_result(value: u8) -> u8 {
    (value / 2 + (value % 2) * 128) as u8
}

/// The flags BIT writes: Zero is the complement of the tested bit,
/// Half-Carry always set, Negative cleared, Carry untouched.  The tested
/// value itself is never modified.
pub open spec fn bit_flags(regs: Registers, bit: u8, value: u8) -> Registers {
    regs.with_flag(FlagRegisterValue::Zero, value & (1u8 << bit) == 0).with_flag(
        FlagRegisterValue::Negative,
        false,
    ).with_flag(FlagRegisterValue::HalfCarry, true)
}

/// Whether the one-byte immediate operand after the program counter can
/// be fetched.
pub open spec fn imm8_ok(pre: Cpu, m: MbcView) -> bool {
    m.read_ok(pre.program_counter + 1)
}

/// The one-byte immediate operand after the program counter.
pub open spec fn imm8(pre: Cpu, m: MbcView) -> u8 {
    m.read_value(pre.program_counter + 1)
}

/// Fetching the one-byte immediate: the value is read at the byte after
/// the program counter.
pub open spec fn imm8_fetch(pre: Cpu, m: MbcView) -> Result<(), MemoryError> {
    if imm8_ok(pre, m) {
        Ok(())
    } else {
        Err(m.read_err(pre.program_counter + 1))
    }
}

/// Whether the two-byte immediate operand can be fetched.
pub open spec fn imm16_ok(pre: Cpu, m: MbcView) -> bool {
    m.read_ok(pre.program_counter + 1) && m.read_ok(pre.program_counter + 2)
}

/// The little-endian two-byte immediate operand after the program
/// counter.
pub open spec fn imm16(pre: Cpu, m: MbcView) -> u16 {
    (m.read_value(pre.program_counter + 2) * 256 + m.read_value(pre.program_counter + 1)) as u16
}

/// Fetching the two-byte immediate, low byte first.
pub open spec fn imm16_fetch(pre: Cpu, m: MbcView) -> Result<(), MemoryError> {
    if !m.read_ok(pre.program_counter + 1) {
        Err(m.read_err(pre.program_counter + 1))
    } else if !m.read_ok(pre.program_counter + 2) {
        Err(m.read_err(pre.program_counter + 2))
    } else {
        Ok(())
    }
}

/// Fetching one byte at an arbitrary address.
pub open spec fn addr_fetch(m: MbcView, location: int) -> Result<(), MemoryError> {
    if m.read_ok(location) {
        Ok(())
    } else {
        Err(m.read_err(location))
    }
}

/// Whether a flag-gated instruction takes its branch: an unconditional
/// form always does, a conditional one when the named flag matches.
pub open spec fn condition_met(
    regs: Registers,
    flag: Option<FlagRegisterValue>,
    truthy: bool,
) -> bool {
    match flag {
        Some(f) => regs.spec_flag(f) == truthy,
        None => true,
    }
}

/// The target of a relative jump: the offset byte is a signed two's
/// complement displacement from the end of the two-byte instruction.
pub open spec fn jr_target(pc: u16, offset: u8) -> u16 {
    pc_wrap(
        pc + 2 + (if offset < 128 {
            offset as int
        } else {
            offset - 256
        }),
    )
}

impl Cpu {
    /// NOP: nothing but the program counter moves.
    pub fn nop(&mut self)
        ensures
            *final(self) == (Cpu {
                program_counter: pc_wrap(old(self).program_counter + 1),
                ..*old(self)
            }),
    {
        self.program_counter = self.program_counter.wrapping_add(1);
    }

    /// CCF: complement the Carry flag, clear Negative and Half-Carry.
    pub fn ccf(&mut self)
        ensures
            *final(self) == (Cpu {
                registers: old(self).registers.with_flag(
                    FlagRegisterValue::Carry,
                    !old(self).registers.spec_flag(FlagRegisterValue::Carry),
                ).with_flag(FlagRegisterValue::Negative, false).with_flag(
                    FlagRegisterValue::HalfCarry,
                    false,
                ),
                program_counter: pc_wrap(old(self).program_counter + 1),
                ..*old(self)
            }),
    {
        let carry = self.registers.is_flag_set(FlagRegisterValue::Carry);
        self.registers.toggle_flag(FlagRegisterValue::Carry, !carry);
        self.registers.unset_flag(FlagRegisterValue::Negative);
        self.registers.unset_flag(FlagRegisterValue::HalfCarry);
        self.program_counter = self.program_counter.wrapping_add(1);
    }

    /// SCF: set the Carry flag, clear Negative and Half-Carry.
    pub fn scf(&mut self)
        ensures
            *final(self) == (Cpu {
                registers: old(self).registers.with_flag(FlagRegisterValue::Carry, true).with_flag(
                    FlagRegisterValue::Negative,
                    false,
                ).with_flag(FlagRegisterValue::HalfCarry, false),
                program_counter: pc_wrap(old(self).program_counter + 1),
                ..*old(self)
            }),
    {
        self.registers.set_flag(FlagRegisterValue::Carry);
        self.registers.unset_flag(FlagRegisterValue::Negative);
        self.registers.unset_flag(FlagRegisterValue::HalfCarry);
        self.program_counter = self.program_counter.wrapping_add(1);
    }

    /// DI: disable interrupts.
    pub fn di(&mut self)
        ensures
            *final(self) == (Cpu {
                interrupts_enabled: false,
                program_counter: pc_wrap(old(self).program_counter + 1),
                ..*old(self)
            }),
    {
        self.interrupts_enabled = false;
        self.program_counter = self.program_counter.wrapping_add(1);
    }

    /// EI: enable interrupts.
    pub fn ei(&mut self)
        ensures
            *final(self) == (Cpu {
                interrupts_enabled: true,
                program_counter: pc_wrap(old(self).program_counter + 1),
                ..*old(self)
            }),
    {
        self.interrupts_enabled = true;
        self.program_counter = self.program_counter.wrapping_add(1);
    }

    /// CPL: complement A, set Negative and Half-Carry.
    pub fn cpl(&mut self)
        ensures
            *final(self) == (Cpu {
                registers: old(self).registers.with_flag(FlagRegisterValue::Negative, true)
                    .with_flag(FlagRegisterValue::HalfCarry, true).with8(
                    GeneralRegister::A,
                    (255 - old(self).registers.spec_get(GeneralRegister::A)) as u8,
                ),
                program_counter: pc_wrap(old(self).program_counter + 1),
                ..*old(self)
            }),
    {
        let result = 255 - self.registers.get(GeneralRegister::A);
        self.registers.set_flag(FlagRegisterValue::Negative);
        self.registers.set_flag(FlagRegisterValue::HalfCarry);
        self.registers.set(GeneralRegister::A, result);
        self.program_counter = self.program_counter.wrapping_add(1);
    }

    /// LD r, r: copy one 8-bit register into another.  No flags change
    /// unless F itself is the target.
    pub fn ld_r_r(&mut self, to: GeneralRegister, from: GeneralRegister)
        ensures
            *final(self) == (Cpu {
                registers: old(self).registers.with8(to, old(self).registers.spec_get(from)),
                program_counter: pc_wrap(old(self).program_counter + 1),
                ..*old(self)
            }),
    {
        let value = self.registers.get(from);
        self.registers.set(to, value);
        self.program_counter = self.program_counter.wrapping_add(1);
    }

    /// LD sp, rr: copy a combined register into the stack pointer.
    pub fn ld_sp_rr(&mut self, register: CombinedRegister)
        ensures
            *final(self) == (Cpu {
                stack_pointer: old(self).registers.spec_get16(register),
                program_counter: pc_wrap(old(self).program_counter + 1),
                ..*old(self)
            }),
    {
        self.stack_pointer = self.registers.get16(register);
        self.program_counter = self.program_counter.wrapping_add(1);
    }

    /// ADD A, r.
    pub fn add_r(&mut self, register: GeneralRegister)
        ensures
            *final(self) == (Cpu {
                registers: add_registers(
                    old(self).registers,
                    old(self).registers.spec_get(register),
                ),
                program_counter: pc_wrap(old(self).program_counter + 1),
                ..*old(self)
            }),
    {
        let value = self.registers.get(register);
        self.add_inner(value);
        self.program_counter = self.program_counter.wrapping_add(1);
    }

    /// ADC A, r.
    pub fn adc_r(&mut self, register: GeneralRegister)
        ensures
            *final(self) == (Cpu {
                registers: adc_registers(
                    old(self).registers,
                    old(self).registers.spec_get(register),
                ),
                program_counter: pc_wrap(old(self).program_counter + 1),
                ..*old(self)
            }),
    {
        let value = self.registers.get(register);
        self.adc_inner(value);
        self.program_counter = self.program_counter.wrapping_add(1);
    }

    /// SUB A, r.
    pub fn sub_r(&mut self, register: GeneralRegister)
        ensures
            *final(self) == (Cpu {
                registers: sub_registers(
                    old(self).registers,
                    old(self).registers.spec_get(register),
                ),
                program_counter: pc_wrap(old(self).program_counter + 1),
                ..*old(self)
            }),
    {
        let value = self.registers.get(register);
        self.sub_inner(value);
        self.program_counter = self.program_counter.wrapping_add(1);
    }

    /// SBC A, r.
    pub fn sbc_r(&mut self, register: GeneralRegister)
        ensures
            *final(self) == (Cpu {
                registers: sbc_registers(
                    old(self).registers,
                    old(self).registers.spec_get(register),
                ),
                program_counter: pc_wrap(old(self).program_counter + 1),
                ..*old(self)
            }),
    {
        let value = self.registers.get(register);
        self.sbc_inner(value);
        self.program_counter = self.program_counter.wrapping_add(1);
    }

    /// AND A, r.
    pub fn and_r(&mut self, register: GeneralRegister)
        ensures
            *final(self) == (Cpu {
                registers: and_registers(
                    old(self).registers,
                    old(self).registers.spec_get(register),
                ),
                program_counter: pc_wrap(old(self).program_counter + 1),
                ..*old(self)
            }),
    {
        let value = self.registers.get(register);
        self.and_inner(value);
        self.program_counter = self.program_counter.wrapping_add(1);
    }

    /// XOR A, r.
    pub fn xor_r(&mut self, register: GeneralRegister)
        ensures
            *final(self) == (Cpu {
                registers: xor_registers(
                    old(self).registers,
                    old(self).registers.spec_get(register),
                ),
                program_counter: pc_wrap(old(self).program_counter + 1),
                ..*old(self)
            }),
    {
        let value = self.registers.get(register);
        self.xor_inner(value);
        self.program_counter = self.program_counter.wrapping_add(1);
    }

    /// OR A, r.
    pub fn or_r(&mut self, register: GeneralRegister)
        ensures
            *final(self) == (Cpu {
                registers: or_registers(
                    old(self).registers,
                    old(self).registers.spec_get(register),
                ),
                program_counter: pc_wrap(old(self).program_counter + 1),
                ..*old(self)
            }),
    {
        let value = self.registers.get(register);
        self.or_inner(value);
        self.program_counter = self.program_counter.wrapping_add(1);
    }

    /// CP A, r.
    pub fn cp_r(&mut self, register: GeneralRegister)
        ensures
            *final(self) == (Cpu {
                registers: cp_registers(
                    old(self).registers,
                    old(self).registers.spec_get(register),
                ),
                program_counter: pc_wrap(old(self).program_counter + 1),
                ..*old(self)
            }),
    {
        let value = self.registers.get(register);
        self.cp_inner(value);
        self.program_counter = self.program_counter.wrapping_add(1);
    }

    /// ADD HL, rr.
    pub fn add_rr(&mut self, register: CombinedRegister)
        ensures
            *final(self) == (Cpu {
                registers: add16_registers(
                    old(self).registers,
                    old(self).registers.spec_get16(register),
                ),
                program_counter: pc_wrap(old(self).program_counter + 1),
                ..*old(self)
            }),
    {
        let value = self.registers.get16(register);
        self.add_16_inner(value);
        self.program_counter = self.program_counter.wrapping_add(1);
    }

    /// ADD HL, sp.
    pub fn add_sp(&mut self)
        ensures
            *final(self) == (Cpu {
                registers: add16_registers(old(self).registers, old(self).stack_pointer),
                program_counter: pc_wrap(old(self).program_counter + 1),
                ..*old(self)
            }),
    {
        let value = self.stack_pointer;
        self.add_16_inner(value);
        self.program_counter = self.program_counter.wrapping_add(1);
    }

    /// INC r.
    pub fn inc_r(&mut self, register: GeneralRegister)
        ensures
            *final(self) == (Cpu {
                registers: inc8_registers(old(self).registers, register),
                program_counter: pc_wrap(old(self).program_counter + 1),
                ..*old(self)
            }),
    {
        let result = self.registers.get(register).wrapping_add(1);
        self.registers.toggle_flag(FlagRegisterValue::Zero, result == 0);
        self.registers.unset_flag(FlagRegisterValue::Negative);
        self.registers.toggle_flag(FlagRegisterValue::HalfCarry, result % 16 == 0);
        self.registers.set(register, result);
        self.program_counter = self.program_counter.wrapping_add(1);
    }

    /// DEC r.
    pub fn dec_r(&mut self, register: GeneralRegister)
        ensures
            *final(self) == (Cpu {
                registers: dec8_registers(old(self).registers, register),
                program_counter: pc_wrap(old(self).program_counter + 1),
                ..*old(self)
            }),
    {
        let result = self.registers.get(register).wrapping_sub(1);
        self.registers.toggle_flag(FlagRegisterValue::Zero, result == 0);
        self.registers.set_flag(FlagRegisterValue::Negative);
        self.registers.toggle_flag(FlagRegisterValue::HalfCarry, result % 16 == 15);
        self.registers.set(register, result);
        self.program_counter = self.program_counter.wrapping_add(1);
    }

    /// INC rr: 16-bit increment, no flags.
    pub fn inc_rr(&mut self, register: CombinedRegister)
        ensures
            *final(self) == (Cpu {
                registers: old(self).registers.with16(
                    register,
                    pc_wrap(old(self).registers.spec_get16(register) + 1),
                ),
                program_counter: pc_wrap(old(self).program_counter + 1),
                ..*old(self)
            }),
    {
        self.registers.increment16(register);
        self.program_counter = self.program_counter.wrapping_add(1);
    }

    /// DEC rr: 16-bit decrement, no flags.
    pub fn dec_rr(&mut self, register: CombinedRegister)
        ensures
            *final(self) == (Cpu {
                registers: old(self).registers.with16(
                    register,
                    pc_wrap(old(self).registers.spec_get16(register) - 1),
                ),
                program_counter: pc_wrap(old(self).program_counter + 1),
                ..*old(self)
            }),
    {
        self.registers.decrement16(register);
        self.program_counter = self.program_counter.wrapping_add(1);
    }

    /// INC sp.
    pub fn inc_sp(&mut self)
        ensures
            *final(self) == (Cpu {
                stack_pointer: pc_wrap(old(self).stack_pointer + 1),
                program_counter: pc_wrap(old(self).program_counter + 1),
                ..*old(self)
            }),
    {
        self.stack_pointer = self.stack_pointer.wrapping_add(1);
        self.program_counter = self.program_counter.wrapping_add(1);
    }

    /// DEC sp.
    pub fn dec_sp(&mut self)
        ensures
            *final(self) == (Cpu {
                stack_pointer: pc_wrap(old(self).stack_pointer - 1),
                program_counter: pc_wrap(old(self).program_counter + 1),
                ..*old(self)
            }),
    {
        self.stack_pointer = self.stack_pointer.wrapping_sub(1);
        self.program_counter = self.program_counter.wrapping_add(1);
    }

    /// RLCA: rotate A left circularly; unlike the prefixed rotates, Zero
    /// is always cleared.
    pub fn rlca(&mut self)
        ensures
            *final(self) == (Cpu {
                registers: rotate_flags(
                    old(self).registers,
                    rlc_result(old(self).registers.spec_get(GeneralRegister::A)),
                    old(self).registers.spec_get(GeneralRegister::A) >= 128,
                ).with8(
                    GeneralRegister::A,
                    rlc_result(old(self).registers.spec_get(GeneralRegister::A)),
                ).with_flag(FlagRegisterValue::Zero, false),
                program_counter: pc_wrap(old(self).program_counter + 1),
                ..*old(self)
            }),
    {
        let value = self.registers.get(GeneralRegister::A);
        let result = self.rlc_inner(value);
        self.registers.set(GeneralRegister::A, result);
        self.registers.unset_flag(FlagRegisterValue::Zero);
        self.program_counter = self.program_counter.wrapping_add(1);
    }

    /// RLA: rotate A left through Carry; Zero is always cleared.
    pub fn rla(&mut self)
        ensures
            *final(self) == (Cpu {
                registers: rotate_flags(
                    old(self).registers,
                    rl_result(
                        old(self).registers.spec_flag(FlagRegisterValue::Carry),
                        old(self).registers.spec_get(GeneralRegister::A),
                    ),
                    old(self).registers.spec_get(GeneralRegister::A) >= 128,
                ).with8(
                    GeneralRegister::A,
                    rl_result(
                        old(self).registers.spec_flag(FlagRegisterValue::Carry),
                        old(self).registers.spec_get(GeneralRegister::A),
                    ),
                ).with_flag(FlagRegisterValue::Zero, false),
                program_counter: pc_wrap(old(self).program_counter + 1),
                ..*old(self)
            }),
    {
        let value = self.registers.get(GeneralRegister::A);
        let result = self.rl_inner(value);
        self.registers.set(GeneralRegister::A, result);
        self.registers.unset_flag(FlagRegisterValue::Zero);
        self.program_counter = self.program_counter.wrapping_add(1);
    }

    /// RRCA: rotate A right circularly; Zero is always cleared.
    pub fn rrca(&mut self)
        ensures
            *final(self) == (Cpu {
                registers: rotate_flags(
                    old(self).registers,
                    rrc_result(old(self).registers.spec_get(GeneralRegister::A)),
                    old(self).registers.spec_get(GeneralRegister::A) % 2 == 1,
                ).with8(
                    GeneralRegister::A,
                    rrc_result(old(self).registers.spec_get(GeneralRegister::A)),
                ).with_flag(FlagRegisterValue::Zero, false),
                program_counter: pc_wrap(old(self).program_counter + 1),
                ..*old(self)
            }),
    {
        let value = self.registers.get(GeneralRegister::A);
        let result = self.rrc_inner(value);
        self.registers.set(GeneralRegister::A, result);
        self.registers.unset_flag(FlagRegisterValue::Zero);
        self.program_counter = self.program_counter.wrapping_add(1);
    }

    /// RRA: rotate A right through Carry; Zero is always cleared.
    pub fn rra(&mut self)
        ensures
            *final(self) == (Cpu {
                registers: rotate_flags(
                    old(self).registers,
                    rr_result(
                        old(self).registers.spec_flag(FlagRegisterValue::Carry),
                        old(self).registers.spec_get(GeneralRegister::A),
                    ),
                    old(self).registers.spec_get(GeneralRegister::A) % 2 == 1,
                ).with8(
                    GeneralRegister::A,
                    rr_result(
                        old(self).registers.spec_flag(FlagRegisterValue::Carry),
                        old(self).registers.spec_get(GeneralRegister::A),
                    ),
                ).with_flag(FlagRegisterValue::Zero, false),
                program_counter: pc_wrap(old(self).program_counter + 1),
                ..*old(self)
            }),
    {
        let value = self.registers.get(GeneralRegister::A);
        let result = self.rr_inner(value);
        self.registers.set(GeneralRegister::A, result);
        self.registers.unset_flag(FlagRegisterValue::Zero);
        self.program_counter = self.program_counter.wrapping_add(1);
    }

    /// The shared body of the 8-bit ADD family: add `value` into A and
    /// write all four flags.  Leaves the program counter alone.
    pub fn add_inner(&mut self, value: u8)
        ensures
            *final(self) == (Cpu { registers: add_registers(old(self).registers, value), ..*old(self) }),
    {
        let a_value = self.registers.get(GeneralRegister::A);
        let result = a_value.wrapping_add(value);
        self.registers.set(GeneralRegister::A, result);
        self.registers.toggle_flag(FlagRegisterValue::Zero, result == 0);
        self.registers.unset_flag(FlagRegisterValue::Negative);
        self.registers.toggle_flag(FlagRegisterValue::HalfCarry, a_value % 16 + value % 16 > 15);
        self.registers.toggle_flag(
            FlagRegisterValue::Carry,
            a_value as u16 + value as u16 > 255,
        );
    }

    /// The shared body of ADC: the three-term sum of A, the operand and
    /// the incoming Carry flag.
    pub fn adc_inner(&mut self, value: u8)
        ensures
            *final(self) == (Cpu { registers: adc_registers(old(self).registers, value), ..*old(self) }),
    {
        let carry = self.carry_val();
        let a_value = self.registers.get(GeneralRegister::A);
        let sum = a_value as u16 + value as u16 + carry as u16;
        let result = (sum % 256) as u8;
        self.registers.set(GeneralRegister::A, result);
        self.registers.toggle_flag(FlagRegisterValue::Zero, result == 0);
        self.registers.unset_flag(FlagRegisterValue::Negative);
        self.registers.toggle_flag(
            FlagRegisterValue::HalfCarry,
            a_value % 16 + value % 16 + carry > 15,
        );
        self.registers.toggle_flag(FlagRegisterValue::Carry, sum > 255);
    }

    /// The shared body of the 8-bit SUB family.
    pub fn sub_inner(&mut self, value: u8)
        ensures
            *final(self) == (Cpu { registers: sub_registers(old(self).registers, value), ..*old(self) }),
    {
        let a_value = self.registers.get(GeneralRegister::A);
        let result = a_value.wrapping_sub(value);
        self.registers.toggle_flag(FlagRegisterValue::Zero, result == 0);
        self.registers.set_flag(FlagRegisterValue::Negative);
        self.registers.toggle_flag(FlagRegisterValue::HalfCarry, a_value % 16 < value % 16);
        self.registers.toggle_flag(FlagRegisterValue::Carry, value > a_value);
        self.registers.set(GeneralRegister::A, result);
    }

    /// The shared body of SBC: the three-term difference of A, the
    /// operand and the incoming Carry flag.
    #[verifier::rlimit(100)]
    #[verifier::spinoff_prover]
    pub fn sbc_inner(&mut self, value: u8)
        ensures
            *final(self) == (Cpu { registers: sbc_registers(old(self).registers, value), ..*old(self) }),
    {
        let carry = self.carry_val();
        let a_value = self.registers.get(GeneralRegister::A);
        let difference = (a_value as u16).wrapping_sub(value as u16).wrapping_sub(carry as u16);
        let result = (difference % 256) as u8;
        self.registers.toggle_flag(FlagRegisterValue::Zero, result == 0);
        self.registers.set_flag(FlagRegisterValue::Negative);
        self.registers.toggle_flag(
            FlagRegisterValue::HalfCarry,
            a_value % 16 < value % 16 + carry,
        );
        self.registers.toggle_flag(
            FlagRegisterValue::Carry,
            value as u16 + carry as u16 > a_value as u16,
        );
        self.registers.set(GeneralRegister::A, result);
    }

    /// The shared body of AND.
    pub fn and_inner(&mut self, value: u8)
        ensures
            *final(self) == (Cpu { registers: and_registers(old(self).registers, value), ..*old(self) }),
    {
        let a_value = self.registers.get(GeneralRegister::A);
        let result = a_value & value;
        self.registers.set(GeneralRegister::A, result);
        self.registers.toggle_flag(FlagRegisterValue::Zero, result == 0);
        self.registers.unset_flag(FlagRegisterValue::Negative);
        self.registers.set_flag(FlagRegisterValue::HalfCarry);
        self.registers.unset_flag(FlagRegisterValue::Carry);
    }

    /// The shared body of XOR.
    pub fn xor_inner(&mut self, value: u8)
        ensures
            *final(self) == (Cpu { registers: xor_registers(old(self).registers, value), ..*old(self) }),
    {
        let a_value = self.registers.get(GeneralRegister::A);
        let result = a_value ^ value;
        self.registers.set(GeneralRegister::A, result);
        self.registers.toggle_flag(FlagRegisterValue::Zero, result == 0);
        self.registers.unset_flag(FlagRegisterValue::Negative);
        self.registers.unset_flag(FlagRegisterValue::HalfCarry);
        self.registers.unset_flag(FlagRegisterValue::Carry);
    }

    /// The shared body of OR.
    pub fn or_inner(&mut self, value: u8)
        ensures
            *final(self) == (Cpu { registers: or_registers(old(self).registers, value), ..*old(self) }),
    {
        let a_value = self.registers.get(GeneralRegister::A);
        let result = a_value | value;
        self.registers.set(GeneralRegister::A, result);
        self.registers.toggle_flag(FlagRegisterValue::Zero, result == 0);
        self.registers.unset_flag(FlagRegisterValue::Negative);
        self.registers.unset_flag(FlagRegisterValue::HalfCarry);
        self.registers.unset_flag(FlagRegisterValue::Carry);
    }

    /// The shared body of CP: subtraction flags with A unchanged.
    pub fn cp_inner(&mut self, value: u8)
        ensures
            *final(self) == (Cpu { registers: cp_registers(old(self).registers, value), ..*old(self) }),
    {
        let a_value = self.registers.get(GeneralRegister::A);
        self.registers.toggle_flag(FlagRegisterValue::Zero, a_value == value);
        self.registers.set_flag(FlagRegisterValue::Negative);
        self.registers.toggle_flag(FlagRegisterValue::HalfCarry, a_value % 16 < value % 16);
        self.registers.toggle_flag(FlagRegisterValue::Carry, value > a_value);
    }

    /// The shared body of the 16-bit ADD family: add into HL, leaving the
    /// Zero flag untouched.
    #[verifier::rlimit(100)]
    #[verifier::spinoff_prover]
    pub fn add_16_inner(&mut self, value: u16)
        ensures
            *final(self) == (Cpu {
                registers: add16_registers(old(self).registers, value),
                ..*old(self)
            }),
    {
        let hl_val = self.registers.get16(CombinedRegister::HL);
        let result = hl_val.wrapping_add(value);
        self.registers.set16(CombinedRegister::HL, result);
        self.registers.unset_flag(FlagRegisterValue::Negative);
        self.registers.toggle_flag(
            FlagRegisterValue::HalfCarry,
            hl_val % 0x1000 + value % 0x1000 > 0xfff,
        );
        self.registers.toggle_flag(
            FlagRegisterValue::Carry,
            hl_val as u32 + value as u32 > 0xffff,
        );
    }

    /// The shared body of RL: rotate left through Carry and write the
    /// rotate flags; the caller stores the result.
    pub fn rl_inner(&mut self, value: u8) -> (r: u8)
        ensures
            r == rl_result(old(self).registers.spec_flag(FlagRegisterValue::Carry), value),
            *final(self) == (Cpu {
                registers: rotate_flags(old(self).registers, r, value >= 128),
                ..*old(self)
            }),
    {
        let carry = self.carry_val();
        let will_carry = value >= 128;
        let result = (value % 128) * 2 + carry;
        self.registers.toggle_flag(FlagRegisterValue::Zero, result == 0);
        self.registers.unset_flag(FlagRegisterValue::Negative);
        self.registers.unset_flag(FlagRegisterValue::HalfCarry);
        self.registers.toggle_flag(FlagRegisterValue::Carry, will_carry);
        result
    }

    /// The shared body of RLC: rotate left circularly.
    pub fn rlc_inner(&mut self, value: u8) -> (r: u8)
        ensures
            r == rlc_result(value),
            *final(self) == (Cpu {
                registers: rotate_flags(old(self).registers, r, value >= 128),
                ..*old(self)
            }),
    {
        let will_carry = value >= 128;
        let result = (value % 128) * 2 + (value / 128);
        self.registers.toggle_flag(FlagRegisterValue::Zero, result == 0);
        self.registers.unset_flag(FlagRegisterValue::Negative);
        self.registers.unset_flag(FlagRegisterValue::HalfCarry);
        self.registers.toggle_flag(FlagRegisterValue::Carry, will_carry);
        result
    }

    /// The shared body of RR: rotate right through Carry.
    pub fn rr_inner(&mut self, value: u8) -> (r: u8)
        ensures
            r == rr_result(old(self).registers.spec_flag(FlagRegisterValue::Carry), value),
            *final(self) == (Cpu {
                registers: rotate_flags(old(self).registers, r, value % 2 == 1),
                ..*old(self)
            }),
    {
        let carry = self.carry_val();
        let will_carry = value % 2 == 1;
        let result = value / 2 + carry * 128;
        self.registers.toggle_flag(FlagRegisterValue::Zero, result == 0);
        self.registers.unset_flag(FlagRegisterValue::Negative);
        self.registers.unset_flag(FlagRegisterValue::HalfCarry);
        self.registers.toggle_flag(FlagRegisterValue::Carry, will_carry);
        result
    }

    /// The shared body of RRC: rotate right circularly.
    pub fn rrc_inner(&mut self, value: u8) -> (r: u8)
        ensures
            r == rrc_result(value),
            *final(self) == (Cpu {
                registers: rotate_flags(old(self).registers, r, value % 2 == 1),
                ..*old(self)
            }),
    {
        let will_carry = value % 2 == 1;
        let result = value / 2 + (value % 2) * 128;
        self.registers.toggle_flag(FlagRegisterValue::Zero, result == 0);
        self.registers.unset_flag(FlagRegisterValue::Negative);
        self.registers.unset_flag(FlagRegisterValue::HalfCarry);
        self.registers.toggle_flag(FlagRegisterValue::Carry, will_carry);
        result
    }

    /// The shared body of BIT: test one bit of a value, touching only the
    /// flags — never the value itself.
    pub fn bit_inner(&mut self, bit: u8, value: u8)
        requires
            bit < 8,
        ensures
            *final(self) == (Cpu {
                registers: bit_flags(old(self).registers, bit, value),
                ..*old(self)
            }),
    {
        let mask: u8 = 1u8 << bit;
        self.registers.toggle_flag(FlagRegisterValue::Zero, value & mask == 0);
        self.registers.unset_flag(FlagRegisterValue::Negative);
        self.registers.set_flag(FlagRegisterValue::HalfCarry);
    }
}


impl Cpu {
    /// ADD A, d8: the operand is the immediate byte.
    pub fn add_d8(&mut self, mbc: &MBC) -> (r: Result<(), MemoryError>)
        requires
            mbc@.wf(),
        ensures
            r == imm8_fetch(*old(self), mbc@),
            r is Ok ==> *final(self) == (Cpu {
                registers: add_registers(old(self).registers, imm8(*old(self), mbc@)),
                program_counter: pc_wrap(old(self).program_counter + 2),
                ..*old(self)
            }),
            r is Err ==> *final(self) == *old(self),
    {
        let value = match mbc.get_next_u8(self.program_counter as usize) {
            Ok(v) => v,
            Err(e) => {
                return Err(e);
            }
        };
        self.add_inner(value);
        self.program_counter = self.program_counter.wrapping_add(2);
        Ok(())
    }

    /// ADD A, (rr): the operand is the byte addressed by a combined register.
    pub fn add_mem_rr(&mut self, mbc: &MBC, register: CombinedRegister) -> (r: Result<
        (),
        MemoryError,
    >)
        requires
            mbc@.wf(),
        ensures
            r == addr_fetch(mbc@, old(self).registers.spec_get16(register) as int),
            r is Ok ==> *final(self) == (Cpu {
                registers: add_registers(
                    old(self).registers,
                    mbc@.read_value(old(self).registers.spec_get16(register) as int),
                ),
                program_counter: pc_wrap(old(self).program_counter + 1),
                ..*old(self)
            }),
            r is Err ==> *final(self) == *old(self),
    {
        let location = self.registers.get16(register) as usize;
        let value = match mbc.read(location) {
            Ok(v) => v,
            Err(e) => {
                return Err(e);
            }
        };
        self.add_inner(value);
        self.program_counter = self.program_counter.wrapping_add(1);
        Ok(())
    }

    /// ADC A, d8: the operand is the immediate byte.
    pub fn adc_d8(&mut self, mbc: &MBC) -> (r: Result<(), MemoryError>)
        requires
            mbc@.wf(),
        ensures
            r == imm8_fetch(*old(self), mbc@),
            r is Ok ==> *final(self) == (Cpu {
                registers: adc_registers(old(self).registers, imm8(*old(self), mbc@)),
                program_counter: pc_wrap(old(self).program_counter + 2),
                ..*old(self)
            }),
            r is Err ==> *final(self) == *old(self),
    {
        let value = match mbc.get_next_u8(self.program_counter as usize) {
            Ok(v) => v,
            Err(e) => {
                return Err(e);
            }
        };
        self.adc_inner(value);
        self.program_counter = self.program_counter.wrapping_add(2);
        Ok(())
    }

    /// ADC A, (rr): the operand is the byte addressed by a combined register.
    pub fn adc_mem_rr(&mut self, mbc: &MBC, register: CombinedRegister) -> (r: Result<
        (),
        MemoryError,
    >)
        requires
            mbc@.wf(),
        ensures
            r == addr_fetch(mbc@, old(self).registers.spec_get16(register) as int),
            r is Ok ==> *final(self) == (Cpu {
                registers: adc_registers(
                    old(self).registers,
                    mbc@.read_value(old(self).registers.spec_get16(register) as int),
                ),
                program_counter: pc_wrap(old(self).program_counter + 1),
                ..*old(self)
            }),
            r is Err ==> *final(self) == *old(self),
    {
        let location = self.registers.get16(register) as usize;
        let value = match mbc.read(location) {
            Ok(v) => v,
            Err(e) => {
                return Err(e);
            }
        };
        self.adc_inner(value);
        self.program_counter = self.program_counter.wrapping_add(1);
        Ok(())
    }

    /// SUB A, d8: the operand is the immediate byte.
    pub fn sub_d8(&mut self, mbc: &MBC) -> (r: Result<(), MemoryError>)
        requires
            mbc@.wf(),
        ensures
            r == imm8_fetch(*old(self), mbc@),
            r is Ok ==> *final(self) == (Cpu {
                registers: sub_registers(old(self).registers, imm8(*old(self), mbc@)),
                program_counter: pc_wrap(old(self).program_counter + 2),
                ..*old(self)
            }),
            r is Err ==> *final(self) == *old(self),
    {
        let value = match mbc.get_next_u8(self.program_counter as usize) {
            Ok(v) => v,
            Err(e) => {
                return Err(e);
            }
        };
        self.sub_inner(value);
        self.program_counter = self.program_counter.wrapping_add(2);
        Ok(())
    }

    /// SUB A, (rr): the operand is the byte addressed by a combined register.
    pub fn sub_mem_rr(&mut self, mbc: &MBC, register: CombinedRegister) -> (r: Result<
        (),
        MemoryError,
    >)
        requires
            mbc@.wf(),
        ensures
            r == addr_fetch(mbc@, old(self).registers.spec_get16(register) as int),
            r is Ok ==> *final(self) == (Cpu {
                registers: sub_registers(
                    old(self).registers,
                    mbc@.read_value(old(self).registers.spec_get16(register) as int),
                ),
                program_counter: pc_wrap(old(self).program_counter + 1),
                ..*old(self)
            }),
            r is Err ==> *final(self) == *old(self),
    {
        let location = self.registers.get16(register) as usize;
        let value = match mbc.read(location) {
            Ok(v) => v,
            Err(e) => {
                return Err(e);
            }
        };
        self.sub_inner(value);
        self.program_counter = self.program_counter.wrapping_add(1);
        Ok(())
    }

    /// SBC A, d8: the operand is the immediate byte.
    pub fn sbc_d8(&mut self, mbc: &MBC) -> (r: Result<(), MemoryError>)
        requires
            mbc@.wf(),
        ensures
            r == imm8_fetch(*old(self), mbc@),
            r is Ok ==> *final(self) == (Cpu {
                registers: sbc_registers(old(self).registers, imm8(*old(self), mbc@)),
                program_counter: pc_wrap(old(self).program_counter + 2),
                ..*old(self)
            }),
            r is Err ==> *final(self) == *old(self),
    {
        let value = match mbc.get_next_u8(self.program_counter as usize) {
            Ok(v) => v,
            Err(e) => {
                return Err(e);
            }
        };
        self.sbc_inner(value);
        self.program_counter = self.program_counter.wrapping_add(2);
        Ok(())
    }

    /// SBC A, (rr): the operand is the byte addressed by a combined register.
    pub fn sbc_mem_rr(&mut self, mbc: &MBC, register: CombinedRegister) -> (r: Result<
        (),
        MemoryError,
    >)
        requires
            mbc@.wf(),
        ensures
            r == addr_fetch(mbc@, old(self).registers.spec_get16(register) as int),
            r is Ok ==> *final(self) == (Cpu {
                registers: sbc_registers(
                    old(self).registers,
                    mbc@.read_value(old(self).registers.spec_get16(register) as int),
                ),
                program_counter: pc_wrap(old(self).program_counter + 1),
                ..*old(self)
            }),
            r is Err ==> *final(self) == *old(self),
    {
        let location = self.registers.get16(register) as usize;
        let value = match mbc.read(location) {
            Ok(v) => v,
            Err(e) => {
                return Err(e);
            }
        };
        self.sbc_inner(value);
        self.program_counter = self.program_counter.wrapping_add(1);
        Ok(())
    }

    /// AND A, d8: the operand is the immediate byte.
    pub fn and_d8(&mut self, mbc: &MBC) -> (r: Result<(), MemoryError>)
        requires
            mbc@.wf(),
        ensures
            r == imm8_fetch(*old(self), mbc@),
            r is Ok ==> *final(self) == (Cpu {
                registers: and_registers(old(self).registers, imm8(*old(self), mbc@)),
                program_counter: pc_wrap(old(self).program_counter + 2),
                ..*old(self)
            }),
            r is Err ==> *final(self) == *old(self),
    {
        let value = match mbc.get_next_u8(self.program_counter as usize) {
            Ok(v) => v,
            Err(e) => {
                return Err(e);
            }
        };
        self.and_inner(value);
        self.program_counter = self.program_counter.wrapping_add(2);
        Ok(())
    }

    /// AND A, (rr): the operand is the byte addressed by a combined register.
    pub fn and_mem_rr(&mut self, mbc: &MBC, register: CombinedRegister) -> (r: Result<
        (),
        MemoryError,
    >)
        requires
            mbc@.wf(),
        ensures
            r == addr_fetch(mbc@, old(self).registers.spec_get16(register) as int),
            r is Ok ==> *final(self) == (Cpu {
                registers: and_registers(
                    old(self).registers,
                    mbc@.read_value(old(self).registers.spec_get16(register) as int),
                ),
                program_counter: pc_wrap(old(self).program_counter + 1),
                ..*old(self)
            }),
            r is Err ==> *final(self) == *old(self),
    {
        let location = self.registers.get16(register) as usize;
        let value = match mbc.read(location) {
            Ok(v) => v,
            Err(e) => {
                return Err(e);
            }
        };
        self.and_inner(value);
        self.program_counter = self.program_counter.wrapping_add(1);
        Ok(())
    }

    /// XOR A, d8: the operand is the immediate byte.
    pub fn xor_d8(&mut self, mbc: &MBC) -> (r: Result<(), MemoryError>)
        requires
            mbc@.wf(),
        ensures
            r == imm8_fetch(*old(self), mbc@),
            r is Ok ==> *final(self) == (Cpu {
                registers: xor_registers(old(self).registers, imm8(*old(self), mbc@)),
                program_counter: pc_wrap(old(self).program_counter + 2),
                ..*old(self)
            }),
            r is Err ==> *final(self) == *old(self),
    {
        let value = match mbc.get_next_u8(self.program_counter as usize) {
            Ok(v) => v,
            Err(e) => {
                return Err(e);
            }
        };
        self.xor_inner(value);
        self.program_counter = self.program_counter.wrapping_add(2);
        Ok(())
    }

    /// XOR A, (rr): the operand is the byte addressed by a combined register.
    pub fn xor_mem_rr(&mut self, mbc: &MBC, register: CombinedRegister) -> (r: Result<
        (),
        MemoryError,
    >)
        requires
            mbc@.wf(),
        ensures
            r == addr_fetch(mbc@, old(self).registers.spec_get16(register) as int),
            r is Ok ==> *final(self) == (Cpu {
                registers: xor_registers(
                    old(self).registers,
                    mbc@.read_value(old(self).registers.spec_get16(register) as int),
                ),
                program_counter: pc_wrap(old(self).program_counter + 1),
                ..*old(self)
            }),
            r is Err ==> *final(self) == *old(self),
    {
        let location = self.registers.get16(register) as usize;
        let value = match mbc.read(location) {
            Ok(v) => v,
            Err(e) => {
                return Err(e);
            }
        };
        self.xor_inner(value);
        self.program_counter = self.program_counter.wrapping_add(1);
        Ok(())
    }

    /// OR A, d8: the operand is the immediate byte.
    pub fn or_d8(&mut self, mbc: &MBC) -> (r: Result<(), MemoryError>)
        requires
            mbc@.wf(),
        ensures
            r == imm8_fetch(*old(self), mbc@),
            r is Ok ==> *final(self) == (Cpu {
                registers: or_registers(old(self).registers, imm8(*old(self), mbc@)),
                program_counter: pc_wrap(old(self).program_counter + 2),
                ..*old(self)
            }),
            r is Err ==> *final(self) == *old(self),
    {
        let value = match mbc.get_next_u8(self.program_counter as usize) {
            Ok(v) => v,
            Err(e) => {
                return Err(e);
            }
        };
        self.or_inner(value);
        self.program_counter = self.program_counter.wrapping_add(2);
        Ok(())
    }

    /// OR A, (rr): the operand is the byte addressed by a combined register.
    pub fn or_mem_rr(&mut self, mbc: &MBC, register: CombinedRegister) -> (r: Result<
        (),
        MemoryError,
    >)
        requires
            mbc@.wf(),
        ensures
            r == addr_fetch(mbc@, old(self).registers.spec_get16(register) as int),
            r is Ok ==> *final(self) == (Cpu {
                registers: or_registers(
                    old(self).registers,
                    mbc@.read_value(old(self).registers.spec_get16(register) as int),
                ),
                program_counter: pc_wrap(old(self).program_counter + 1),
                ..*old(self)
            }),
            r is Err ==> *final(self) == *old(self),
    {
        let location = self.registers.get16(register) as usize;
        let value = match mbc.read(location) {
            Ok(v) => v,
            Err(e) => {
                return Err(e);
            }
        };
        self.or_inner(value);
        self.program_counter = self.program_counter.wrapping_add(1);
        Ok(())
    }

    /// CP A, d8: the operand is the immediate byte.
    pub fn cp_d8(&mut self, mbc: &MBC) -> (r: Result<(), MemoryError>)
        requires
            mbc@.wf(),
        ensures
            r == imm8_fetch(*old(self), mbc@),
            r is Ok ==> *final(self) == (Cpu {
                registers: cp_registers(old(self).registers, imm8(*old(self), mbc@)),
                program_counter: pc_wrap(old(self).program_counter + 2),
                ..*old(self)
            }),
            r is Err ==> *final(self) == *old(self),
    {
        let value = match mbc.get_next_u8(self.program_counter as usize) {
            Ok(v) => v,
            Err(e) => {
                return Err(e);
            }
        };
        self.cp_inner(value);
        self.program_counter = self.program_counter.wrapping_add(2);
        Ok(())
    }

    /// CP A, (rr): the operand is the byte addressed by a combined register.
    pub fn cp_mem_rr(&mut self, mbc: &MBC, register: CombinedRegister) -> (r: Result<
        (),
        MemoryError,
    >)
        requires
            mbc@.wf(),
        ensures
            r == addr_fetch(mbc@, old(self).registers.spec_get16(register) as int),
            r is Ok ==> *final(self) == (Cpu {
                registers: cp_registers(
                    old(self).registers,
                    mbc@.read_value(old(self).registers.spec_get16(register) as int),
                ),
                program_counter: pc_wrap(old(self).program_counter + 1),
                ..*old(self)
            }),
            r is Err ==> *final(self) == *old(self),
    {
        let location = self.registers.get16(register) as usize;
        let value = match mbc.read(location) {
            Ok(v) => v,
            Err(e) => {
                return Err(e);
            }
        };
        self.cp_inner(value);
        self.program_counter = self.program_counter.wrapping_add(1);
        Ok(())
    }

}


impl Cpu {
    /// LD r, d8: load the immediate byte into a register.
    pub fn ld_r_d8(&mut self, mbc: &MBC, register: GeneralRegister) -> (r: Result<
        (),
        MemoryError,
    >)
        requires
            mbc@.wf(),
        ensures
            r == imm8_fetch(*old(self), mbc@),
            r is Ok ==> *final(self) == (Cpu {
                registers: old(self).registers.with8(register, imm8(*old(self), mbc@)),
                program_counter: pc_wrap(old(self).program_counter + 2),
                ..*old(self)
            }),
            r is Err ==> *final(self) == *old(self),
    {
        let value = match mbc.get_next_u8(self.program_counter as usize) {
            Ok(v) => v,
            Err(e) => {
                return Err(e);
            }
        };
        self.registers.set(register, value);
        self.program_counter = self.program_counter.wrapping_add(2);
        Ok(())
    }

    /// LD rr, d16: load the immediate word into a combined register.
    pub fn ld_rr_d16(&mut self, mbc: &MBC, register: CombinedRegister) -> (r: Result<
        (),
        MemoryError,
    >)
        requires
            mbc@.wf(),
        ensures
            r == imm16_fetch(*old(self), mbc@),
            r is Ok ==> *final(self) == (Cpu {
                registers: old(self).registers.with16(register, imm16(*old(self), mbc@)),
                program_counter: pc_wrap(old(self).program_counter + 3),
                ..*old(self)
            }),
            r is Err ==> *final(self) == *old(self),
    {
        let value = match mbc.get_next_u16(self.program_counter as usize) {
            Ok(v) => v,
            Err(e) => {
                return Err(e);
            }
        };
        self.registers.set16(register, value);
        self.program_counter = self.program_counter.wrapping_add(3);
        Ok(())
    }

    /// LD sp, d16: load the immediate word into the stack pointer.
    pub fn ld_sp_d16(&mut self, mbc: &MBC) -> (r: Result<(), MemoryError>)
        requires
            mbc@.wf(),
        ensures
            r == imm16_fetch(*old(self), mbc@),
            r is Ok ==> *final(self) == (Cpu {
                stack_pointer: imm16(*old(self), mbc@),
                program_counter: pc_wrap(old(self).program_counter + 3),
                ..*old(self)
            }),
            r is Err ==> *final(self) == *old(self),
    {
        let value = match mbc.get_next_u16(self.program_counter as usize) {
            Ok(v) => v,
            Err(e) => {
                return Err(e);
            }
        };
        self.stack_pointer = value;
        self.program_counter = self.program_counter.wrapping_add(3);
        Ok(())
    }

    /// LD r, (rr): load the byte addressed by a combined register.
    pub fn ld_r_mem_rr(&mut self, mbc: &MBC, to: GeneralRegister, from_address: CombinedRegister)
        -> (r: Result<(), MemoryError>)
        requires
            mbc@.wf(),
        ensures
            r == addr_fetch(mbc@, old(self).registers.spec_get16(from_address) as int),
            r is Ok ==> *final(self) == (Cpu {
                registers: old(self).registers.with8(
                    to,
                    mbc@.read_value(old(self).registers.spec_get16(from_address) as int),
                ),
                program_counter: pc_wrap(old(self).program_counter + 1),
                ..*old(self)
            }),
            r is Err ==> *final(self) == *old(self),
    {
        let location = self.registers.get16(from_address) as usize;
        let value = match mbc.read(location) {
            Ok(v) => v,
            Err(e) => {
                return Err(e);
            }
        };
        self.registers.set(to, value);
        self.program_counter = self.program_counter.wrapping_add(1);
        Ok(())
    }

    /// LDI r, (rr): the load, then the address register incremented.
    pub fn ldi_r_mem_rr(&mut self, mbc: &MBC, to: GeneralRegister, from_address: CombinedRegister)
        -> (r: Result<(), MemoryError>)
        requires
            mbc@.wf(),
        ensures
            r == addr_fetch(mbc@, old(self).registers.spec_get16(from_address) as int),
            r is Ok ==> *final(self) == (Cpu {
                registers: old(self).registers.with8(
                    to,
                    mbc@.read_value(old(self).registers.spec_get16(from_address) as int),
                ).with16(
                    from_address,
                    pc_wrap(
                        old(self).registers.with8(
                            to,
                            mbc@.read_value(old(self).registers.spec_get16(from_address) as int),
                        ).spec_get16(from_address) + 1,
                    ),
                ),
                program_counter: pc_wrap(old(self).program_counter + 1),
                ..*old(self)
            }),
            r is Err ==> *final(self) == *old(self),
    {
        if let Err(e) = self.ld_r_mem_rr(mbc, to, from_address) {
            return Err(e);
        }
        self.registers.increment16(from_address);
        Ok(())
    }

    /// LDD r, (rr): the load, then the address register decremented.
    pub fn ldd_r_mem_rr(&mut self, mbc: &MBC, to: GeneralRegister, from_address: CombinedRegister)
        -> (r: Result<(), MemoryError>)
        requires
            mbc@.wf(),
        ensures
            r == addr_fetch(mbc@, old(self).registers.spec_get16(from_address) as int),
            r is Ok ==> *final(self) == (Cpu {
                registers: old(self).registers.with8(
                    to,
                    mbc@.read_value(old(self).registers.spec_get16(from_address) as int),
                ).with16(
                    from_address,
                    pc_wrap(
                        old(self).registers.with8(
                            to,
                            mbc@.read_value(old(self).registers.spec_get16(from_address) as int),
                        ).spec_get16(from_address) - 1,
                    ),
                ),
                program_counter: pc_wrap(old(self).program_counter + 1),
                ..*old(self)
            }),
            r is Err ==> *final(self) == *old(self),
    {
        if let Err(e) = self.ld_r_mem_rr(mbc, to, from_address) {
            return Err(e);
        }
        self.registers.decrement16(from_address);
        Ok(())
    }

    /// LD A, (FF00+a8): load from the high I/O page, indexed by the
    /// immediate byte.
    pub fn ld_a_mem_a8(&mut self, mbc: &MBC) -> (r: Result<(), MemoryError>)
        requires
            mbc@.wf(),
        ensures
            r == (if !imm8_ok(*old(self), mbc@) {
                imm8_fetch(*old(self), mbc@)
            } else {
                addr_fetch(mbc@, 0xFF00 + imm8(*old(self), mbc@))
            }),
            r is Ok ==> *final(self) == (Cpu {
                registers: old(self).registers.with8(
                    GeneralRegister::A,
                    mbc@.read_value(0xFF00 + imm8(*old(self), mbc@)),
                ),
                program_counter: pc_wrap(old(self).program_counter + 2),
                ..*old(self)
            }),
            r is Err ==> *final(self) == *old(self),
    {
        let offset = match mbc.get_next_u8(self.program_counter as usize) {
            Ok(v) => v,
            Err(e) => {
                return Err(e);
            }
        };
        let value = match mbc.read(0xFF00 + offset as usize) {
            Ok(v) => v,
            Err(e) => {
                return Err(e);
            }
        };
        self.registers.set(GeneralRegister::A, value);
        self.program_counter = self.program_counter.wrapping_add(2);
        Ok(())
    }

    /// LD A, (a16): load from the address in the immediate word.
    pub fn ld_a_mem_a16(&mut self, mbc: &MBC) -> (r: Result<(), MemoryError>)
        requires
            mbc@.wf(),
        ensures
            r == (if !imm16_ok(*old(self), mbc@) {
                imm16_fetch(*old(self), mbc@)
            } else {
                addr_fetch(mbc@, imm16(*old(self), mbc@) as int)
            }),
            r is Ok ==> *final(self) == (Cpu {
                registers: old(self).registers.with8(
                    GeneralRegister::A,
                    mbc@.read_value(imm16(*old(self), mbc@) as int),
                ),
                program_counter: pc_wrap(old(self).program_counter + 3),
                ..*old(self)
            }),
            r is Err ==> *final(self) == *old(self),
    {
        let location = match mbc.get_next_u16(self.program_counter as usize) {
            Ok(v) => v,
            Err(e) => {
                return Err(e);
            }
        };
        let value = match mbc.read(location as usize) {
            Ok(v) => v,
            Err(e) => {
                return Err(e);
            }
        };
        self.registers.set(GeneralRegister::A, value);
        self.program_counter = self.program_counter.wrapping_add(3);
        Ok(())
    }

    /// LD A, (FF00+r): load from the high I/O page, indexed by a
    /// register.
    pub fn ld_a_mem_r(&mut self, mbc: &MBC, register: GeneralRegister) -> (r: Result<
        (),
        MemoryError,
    >)
        requires
            mbc@.wf(),
        ensures
            r == addr_fetch(mbc@, 0xFF00 + old(self).registers.spec_get(register)),
            r is Ok ==> *final(self) == (Cpu {
                registers: old(self).registers.with8(
                    GeneralRegister::A,
                    mbc@.read_value(0xFF00 + old(self).registers.spec_get(register)),
                ),
                program_counter: pc_wrap(old(self).program_counter + 1),
                ..*old(self)
            }),
            r is Err ==> *final(self) == *old(self),
    {
        let offset = self.registers.get(register);
        let value = match mbc.read(0xFF00 + offset as usize) {
            Ok(v) => v,
            Err(e) => {
                return Err(e);
            }
        };
        self.registers.set(GeneralRegister::A, value);
        self.program_counter = self.program_counter.wrapping_add(1);
        Ok(())
    }

    /// JP: jump to the immediate address, unconditionally or gated on a
    /// flag.  A branch not taken skips the three-byte instruction.
    pub fn jp(&mut self, mbc: &MBC, flag: Option<FlagRegisterValue>, truthy: bool) -> (r: Result<
        (),
        MemoryError,
    >)
        requires
            mbc@.wf(),
        ensures
            r == (if condition_met(old(self).registers, flag, truthy) {
                imm16_fetch(*old(self), mbc@)
            } else {
                Ok(())
            }),
            r is Ok ==> *final(self) == (Cpu {
                program_counter: (if condition_met(old(self).registers, flag, truthy) {
                    imm16(*old(self), mbc@)
                } else {
                    pc_wrap(old(self).program_counter + 3)
                }),
                ..*old(self)
            }),
            r is Err ==> *final(self) == *old(self),
    {
        let taken = match flag {
            Some(f) => self.registers.is_flag_set(f) == truthy,
            None => true,
        };
        if taken {
            let target = match mbc.get_next_u16(self.program_counter as usize) {
                Ok(v) => v,
                Err(e) => {
                    return Err(e);
                }
            };
            self.program_counter = target;
        } else {
            self.program_counter = self.program_counter.wrapping_add(3);
        }
        Ok(())
    }

    /// JR: relative jump by the signed immediate byte, measured from the
    /// end of the two-byte instruction.  A branch not taken skips it.
    pub fn jr(&mut self, mbc: &MBC, flag: Option<FlagRegisterValue>, truthy: bool) -> (r: Result<
        (),
        MemoryError,
    >)
        requires
            mbc@.wf(),
        ensures
            r == (if condition_met(old(self).registers, flag, truthy) {
                imm8_fetch(*old(self), mbc@)
            } else {
                Ok(())
            }),
            r is Ok ==> *final(self) == (Cpu {
                program_counter: (if condition_met(old(self).registers, flag, truthy) {
                    jr_target(old(self).program_counter, imm8(*old(self), mbc@))
                } else {
                    pc_wrap(old(self).program_counter + 2)
                }),
                ..*old(self)
            }),
            r is Err ==> *final(self) == *old(self),
    {
        let taken = match flag {
            Some(f) => self.registers.is_flag_set(f) == truthy,
            None => true,
        };
        if taken {
            let offset = match mbc.get_next_u8(self.program_counter as usize) {
                Ok(v) => v,
                Err(e) => {
                    return Err(e);
                }
            };
            let base = self.program_counter.wrapping_add(2);
            self.program_counter = if offset < 128 {
                base.wrapping_add(offset as u16)
            } else {
                base.wrapping_add(offset as u16).wrapping_sub(256)
            };
        } else {
            self.program_counter = self.program_counter.wrapping_add(2);
        }
        Ok(())
    }

    /// RET: pop the return address into the program counter.
    pub fn ret(&mut self, mbc: &MBC) -> (r: Result<(), MemoryError>)
        requires
            mbc@.wf(),
        ensures
            r is Ok <==> pop_ok(*old(self), mbc@),
            r is Ok ==> *final(self) == (Cpu {
                program_counter: pop_value(*old(self), mbc@),
                stack_pointer: pc_wrap(old(self).stack_pointer + 2),
                ..*old(self)
            }),
            r is Err ==> *final(self) == *old(self),
            r matches Err(e) ==> e == pop_err(*old(self), mbc@),
    {
        let value = match self.pop_stack(mbc) {
            Ok(v) => v,
            Err(e) => {
                return Err(e);
            }
        };
        self.program_counter = value;
        Ok(())
    }

    /// RET f: return only when the named flag matches; otherwise step
    /// over the one-byte instruction.
    pub fn ret_f(&mut self, mbc: &MBC, flag: FlagRegisterValue, truthy: bool) -> (r: Result<
        (),
        MemoryError,
    >)
        requires
            mbc@.wf(),
        ensures
            r is Ok <==> (old(self).registers.spec_flag(flag) == truthy ==> pop_ok(
                *old(self),
                mbc@,
            )),
            r is Ok ==> *final(self) == (if old(self).registers.spec_flag(flag) == truthy {
                Cpu {
                    program_counter: pop_value(*old(self), mbc@),
                    stack_pointer: pc_wrap(old(self).stack_pointer + 2),
                    ..*old(self)
                }
            } else {
                Cpu { program_counter: pc_wrap(old(self).program_counter + 1), ..*old(self) }
            }),
            r is Err ==> *final(self) == *old(self),
            r matches Err(e) ==> e == pop_err(*old(self), mbc@),
    {
        if self.registers.is_flag_set(flag) == truthy {
            self.ret(mbc)
        } else {
            self.program_counter = self.program_counter.wrapping_add(1);
            Ok(())
        }
    }

    /// RETI: return, then enable interrupts.
    pub fn reti(&mut self, mbc: &MBC) -> (r: Result<(), MemoryError>)
        requires
            mbc@.wf(),
        ensures
            r is Ok <==> pop_ok(*old(self), mbc@),
            r is Ok ==> *final(self) == (Cpu {
                program_counter: pop_value(*old(self), mbc@),
                stack_pointer: pc_wrap(old(self).stack_pointer + 2),
                interrupts_enabled: true,
                ..*old(self)
            }),
            r is Err ==> *final(self) == *old(self),
            r matches Err(e) ==> e == pop_err(*old(self), mbc@),
    {
        if let Err(e) = self.ret(mbc) {
            return Err(e);
        }
        self.interrupts_enabled = true;
        Ok(())
    }

    /// POP rr: pop the top of the stack into a combined register.
    pub fn pop_rr(&mut self, mbc: &MBC, register: CombinedRegister) -> (r: Result<
        (),
        MemoryError,
    >)
        requires
            mbc@.wf(),
        ensures
            r is Ok <==> pop_ok(*old(self), mbc@),
            r is Ok ==> *final(self) == (Cpu {
                registers: old(self).registers.with16(register, pop_value(*old(self), mbc@)),
                stack_pointer: pc_wrap(old(self).stack_pointer + 2),
                program_counter: pc_wrap(old(self).program_counter + 1),
                ..*old(self)
            }),
            r is Err ==> *final(self) == *old(self),
            r matches Err(e) ==> e == pop_err(*old(self), mbc@),
    {
        let out = match self.pop_stack(mbc) {
            Ok(v) => v,
            Err(e) => {
                return Err(e);
            }
        };
        self.registers.set16(register, out);
        self.program_counter = self.program_counter.wrapping_add(1);
        Ok(())
    }
}


/// Storing one byte at an arbitrary address.
pub open spec fn addr_store(m: MbcView, location: int) -> Result<(), MemoryError> {
    if m.write_ok(location) {
        Ok(())
    } else {
        Err(m.write_err(location))
    }
}

/// Whether CALL succeeds: the target word must be fetchable and both
/// stack cells must accept the pushed return address.
pub open spec fn call_result(pre: Cpu, m: MbcView) -> Result<(), MemoryError> {
    if !imm16_ok(pre, m) {
        imm16_fetch(pre, m)
    } else {
        push_stack_result(pre, m)
    }
}

impl Cpu {
    /// LD (rr), r: store a register at the address in a combined
    /// register.  A store into 0x0000-0x7FFF is a bank-control command.
    pub fn ld_mem_rr_r(&mut self, mbc: &mut MBC, to_address: CombinedRegister, from: GeneralRegister)
        -> (r: Result<(), MemoryError>)
        requires
            old(mbc)@.wf(),
        ensures
            r == addr_store(old(mbc)@, old(self).registers.spec_get16(to_address) as int),
            r is Ok ==> *final(self) == (Cpu {
                program_counter: pc_wrap(old(self).program_counter + 1),
                ..*old(self)
            }) && final(mbc)@ == old(mbc)@.write_effect(
                old(self).registers.spec_get16(to_address) as int,
                old(self).registers.spec_get(from),
            ),
            r is Err ==> *final(self) == *old(self) && final(mbc)@ == old(mbc)@,
            final(mbc)@.wf(),
    {
        let location = self.registers.get16(to_address) as usize;
        let value = self.registers.get(from);
        if let Err(e) = mbc.write(location, value) {
            return Err(e);
        }
        self.program_counter = self.program_counter.wrapping_add(1);
        Ok(())
    }

    /// LDI (rr), r: the store, then the address register incremented.
    pub fn ldi_mem_rr_r(
        &mut self,
        mbc: &mut MBC,
        to_address: CombinedRegister,
        from: GeneralRegister,
    ) -> (r: Result<(), MemoryError>)
        requires
            old(mbc)@.wf(),
        ensures
            r == addr_store(old(mbc)@, old(self).registers.spec_get16(to_address) as int),
            r is Ok ==> *final(self) == (Cpu {
                registers: old(self).registers.with16(
                    to_address,
                    pc_wrap(old(self).registers.spec_get16(to_address) + 1),
                ),
                program_counter: pc_wrap(old(self).program_counter + 1),
                ..*old(self)
            }) && final(mbc)@ == old(mbc)@.write_effect(
                old(self).registers.spec_get16(to_address) as int,
                old(self).registers.spec_get(from),
            ),
            r is Err ==> *final(self) == *old(self) && final(mbc)@ == old(mbc)@,
            final(mbc)@.wf(),
    {
        if let Err(e) = self.ld_mem_rr_r(mbc, to_address, from) {
            return Err(e);
        }
        self.registers.increment16(to_address);
        Ok(())
    }

    /// LDD (rr), r: the store, then the address register decremented.
    pub fn ldd_mem_rr_r(
        &mut self,
        mbc: &mut MBC,
        to_address: CombinedRegister,
        from: GeneralRegister,
    ) -> (r: Result<(), MemoryError>)
        requires
            old(mbc)@.wf(),
        ensures
            r == addr_store(old(mbc)@, old(self).registers.spec_get16(to_address) as int),
            r is Ok ==> *final(self) == (Cpu {
                registers: old(self).registers.with16(
                    to_address,
                    pc_wrap(old(self).registers.spec_get16(to_address) - 1),
                ),
                program_counter: pc_wrap(old(self).program_counter + 1),
                ..*old(self)
            }) && final(mbc)@ == old(mbc)@.write_effect(
                old(self).registers.spec_get16(to_address) as int,
                old(self).registers.spec_get(from),
            ),
            r is Err ==> *final(self) == *old(self) && final(mbc)@ == old(mbc)@,
            final(mbc)@.wf(),
    {
        if let Err(e) = self.ld_mem_rr_r(mbc, to_address, from) {
            return Err(e);
        }
        self.registers.decrement16(to_address);
        Ok(())
    }

    /// LD (rr), d8: store the immediate byte at the address in a
    /// combined register.
    pub fn ld_mem_rr_d8(&mut self, mbc: &mut MBC, address: CombinedRegister) -> (r: Result<
        (),
        MemoryError,
    >)
        requires
            old(mbc)@.wf(),
        ensures
            r == (if !imm8_ok(*old(self), old(mbc)@) {
                imm8_fetch(*old(self), old(mbc)@)
            } else {
                addr_store(old(mbc)@, old(self).registers.spec_get16(address) as int)
            }),
            r is Ok ==> *final(self) == (Cpu {
                program_counter: pc_wrap(old(self).program_counter + 2),
                ..*old(self)
            }) && final(mbc)@ == old(mbc)@.write_effect(
                old(self).registers.spec_get16(address) as int,
                imm8(*old(self), old(mbc)@),
            ),
            r is Err ==> *final(self) == *old(self) && final(mbc)@ == old(mbc)@,
            final(mbc)@.wf(),
    {
        let value = match mbc.get_next_u8(self.program_counter as usize) {
            Ok(v) => v,
            Err(e) => {
                return Err(e);
            }
        };
        let location = self.registers.get16(address) as usize;
        if let Err(e) = mbc.write(location, value) {
            return Err(e);
        }
        self.program_counter = self.program_counter.wrapping_add(2);
        Ok(())
    }

    /// LD (FF00+a8), A: store A into the high I/O page, indexed by the
    /// immediate byte.
    pub fn ld_mem_a8_a(&mut self, mbc: &mut MBC) -> (r: Result<(), MemoryError>)
        requires
            old(mbc)@.wf(),
        ensures
            r == (if !imm8_ok(*old(self), old(mbc)@) {
                imm8_fetch(*old(self), old(mbc)@)
            } else {
                addr_store(old(mbc)@, 0xFF00 + imm8(*old(self), old(mbc)@))
            }),
            r is Ok ==> *final(self) == (Cpu {
                program_counter: pc_wrap(old(self).program_counter + 2),
                ..*old(self)
            }) && final(mbc)@ == old(mbc)@.write_effect(
                0xFF00 + imm8(*old(self), old(mbc)@),
                old(self).registers.spec_get(GeneralRegister::A),
            ),
            r is Err ==> *final(self) == *old(self) && final(mbc)@ == old(mbc)@,
            final(mbc)@.wf(),
    {
        let offset = match mbc.get_next_u8(self.program_counter as usize) {
            Ok(v) => v,
            Err(e) => {
                return Err(e);
            }
        };
        let value = self.registers.get(GeneralRegister::A);
        if let Err(e) = mbc.write(0xFF00 + offset as usize, value) {
            return Err(e);
        }
        self.program_counter = self.program_counter.wrapping_add(2);
        Ok(())
    }

    /// LD (FF00+r), A: store A into the high I/O page, indexed by a
    /// register.
    pub fn ld_mem_r_a(&mut self, mbc: &mut MBC, register: GeneralRegister) -> (r: Result<
        (),
        MemoryError,
    >)
        requires
            old(mbc)@.wf(),
        ensures
            r == addr_store(old(mbc)@, 0xFF00 + old(self).registers.spec_get(register)),
            r is Ok ==> *final(self) == (Cpu {
                program_counter: pc_wrap(old(self).program_counter + 1),
                ..*old(self)
            }) && final(mbc)@ == old(mbc)@.write_effect(
                0xFF00 + old(self).registers.spec_get(register),
                old(self).registers.spec_get(GeneralRegister::A),
            ),
            r is Err ==> *final(self) == *old(self) && final(mbc)@ == old(mbc)@,
            final(mbc)@.wf(),
    {
        let offset = self.registers.get(register);
        let value = self.registers.get(GeneralRegister::A);
        if let Err(e) = mbc.write(0xFF00 + offset as usize, value) {
            return Err(e);
        }
        self.program_counter = self.program_counter.wrapping_add(1);
        Ok(())
    }

    /// LD (a16), A: store A at the address in the immediate word.
    pub fn ld_mem_a16_a(&mut self, mbc: &mut MBC) -> (r: Result<(), MemoryError>)
        requires
            old(mbc)@.wf(),
        ensures
            r == (if !imm16_ok(*old(self), old(mbc)@) {
                imm16_fetch(*old(self), old(mbc)@)
            } else {
                addr_store(old(mbc)@, imm16(*old(self), old(mbc)@) as int)
            }),
            r is Ok ==> *final(self) == (Cpu {
                program_counter: pc_wrap(old(self).program_counter + 3),
                ..*old(self)
            }) && final(mbc)@ == old(mbc)@.write_effect(
                imm16(*old(self), old(mbc)@) as int,
                old(self).registers.spec_get(GeneralRegister::A),
            ),
            r is Err ==> *final(self) == *old(self) && final(mbc)@ == old(mbc)@,
            final(mbc)@.wf(),
    {
        let location = match mbc.get_next_u16(self.program_counter as usize) {
            Ok(v) => v,
            Err(e) => {
                return Err(e);
            }
        };
        let value = self.registers.get(GeneralRegister::A);
        if let Err(e) = mbc.write(location as usize, value) {
            return Err(e);
        }
        self.program_counter = self.program_counter.wrapping_add(3);
        Ok(())
    }

    /// LD (a16), sp: store the stack pointer little-endian at the
    /// address in the immediate word, low byte first.
    #[verifier::rlimit(100)]
    #[verifier::spinoff_prover]
    pub fn ld_mem_a16_sp(&mut self, mbc: &mut MBC) -> (r: Result<(), MemoryError>)
        requires
            old(mbc)@.wf(),
        ensures
            r == (if !imm16_ok(*old(self), old(mbc)@) {
                imm16_fetch(*old(self), old(mbc)@)
            } else if !old(mbc)@.write_ok(imm16(*old(self), old(mbc)@) as int) {
                addr_store(old(mbc)@, imm16(*old(self), old(mbc)@) as int)
            } else {
                addr_store(old(mbc)@, imm16(*old(self), old(mbc)@) + 1)
            }),
            r is Ok ==> *final(self) == (Cpu {
                program_counter: pc_wrap(old(self).program_counter + 3),
                ..*old(self)
            }) && final(mbc)@ == old(mbc)@.write_effect(
                imm16(*old(self), old(mbc)@) as int,
                (old(self).stack_pointer % 256) as u8,
            ).write_effect(
                imm16(*old(self), old(mbc)@) + 1,
                (old(self).stack_pointer / 256) as u8,
            ),
            r is Err ==> *final(self) == *old(self) && final(mbc)@ == old(mbc)@,
            final(mbc)@.wf(),
    {
        let location = match mbc.get_next_u16(self.program_counter as usize) {
            Ok(v) => v,
            Err(e) => {
                return Err(e);
            }
        } as usize;
        if let Err(e) = mbc.check_write(location) {
            return Err(e);
        }
        if let Err(e) = mbc.check_write(location + 1) {
            return Err(e);
        }
        let bytes = u16_to_u8s(self.stack_pointer);
        proof {
            crate::mbc::lemma_write_effect_preserves_write_ok(
                mbc@,
                location as int,
                bytes[1],
                location + 1,
            );
        }
        let _lo_write = mbc.write(location, bytes[1]);
        let _hi_write = mbc.write(location + 1, bytes[0]);
        self.program_counter = self.program_counter.wrapping_add(3);
        Ok(())
    }

    /// INC (rr): increment the byte addressed by a combined register in
    /// place; Carry untouched.
    pub fn inc_mem_rr(&mut self, mbc: &mut MBC, register: CombinedRegister) -> (r: Result<
        (),
        MemoryError,
    >)
        requires
            old(mbc)@.wf(),
        ensures
            r == addr_fetch(old(mbc)@, old(self).registers.spec_get16(register) as int),
            r is Ok ==> *final(self) == (Cpu {
                registers: old(self).registers.with_flag(
                    FlagRegisterValue::Zero,
                    (old(mbc)@.read_value(old(self).registers.spec_get16(register) as int) + 1)
                        % 256 == 0,
                ).with_flag(FlagRegisterValue::Negative, false).with_flag(
                    FlagRegisterValue::HalfCarry,
                    (old(mbc)@.read_value(old(self).registers.spec_get16(register) as int) + 1)
                        % 16 == 0,
                ),
                program_counter: pc_wrap(old(self).program_counter + 1),
                ..*old(self)
            }) && final(mbc)@ == old(mbc)@.write_effect(
                old(self).registers.spec_get16(register) as int,
                ((old(mbc)@.read_value(old(self).registers.spec_get16(register) as int) + 1)
                    % 256) as u8,
            ),
            r is Err ==> *final(self) == *old(self) && final(mbc)@ == old(mbc)@,
            final(mbc)@.wf(),
    {
        let location = self.registers.get16(register) as usize;
        let value = match mbc.read(location) {
            Ok(v) => v,
            Err(e) => {
                return Err(e);
            }
        };
        let result = value.wrapping_add(1);
        self.registers.toggle_flag(FlagRegisterValue::Zero, result == 0);
        self.registers.unset_flag(FlagRegisterValue::Negative);
        self.registers.toggle_flag(FlagRegisterValue::HalfCarry, result % 16 == 0);
        if let Err(e) = mbc.write(location, result) {
            return Err(e);
        }
        self.program_counter = self.program_counter.wrapping_add(1);
        Ok(())
    }

    /// DEC (rr): decrement the byte addressed by a combined register in
    /// place; Carry untouched.
    pub fn dec_mem_rr(&mut self, mbc: &mut MBC, register: CombinedRegister) -> (r: Result<
        (),
        MemoryError,
    >)
        requires
            old(mbc)@.wf(),
        ensures
            r == addr_fetch(old(mbc)@, old(self).registers.spec_get16(register) as int),
            r is Ok ==> *final(self) == (Cpu {
                registers: old(self).registers.with_flag(
                    FlagRegisterValue::Zero,
                    (old(mbc)@.read_value(old(self).registers.spec_get16(register) as int) - 1)
                        % 256 == 0,
                ).with_flag(FlagRegisterValue::Negative, true).with_flag(
                    FlagRegisterValue::HalfCarry,
                    (old(mbc)@.read_value(old(self).registers.spec_get16(register) as int) - 1)
                        % 256 % 16 == 15,
                ),
                program_counter: pc_wrap(old(self).program_counter + 1),
                ..*old(self)
            }) && final(mbc)@ == old(mbc)@.write_effect(
                old(self).registers.spec_get16(register) as int,
                ((old(mbc)@.read_value(old(self).registers.spec_get16(register) as int) - 1)
                    % 256) as u8,
            ),
            r is Err ==> *final(self) == *old(self) && final(mbc)@ == old(mbc)@,
            final(mbc)@.wf(),
    {
        let location = self.registers.get16(register) as usize;
        let value = match mbc.read(location) {
            Ok(v) => v,
            Err(e) => {
                return Err(e);
            }
        };
        let result = value.wrapping_sub(1);
        self.registers.toggle_flag(FlagRegisterValue::Zero, result == 0);
        self.registers.set_flag(FlagRegisterValue::Negative);
        self.registers.toggle_flag(FlagRegisterValue::HalfCarry, result % 16 == 15);
        if let Err(e) = mbc.write(location, result) {
            return Err(e);
        }
        self.program_counter = self.program_counter.wrapping_add(1);
        Ok(())
    }

    /// PUSH rr: push a combined register onto the stack.
    pub fn push_rr(&mut self, mbc: &mut MBC, register: CombinedRegister) -> (r: Result<
        (),
        MemoryError,
    >)
        requires
            old(mbc)@.wf(),
        ensures
            r == push_stack_result(*old(self), old(mbc)@),
            r is Ok ==> *final(self) == (Cpu {
                stack_pointer: pc_wrap(old(self).stack_pointer - 2),
                program_counter: pc_wrap(old(self).program_counter + 1),
                ..*old(self)
            }) && final(mbc)@ == push_stack_mem(
                *old(self),
                old(mbc)@,
                old(self).registers.spec_get16(register),
            ),
            r is Err ==> *final(self) == *old(self) && final(mbc)@ == old(mbc)@,
            final(mbc)@.wf(),
    {
        let value = self.registers.get16(register);
        if let Err(e) = self.push_stack(mbc, value) {
            return Err(e);
        }
        self.program_counter = self.program_counter.wrapping_add(1);
        Ok(())
    }

    /// CALL a16: push the address of the following instruction, high
    /// byte then low byte, and jump to the immediate target.
    #[verifier::rlimit(100)]
    #[verifier::spinoff_prover]
    pub fn call(&mut self, mbc: &mut MBC) -> (r: Result<(), MemoryError>)
        requires
            old(mbc)@.wf(),
        ensures
            r == call_result(*old(self), old(mbc)@),
            r is Ok ==> *final(self) == (Cpu {
                program_counter: imm16(*old(self), old(mbc)@),
                stack_pointer: pc_wrap(old(self).stack_pointer - 2),
                ..*old(self)
            }) && final(mbc)@ == push_stack_mem(
                *old(self),
                old(mbc)@,
                pc_wrap(old(self).program_counter + 3),
            ),
            r is Err ==> *final(self) == *old(self) && final(mbc)@ == old(mbc)@,
            final(mbc)@.wf(),
    {
        let target = match mbc.get_next_u16(self.program_counter as usize) {
            Ok(v) => v,
            Err(e) => {
                return Err(e);
            }
        };
        let return_address = self.program_counter.wrapping_add(3);
        if let Err(e) = self.push_stack(mbc, return_address) {
            return Err(e);
        }
        self.program_counter = target;
        Ok(())
    }

    /// CALL f, a16: call only when the named flag matches; otherwise
    /// step over the three-byte instruction.
    #[verifier::rlimit(100)]
    #[verifier::spinoff_prover]
    pub fn call_f_a16(&mut self, mbc: &mut MBC, flag: FlagRegisterValue, truthy: bool) -> (r:
        Result<(), MemoryError>)
        requires
            old(mbc)@.wf(),
        ensures
            r == (if old(self).registers.spec_flag(flag) == truthy {
                call_result(*old(self), old(mbc)@)
            } else {
                Ok(())
            }),
            r is Ok ==> *final(self) == (if old(self).registers.spec_flag(flag) == truthy {
                Cpu {
                    program_counter: imm16(*old(self), old(mbc)@),
                    stack_pointer: pc_wrap(old(self).stack_pointer - 2),
                    ..*old(self)
                }
            } else {
                Cpu { program_counter: pc_wrap(old(self).program_counter + 3), ..*old(self) }
            }),
            r is Ok ==> final(mbc)@ == (if old(self).registers.spec_flag(flag) == truthy {
                push_stack_mem(*old(self), old(mbc)@, pc_wrap(old(self).program_counter + 3))
            } else {
                old(mbc)@
            }),
            r is Err ==> *final(self) == *old(self) && final(mbc)@ == old(mbc)@,
            final(mbc)@.wf(),
    {
        if self.registers.is_flag_set(flag) == truthy {
            self.call(mbc)
        } else {
            self.program_counter = self.program_counter.wrapping_add(3);
            Ok(())
        }
    }
}


/// Law: BIT only writes flags.  The tested value is returned unchanged
/// by every register and by the whole bus; only the flag bits of F move.
pub proof fn lemma_bit_preserves_value(
    regs: Registers,
    bit: u8,
    value: u8,
    register: GeneralRegister,
)
    ensures
        register != GeneralRegister::F ==> bit_flags(regs, bit, value).spec_get(register)
            == regs.spec_get(register),
{
}

/// Law: CALL followed immediately by RET.  When the call target can be
/// fetched and both stack cells are plain storage, the CALL succeeds,
/// the RET that follows finds exactly the pushed return address — the
/// address of the instruction after the CALL — and the stack pointer
/// comes back to its pre-call value.
pub proof fn lemma_call_ret_round_trip(pre: Cpu, m: MbcView)
    requires
        m.wf(),
        imm16_ok(pre, m),
        m.data_cell((pre.stack_pointer - 1) % 0x10000),
        m.data_cell((pre.stack_pointer - 2) % 0x10000),
    ensures
        call_result(pre, m) is Ok,
        pop_ok(
            Cpu {
                program_counter: imm16(pre, m),
                stack_pointer: pc_wrap(pre.stack_pointer - 2),
                ..pre
            },
            push_stack_mem(pre, m, pc_wrap(pre.program_counter + 3)),
        ),
        pop_value(
            Cpu {
                program_counter: imm16(pre, m),
                stack_pointer: pc_wrap(pre.stack_pointer - 2),
                ..pre
            },
            push_stack_mem(pre, m, pc_wrap(pre.program_counter + 3)),
        ) == pc_wrap(pre.program_counter + 3),
        pc_wrap(pc_wrap(pre.stack_pointer - 2) + 2) == pre.stack_pointer,
{
    let ra = pc_wrap(pre.program_counter + 3);
    let hi_loc = (pre.stack_pointer - 1) % 0x10000;
    let lo_loc = (pre.stack_pointer - 2) % 0x10000;
    let hi_byte = (ra / 256) as u8;
    let lo_byte = (ra % 256) as u8;
    assert(hi_loc == lo_loc + 1) by {
        assert(lo_loc != 0xFFFF);
    }
    crate::mbc::lemma_write_then_read(m, hi_loc, hi_byte);
    let m1 = m.write_effect(hi_loc, hi_byte);
    assert(m1.data_cell(lo_loc));
    crate::mbc::lemma_write_then_read(m1, lo_loc, lo_byte);
    crate::mbc::lemma_adjacent_cells_independent(m1, lo_loc, lo_byte, hi_loc);
    let m2 = m1.write_effect(lo_loc, lo_byte);
    assert(m2.read_value(lo_loc) == lo_byte);
    assert(m2.read_value(hi_loc) == hi_byte);
    assert(hi_byte * 256 + lo_byte == ra);
}

} // verus!
