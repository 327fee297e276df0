//! The fetch-decode-execute core: program counter, stack pointer, register
//! file and interrupt-enable flag, stepped one instruction at a time
//! against a memory bus.
//!
//! Each instruction handler advances the program counter by its own
//! instruction length; taken jumps, calls and returns set it directly.
//! Undefined opcodes, instructions this core does not implement, and
//! memory accesses the bus rules out halt emulation with an error value
//! naming the opcode, program counter and address involved.

use vstd::prelude::*;

use crate::cpu_registers::{CombinedRegister, GeneralRegister, Registers};
use crate::ops::{
    adc_registers, add16_registers, add_registers, addr_fetch, addr_store, and_registers,
    bit_flags, call_result, condition_met, cp_registers, dec8_registers, imm16, imm16_fetch, imm16_ok, imm8,
    imm8_fetch, imm8_ok, inc8_registers, jr_target, or_registers, rl_result, rlc_result,
    rotate_flags, rr_result, rrc_result, sbc_registers, sub_registers, xor_registers,
};
use crate::flag_register::FlagRegisterValue;
use crate::mbc::{
    lemma_write_effect_preserves_write_ok, MbcView, MemoryError, MBC,
};
use crate::utils::u16_to_u8s;

verus! {

/// A 16-bit program-counter or stack-pointer value, wrapped.
pub open spec fn pc_wrap(value: int) -> u16 {
    (value % 0x10000) as u16
}

#[derive(Clone, Copy, Debug, PartialEq, Eq, Structural)]
pub enum StepError {
    /// The opcode fetch itself failed.
    Fetch { error: MemoryError, program_counter: u16 },
    /// An instruction's memory access failed.
    Memory { error: MemoryError, opcode: u8, program_counter: u16 },
    /// The opcode value is not assigned in the base table.
    UndefinedOpcode { opcode: u8, program_counter: u16 },
    /// The opcode is assigned but this core does not implement it.
    UnimplementedOpcode { opcode: u8, program_counter: u16 },
    /// The CB-prefixed sub-opcode is not implemented.
    UnimplementedPrefixedOpcode { opcode: u8, program_counter: u16 },
    /// A STOP instruction was executed.
    Stopped { program_counter: u16 },
}

pub struct Cpu {
    pub program_counter: u16,
    pub stack_pointer: u16,
    pub registers: Registers,
    pub interrupts_enabled: bool,
    pub current_op: u8,
}

impl Default for Cpu {
    /// A CPU with every register and counter zero and interrupts disabled.
    fn default() -> (r: Self)
        ensures
            r.program_counter == 0,
            r.stack_pointer == 0,
            forall|g: GeneralRegister| r.registers.spec_get(g) == 0,
            !r.interrupts_enabled,
            r.current_op == 0,
    {
        Cpu {
            program_counter: 0,
            stack_pointer: 0,
            registers: Registers::default(),
            interrupts_enabled: false,
            current_op: 0,
        }
    }
}

/// What popping a 16-bit value off the stack returns: the low byte at the
/// stack pointer, the high byte just above it.
pub open spec fn pop_stack_result(pre: Cpu, m: MbcView) -> Result<u16, MemoryError> {
    let lo_loc = pre.stack_pointer as int;
    let hi_loc = (pre.stack_pointer + 1) % 0x10000;
    if !m.read_ok(lo_loc) {
        Err(m.read_err(lo_loc))
    } else if !m.read_ok(hi_loc) {
        Err(m.read_err(hi_loc))
    } else {
        Ok((m.read_value(hi_loc) * 256 + m.read_value(lo_loc)) as u16)
    }
}

/// Whether both stack cells at and above the stack pointer can be read.
pub open spec fn pop_ok(pre: Cpu, m: MbcView) -> bool {
    m.read_ok(pre.stack_pointer as int) && m.read_ok((pre.stack_pointer + 1) % 0x10000)
}

/// The 16-bit value at the top of the stack: low byte at the stack
/// pointer, high byte above it.
pub open spec fn pop_value(pre: Cpu, m: MbcView) -> u16 {
    (m.read_value((pre.stack_pointer + 1) % 0x10000) * 256 + m.read_value(
        pre.stack_pointer as int,
    )) as u16
}

/// The error a failed pop reports: the lower stack cell is read first.
pub open spec fn pop_err(pre: Cpu, m: MbcView) -> MemoryError {
    if !m.read_ok(pre.stack_pointer as int) {
        m.read_err(pre.stack_pointer as int)
    } else {
        m.read_err((pre.stack_pointer + 1) % 0x10000)
    }
}

/// Whether pushing a 16-bit value succeeds: both stack cells, just below
/// the stack pointer, must accept a write.
pub open spec fn push_stack_result(pre: Cpu, m: MbcView) -> Result<(), MemoryError> {
    let hi_loc = (pre.stack_pointer - 1) % 0x10000;
    let lo_loc = (pre.stack_pointer - 2) % 0x10000;
    if !m.write_ok(hi_loc) {
        Err(m.write_err(hi_loc))
    } else if !m.write_ok(lo_loc) {
        Err(m.write_err(lo_loc))
    } else {
        Ok(())
    }
}

/// The bus after pushing a 16-bit value: high byte first, one below the
/// stack pointer, then the low byte below it.
pub open spec fn push_stack_mem(pre: Cpu, m: MbcView, value: u16) -> MbcView {
    let hi_loc = (pre.stack_pointer - 1) % 0x10000;
    let lo_loc = (pre.stack_pointer - 2) % 0x10000;
    m.write_effect(hi_loc, (value / 256) as u8).write_effect(lo_loc, (value % 256) as u8)
}

impl Cpu {
    /// The current Carry flag as the 0-or-1 operand of ADC and SBC.
    pub fn carry_val(&self) -> (r: u8)
        ensures
            r == (if self.registers.spec_flag(FlagRegisterValue::Carry) {
                1u8
            } else {
                0u8
            }),
    {
        if self.registers.is_flag_set(FlagRegisterValue::Carry) {
            1
        } else {
            0
        }
    }

    /// Pops a 16-bit value: low byte at the stack pointer, high byte above
    /// it, then moves the stack pointer up by two.
    pub fn pop_stack(&mut self, mbc: &MBC) -> (r: Result<u16, MemoryError>)
        requires
            mbc@.wf(),
        ensures
            r == pop_stack_result(*old(self), mbc@),
            r is Ok ==> *final(self) == (Cpu {
                stack_pointer: pc_wrap(old(self).stack_pointer + 2),
                ..*old(self)
            }),
            r is Err ==> *final(self) == *old(self),
    {
        let lo_loc = self.stack_pointer;
        let hi_loc = self.stack_pointer.wrapping_add(1);
        let low_byte = match mbc.read(lo_loc as usize) {
            Ok(v) => v,
            Err(e) => {
                return Err(e);
            }
        };
        let high_byte = match mbc.read(hi_loc as usize) {
            Ok(v) => v,
            Err(e) => {
                return Err(e);
            }
        };
        self.stack_pointer = self.stack_pointer.wrapping_add(2);
        Ok(crate::utils::u8s_to_u16(high_byte, low_byte))
    }

    /// Pushes a 16-bit value: the high byte one below the stack pointer,
    /// the low byte below it, then moves the stack pointer down by two.
    /// Either both cells accept the write or nothing changes.
    #[verifier::rlimit(100)]
    #[verifier::spinoff_prover]
    pub fn push_stack(&mut self, mbc: &mut MBC, value: u16) -> (r: Result<(), MemoryError>)
        requires
            old(mbc)@.wf(),
        ensures
            r == push_stack_result(*old(self), old(mbc)@),
            r is Ok ==> *final(self) == (Cpu {
                stack_pointer: pc_wrap(old(self).stack_pointer - 2),
                ..*old(self)
            }) && final(mbc)@ == push_stack_mem(*old(self), old(mbc)@, value),
            r is Err ==> *final(self) == *old(self) && final(mbc)@ == old(mbc)@,
            final(mbc)@.wf(),
    {
        let hi_loc = self.stack_pointer.wrapping_sub(1) as usize;
        let lo_loc = self.stack_pointer.wrapping_sub(2) as usize;
        if let Err(e) = mbc.check_write(hi_loc) {
            return Err(e);
        }
        if let Err(e) = mbc.check_write(lo_loc) {
            return Err(e);
        }
        let bytes = u16_to_u8s(value);
        proof {
            lemma_write_effect_preserves_write_ok(mbc@, hi_loc as int, bytes[0], lo_loc as int);
        }
        let _hi_write = mbc.write(hi_loc, bytes[0]);
        let _lo_write = mbc.write(lo_loc, bytes[1]);
        self.stack_pointer = self.stack_pointer.wrapping_sub(2);
        Ok(())
    }
}


/// A memory-level result lifted into a step result, naming the opcode and
/// program counter of the failing instruction.
pub open spec fn lift_memory(
    mr: Result<(), MemoryError>,
    opcode: u8,
    program_counter: u16,
) -> Result<(), StepError> {
    match mr {
        Ok(_) => Ok(()),
        Err(e) => Err(StepError::Memory { error: e, opcode, program_counter }),
    }
}

/// Whether popping the stack succeeds, as a unit result.
pub open spec fn pop_fetch(pre: Cpu, m: MbcView) -> Result<(), MemoryError> {
    if pop_ok(pre, m) {
        Ok(())
    } else {
        Err(pop_err(pre, m))
    }
}

/// One memory-touching dispatch step: the step result is the handler's
/// result lifted, the state is the handler's success effect or unchanged.
pub open spec fn mem_step(
    post: Cpu,
    post_m: MbcView,
    r: Result<(), StepError>,
    fetched: Cpu,
    m: MbcView,
    mr: Result<(), MemoryError>,
    ok_post: Cpu,
    ok_m: MbcView,
    opcode: u8,
    program_counter: u16,
) -> bool {
    &&& r == lift_memory(mr, opcode, program_counter)
    &&& (if mr is Ok {
        post == ok_post && post_m == ok_m
    } else {
        post == fetched && post_m == m
    })
}

/// One register-only dispatch step: always succeeds and leaves memory
/// alone.
pub open spec fn pure_step(
    post: Cpu,
    post_m: MbcView,
    r: Result<(), StepError>,
    ok_post: Cpu,
    m: MbcView,
) -> bool {
    &&& r is Ok
    &&& post == ok_post
    &&& post_m == m
}

/// The register an opcode's three operand bits select; index 6 is the
/// memory operand (HL) and is handled separately.
pub open spec fn operand_register(index: u8) -> GeneralRegister {
    if index == 0 {
        GeneralRegister::B
    } else if index == 1 {
        GeneralRegister::C
    } else if index == 2 {
        GeneralRegister::D
    } else if index == 3 {
        GeneralRegister::E
    } else if index == 4 {
        GeneralRegister::H
    } else if index == 5 {
        GeneralRegister::L
    } else {
        GeneralRegister::A
    }
}

fn operand_register_ex(index: u8) -> (r: GeneralRegister)
    ensures
        r == operand_register(index),
{
    if index == 0 {
        GeneralRegister::B
    } else if index == 1 {
        GeneralRegister::C
    } else if index == 2 {
        GeneralRegister::D
    } else if index == 3 {
        GeneralRegister::E
    } else if index == 4 {
        GeneralRegister::H
    } else if index == 5 {
        GeneralRegister::L
    } else {
        GeneralRegister::A
    }
}

/// What executing the CB-prefixed instruction at the program counter
/// returns: a memory error if the sub-opcode or its (HL) operand cannot
/// be accessed, an error naming the sub-opcode where this core does not
/// implement it (the shift-left, arithmetic shift-right, nibble-swap and
/// bit-set families, and the memory form of the logical right shift).
pub open spec fn prefix_result(pre: Cpu, m: MbcView) -> Result<(), StepError> {
    let pc = pre.program_counter;
    if !m.read_ok(pc + 1) {
        Err(StepError::Memory { error: m.read_err(pc + 1), opcode: 0xCB, program_counter: pc })
    } else {
        let op = m.read_value(pc + 1);
        let hl = pre.registers.spec_get16(CombinedRegister::HL) as int;
        if op < 0x20 || (0x40 <= op && op < 0xC0) {
            if op % 8 == 6 {
                if m.read_ok(hl) {
                    Ok(())
                } else {
                    Err(
                        StepError::Memory {
                            error: m.read_err(hl),
                            opcode: op,
                            program_counter: pc,
                        },
                    )
                }
            } else {
                Ok(())
            }
        } else if 0x38 <= op && op < 0x40 && op != 0x3E {
            Ok(())
        } else {
            Err(StepError::UnimplementedPrefixedOpcode { opcode: op, program_counter: pc })
        }
    }
}

/// The state after a successful CB-prefixed instruction, and no change
/// after a failed one.  The program counter always advances by two on
/// success: the prefix byte plus the sub-opcode byte.
pub open spec fn prefix_post(pre: Cpu, post: Cpu, m: MbcView, post_m: MbcView) -> bool {
    let pc = pre.program_counter;
    if !m.read_ok(pc + 1) {
        post == pre && post_m == m
    } else {
        let op = m.read_value(pc + 1);
        let target = op % 8;
        let reg = operand_register(target);
        let v_reg = pre.registers.spec_get(reg);
        let hl = pre.registers.spec_get16(CombinedRegister::HL) as int;
        let v_mem = m.read_value(hl);
        let carry = pre.registers.spec_flag(FlagRegisterValue::Carry);
        let advanced = pc_wrap(pc + 2);
        if op < 0x20 {
            let result_reg = (if op < 0x08 {
                rlc_result(v_reg)
            } else if op < 0x10 {
                rrc_result(v_reg)
            } else if op < 0x18 {
                rl_result(carry, v_reg)
            } else {
                rr_result(carry, v_reg)
            });
            let result_mem = (if op < 0x08 {
                rlc_result(v_mem)
            } else if op < 0x10 {
                rrc_result(v_mem)
            } else if op < 0x18 {
                rl_result(carry, v_mem)
            } else {
                rr_result(carry, v_mem)
            });
            let carry_reg = (if op < 0x10 {
                if op < 0x08 {
                    v_reg >= 128
                } else {
                    v_reg % 2 == 1
                }
            } else {
                if op < 0x18 {
                    v_reg >= 128
                } else {
                    v_reg % 2 == 1
                }
            });
            let carry_mem = (if op < 0x10 {
                if op < 0x08 {
                    v_mem >= 128
                } else {
                    v_mem % 2 == 1
                }
            } else {
                if op < 0x18 {
                    v_mem >= 128
                } else {
                    v_mem % 2 == 1
                }
            });
            if target == 6 {
                if m.read_ok(hl) {
                    post == (Cpu {
                        registers: rotate_flags(pre.registers, result_mem, carry_mem),
                        program_counter: advanced,
                        ..pre
                    }) && post_m == m.write_effect(hl, result_mem)
                } else {
                    post == pre && post_m == m
                }
            } else {
                post == (Cpu {
                    registers: rotate_flags(pre.registers, result_reg, carry_reg).with8(
                        reg,
                        result_reg,
                    ),
                    program_counter: advanced,
                    ..pre
                }) && post_m == m
            }
        } else if 0x38 <= op && op < 0x40 && op != 0x3E {
            post == (Cpu {
                registers: rotate_flags(pre.registers, v_reg / 2, v_reg % 2 == 1).with8(
                    reg,
                    v_reg / 2,
                ),
                program_counter: advanced,
                ..pre
            }) && post_m == m
        } else if 0x40 <= op && op < 0x80 {
            let bit = ((op - 0x40) / 8) as u8;
            if target == 6 {
                if m.read_ok(hl) {
                    post == (Cpu {
                        registers: bit_flags(pre.registers, bit, v_mem),
                        program_counter: advanced,
                        ..pre
                    }) && post_m == m
                } else {
                    post == pre && post_m == m
                }
            } else {
                post == (Cpu {
                    registers: bit_flags(pre.registers, bit, v_reg),
                    program_counter: advanced,
                    ..pre
                }) && post_m == m
            }
        } else if 0x80 <= op && op < 0xC0 {
            let bit = ((op - 0x80) / 8) as u8;
            if target == 6 {
                if m.read_ok(hl) {
                    post == (Cpu { program_counter: advanced, ..pre }) && post_m == m.write_effect(
                        hl,
                        v_mem & !(1u8 << bit),
                    )
                } else {
                    post == pre && post_m == m
                }
            } else {
                post == (Cpu {
                    registers: pre.registers.with8(reg, v_reg & !(1u8 << bit)),
                    program_counter: advanced,
                    ..pre
                }) && post_m == m
            }
        } else {
            post == pre && post_m == m
        }
    }
}

impl Cpu {
    /// Executes the CB-prefixed instruction whose sub-opcode follows the
    /// prefix byte: the rotate, shift, bit-test and bit-clear set.  On
    /// success the program counter advances by two.
    #[verifier::rlimit(100)]
    #[verifier::spinoff_prover]
    pub fn prefix(&mut self, mbc: &mut MBC) -> (r: Result<(), StepError>)
        requires
            old(mbc)@.wf(),
        ensures
            r == prefix_result(*old(self), old(mbc)@),
            prefix_post(*old(self), *final(self), old(mbc)@, final(mbc)@),
            final(mbc)@.wf(),
    {
        let pc = self.program_counter;
        let op = match mbc.get_next_u8(pc as usize) {
            Ok(v) => v,
            Err(e) => {
                return Err(StepError::Memory { error: e, opcode: 0xCB, program_counter: pc });
            }
        };
        let target = op % 8;
        let result: Result<(), MemoryError> = if op < 0x20 {
            let family = op / 8;
            if target == 6 {
                if family == 0 {
                    self.rlc_mem_rr(mbc, CombinedRegister::HL)
                } else if family == 1 {
                    self.rrc_mem_rr(mbc, CombinedRegister::HL)
                } else if family == 2 {
                    self.rl_mem_rr(mbc, CombinedRegister::HL)
                } else {
                    self.rr_mem_rr(mbc, CombinedRegister::HL)
                }
            } else {
                let register = operand_register_ex(target);
                if family == 0 {
                    self.rlc_r(register);
                } else if family == 1 {
                    self.rrc_r(register);
                } else if family == 2 {
                    self.rl_r(register);
                } else {
                    self.rr_r(register);
                }
                Ok(())
            }
        } else if 0x38 <= op && op < 0x40 && op != 0x3E {
            self.srl_r(operand_register_ex(target));
            Ok(())
        } else if 0x40 <= op && op < 0x80 {
            let bit = (op - 0x40) / 8;
            if target == 6 {
                self.bit_mem_rr(mbc, bit, CombinedRegister::HL)
            } else {
                self.bit_r(bit, operand_register_ex(target));
                Ok(())
            }
        } else if 0x80 <= op && op < 0xC0 {
            let bit = (op - 0x80) / 8;
            if target == 6 {
                self.res_mem_rr(mbc, bit)
            } else {
                self.res_r(bit, operand_register_ex(target));
                Ok(())
            }
        } else {
            return Err(StepError::UnimplementedPrefixedOpcode { opcode: op, program_counter: pc });
        };
        match result {
            Ok(_) => {
                self.program_counter = self.program_counter.wrapping_add(2);
                Ok(())
            }
            Err(e) => Err(StepError::Memory { error: e, opcode: op, program_counter: pc }),
        }
    }
}


/// The register file an 8-bit ALU-block instruction leaves behind, by
/// family: ADD, ADC, SUB, SBC, AND, XOR, OR, CP.
pub open spec fn alu8_registers(family: u8, regs: Registers, value: u8) -> Registers {
    if family == 0 {
        add_registers(regs, value)
    } else if family == 1 {
        adc_registers(regs, value)
    } else if family == 2 {
        sub_registers(regs, value)
    } else if family == 3 {
        sbc_registers(regs, value)
    } else if family == 4 {
        and_registers(regs, value)
    } else if family == 5 {
        xor_registers(regs, value)
    } else if family == 6 {
        or_registers(regs, value)
    } else {
        cp_registers(regs, value)
    }
}

/// The effect of one opcode of the register-to-register load block
/// 0x40-0x7F: target and source come from the opcode's bit fields, index
/// six naming the (HL) memory operand; the HALT slot is unimplemented.
pub open spec fn ld_block_post(
    op: u8,
    pre: Cpu,
    post: Cpu,
    m: MbcView,
    post_m: MbcView,
    r: Result<(), StepError>,
) -> bool {
    let pc = pre.program_counter;
    let t = ((op - 0x40) / 8) as u8;
    let s = op % 8;
    let hl = pre.registers.spec_get16(CombinedRegister::HL) as int;
    if op == 0x76 {
        &&& r == Err::<(), StepError>(
            StepError::UnimplementedOpcode { opcode: op, program_counter: pc },
        )
        &&& post == pre
        &&& post_m == m
    } else if s == 6 {
        mem_step(
            post,
            post_m,
            r,
            pre,
            m,
            addr_fetch(m, hl),
            Cpu {
                registers: pre.registers.with8(operand_register(t), m.read_value(hl)),
                program_counter: pc_wrap(pc + 1),
                ..pre
            },
            m,
            op,
            pc,
        )
    } else if t == 6 {
        mem_step(
            post,
            post_m,
            r,
            pre,
            m,
            addr_store(m, hl),
            Cpu { program_counter: pc_wrap(pc + 1), ..pre },
            m.write_effect(hl, pre.registers.spec_get(operand_register(s))),
            op,
            pc,
        )
    } else {
        pure_step(
            post,
            post_m,
            r,
            Cpu {
                registers: pre.registers.with8(
                    operand_register(t),
                    pre.registers.spec_get(operand_register(s)),
                ),
                program_counter: pc_wrap(pc + 1),
                ..pre
            },
            m,
        )
    }
}

/// The effect of one opcode of the ALU block 0x80-0xBF: the family comes
/// from the opcode's high bits, the operand from its low three.
pub open spec fn alu_block_post(
    op: u8,
    pre: Cpu,
    post: Cpu,
    m: MbcView,
    post_m: MbcView,
    r: Result<(), StepError>,
) -> bool {
    let pc = pre.program_counter;
    let f = ((op - 0x80) / 8) as u8;
    let s = op % 8;
    let hl = pre.registers.spec_get16(CombinedRegister::HL) as int;
    if s == 6 {
        mem_step(
            post,
            post_m,
            r,
            pre,
            m,
            addr_fetch(m, hl),
            Cpu {
                registers: alu8_registers(f, pre.registers, m.read_value(hl)),
                program_counter: pc_wrap(pc + 1),
                ..pre
            },
            m,
            op,
            pc,
        )
    } else {
        pure_step(
            post,
            post_m,
            r,
            Cpu {
                registers: alu8_registers(
                    f,
                    pre.registers,
                    pre.registers.spec_get(operand_register(s)),
                ),
                program_counter: pc_wrap(pc + 1),
                ..pre
            },
            m,
        )
    }
}

/// Wraps a handler's memory error with the opcode and program counter of
/// the failing instruction.
fn wrap_memory(mr: Result<(), MemoryError>, opcode: u8, program_counter: u16) -> (r: Result<
    (),
    StepError,
>)
    ensures
        r == lift_memory(mr, opcode, program_counter),
{
    match mr {
        Ok(_) => Ok(()),
        Err(e) => Err(StepError::Memory { error: e, opcode, program_counter }),
    }
}

impl Cpu {
    /// Dispatches one opcode of the load block 0x40-0x7F.
    #[verifier::rlimit(100)]
    #[verifier::spinoff_prover]
    fn apply_ld_block(&mut self, mbc: &mut MBC, op: u8) -> (r: Result<(), StepError>)
        requires
            old(mbc)@.wf(),
            0x40 <= op < 0x80,
        ensures
            ld_block_post(op, *old(self), *final(self), old(mbc)@, final(mbc)@, r),
            final(mbc)@.wf(),
    {
        let pc = self.program_counter;
        let t = (op - 0x40) / 8;
        let s = op % 8;
        if op == 0x76 {
            Err(StepError::UnimplementedOpcode { opcode: op, program_counter: pc })
        } else if s == 6 {
            wrap_memory(
                self.ld_r_mem_rr(mbc, operand_register_ex(t), CombinedRegister::HL),
                op,
                pc,
            )
        } else if t == 6 {
            wrap_memory(
                self.ld_mem_rr_r(mbc, CombinedRegister::HL, operand_register_ex(s)),
                op,
                pc,
            )
        } else {
            self.ld_r_r(operand_register_ex(t), operand_register_ex(s));
            Ok(())
        }
    }

    /// Dispatches one opcode of the ALU block 0x80-0xBF.
    #[verifier::rlimit(100)]
    #[verifier::spinoff_prover]
    fn apply_alu_block(&mut self, mbc: &mut MBC, op: u8) -> (r: Result<(), StepError>)
        requires
            old(mbc)@.wf(),
            0x80 <= op < 0xC0,
        ensures
            alu_block_post(op, *old(self), *final(self), old(mbc)@, final(mbc)@, r),
            final(mbc)@.wf(),
    {
        let pc = self.program_counter;
        let f = (op - 0x80) / 8;
        let s = op % 8;
        if s == 6 {
            let mr = if f == 0 {
                self.add_mem_rr(mbc, CombinedRegister::HL)
            } else if f == 1 {
                self.adc_mem_rr(mbc, CombinedRegister::HL)
            } else if f == 2 {
                self.sub_mem_rr(mbc, CombinedRegister::HL)
            } else if f == 3 {
                self.sbc_mem_rr(mbc, CombinedRegister::HL)
            } else if f == 4 {
                self.and_mem_rr(mbc, CombinedRegister::HL)
            } else if f == 5 {
                self.xor_mem_rr(mbc, CombinedRegister::HL)
            } else if f == 6 {
                self.or_mem_rr(mbc, CombinedRegister::HL)
            } else {
                self.cp_mem_rr(mbc, CombinedRegister::HL)
            };
            wrap_memory(mr, op, pc)
        } else {
            let register = operand_register_ex(s);
            if f == 0 {
                self.add_r(register);
            } else if f == 1 {
                self.adc_r(register);
            } else if f == 2 {
                self.sub_r(register);
            } else if f == 3 {
                self.sbc_r(register);
            } else if f == 4 {
                self.and_r(register);
            } else if f == 5 {
                self.xor_r(register);
            } else if f == 6 {
                self.or_r(register);
            } else {
                self.cp_r(register);
            }
            Ok(())
        }
    }
}


/// A dispatch step on an opcode the base table does not assign.
pub open spec fn undef_step(
    post: Cpu,
    post_m: MbcView,
    r: Result<(), StepError>,
    pre: Cpu,
    m: MbcView,
    op: u8,
) -> bool {
    &&& r == Err::<(), StepError>(
        StepError::UndefinedOpcode { opcode: op, program_counter: pre.program_counter },
    )
    &&& post == pre
    &&& post_m == m
}

/// A dispatch step on an assigned opcode this core does not implement.
pub open spec fn unimpl_step(
    post: Cpu,
    post_m: MbcView,
    r: Result<(), StepError>,
    pre: Cpu,
    m: MbcView,
    op: u8,
) -> bool {
    &&& r == Err::<(), StepError>(
        StepError::UnimplementedOpcode { opcode: op, program_counter: pre.program_counter },
    )
    &&& post == pre
    &&& post_m == m
}

/// A dispatch step on STOP: emulation halts.
pub open spec fn stopped_step(
    post: Cpu,
    post_m: MbcView,
    r: Result<(), StepError>,
    pre: Cpu,
    m: MbcView,
) -> bool {
    &&& r == Err::<(), StepError>(
        StepError::Stopped { program_counter: pre.program_counter },
    )
    &&& post == pre
    &&& post_m == m
}

/// A dispatch step into the CB-prefixed table.
pub open spec fn prefix_step(
    post: Cpu,
    post_m: MbcView,
    r: Result<(), StepError>,
    pre: Cpu,
    m: MbcView,
) -> bool {
    &&& r == prefix_result(pre, m)
    &&& prefix_post(pre, post, m, post_m)
}

/// The effect of one opcode of the irregular row 0x00-0x3F: loads,
/// 16-bit arithmetic, INC/DEC, accumulator rotates, relative jumps and
/// the control instructions.
pub open spec fn row0_post(
    op: u8,
    pre: Cpu,
    post: Cpu,
    m: MbcView,
    post_m: MbcView,
    r: Result<(), StepError>,
) -> bool {
    let pc = pre.program_counter;
    let regs = pre.registers;
    if op == 0x00 {
        pure_step(post, post_m, r, Cpu { program_counter: pc_wrap(pc + 1), ..pre }, m)
    } else if op == 0x01 {
        mem_step(post, post_m, r, pre, m, imm16_fetch(pre, m), Cpu { registers: regs.with16(CombinedRegister::BC, imm16(pre, m)), program_counter: pc_wrap(pc + 3), ..pre }, m, op, pc)
    } else if op == 0x02 {
        mem_step(post, post_m, r, pre, m, addr_store(m, regs.spec_get16(CombinedRegister::BC) as int), Cpu { program_counter: pc_wrap(pc + 1), ..pre }, m.write_effect(regs.spec_get16(CombinedRegister::BC) as int, regs.spec_get(GeneralRegister::A)), op, pc)
    } else if op == 0x03 {
        pure_step(post, post_m, r, Cpu { registers: regs.with16(CombinedRegister::BC, pc_wrap(regs.spec_get16(CombinedRegister::BC) + 1)), program_counter: pc_wrap(pc + 1), ..pre }, m)
    } else if op == 0x04 {
        pure_step(post, post_m, r, Cpu { registers: inc8_registers(regs, GeneralRegister::B), program_counter: pc_wrap(pc + 1), ..pre }, m)
    } else if op == 0x05 {
        pure_step(post, post_m, r, Cpu { registers: dec8_registers(regs, GeneralRegister::B), program_counter: pc_wrap(pc + 1), ..pre }, m)
    } else if op == 0x06 {
        mem_step(post, post_m, r, pre, m, imm8_fetch(pre, m), Cpu { registers: regs.with8(GeneralRegister::B, imm8(pre, m)), program_counter: pc_wrap(pc + 2), ..pre }, m, op, pc)
    } else if op == 0x07 {
        pure_step(post, post_m, r, Cpu { registers: rotate_flags(regs, rlc_result(regs.spec_get(GeneralRegister::A)), regs.spec_get(GeneralRegister::A) >= 128).with8(GeneralRegister::A, rlc_result(regs.spec_get(GeneralRegister::A))).with_flag(FlagRegisterValue::Zero, false), program_counter: pc_wrap(pc + 1), ..pre }, m)
    } else if op == 0x08 {
        mem_step(post, post_m, r, pre, m, (if !imm16_ok(pre, m) {
                    imm16_fetch(pre, m)
                } else if !m.write_ok(imm16(pre, m) as int) {
                    addr_store(m, imm16(pre, m) as int)
                } else {
                    addr_store(m, imm16(pre, m) + 1)
                }), Cpu { program_counter: pc_wrap(pc + 3), ..pre }, m.write_effect(imm16(pre, m) as int, (pre.stack_pointer % 256) as u8).write_effect(imm16(pre, m) + 1, (pre.stack_pointer / 256) as u8), op, pc)
    } else if op == 0x09 {
        pure_step(post, post_m, r, Cpu { registers: add16_registers(regs, regs.spec_get16(CombinedRegister::BC)), program_counter: pc_wrap(pc + 1), ..pre }, m)
    } else if op == 0x0A {
        mem_step(post, post_m, r, pre, m, addr_fetch(m, regs.spec_get16(CombinedRegister::BC) as int), Cpu { registers: regs.with8(GeneralRegister::A, m.read_value(regs.spec_get16(CombinedRegister::BC) as int)), program_counter: pc_wrap(pc + 1), ..pre }, m, op, pc)
    } else if op == 0x0B {
        pure_step(post, post_m, r, Cpu { registers: regs.with16(CombinedRegister::BC, pc_wrap(regs.spec_get16(CombinedRegister::BC) - 1)), program_counter: pc_wrap(pc + 1), ..pre }, m)
    } else if op == 0x0C {
        pure_step(post, post_m, r, Cpu { registers: inc8_registers(regs, GeneralRegister::C), program_counter: pc_wrap(pc + 1), ..pre }, m)
    } else if op == 0x0D {
        pure_step(post, post_m, r, Cpu { registers: dec8_registers(regs, GeneralRegister::C), program_counter: pc_wrap(pc + 1), ..pre }, m)
    } else if op == 0x0E {
        mem_step(post, post_m, r, pre, m, imm8_fetch(pre, m), Cpu { registers: regs.with8(GeneralRegister::C, imm8(pre, m)), program_counter: pc_wrap(pc + 2), ..pre }, m, op, pc)
    } else if op == 0x0F {
        pure_step(post, post_m, r, Cpu { registers: rotate_flags(regs, rrc_result(regs.spec_get(GeneralRegister::A)), regs.spec_get(GeneralRegister::A) % 2 == 1).with8(GeneralRegister::A, rrc_result(regs.spec_get(GeneralRegister::A))).with_flag(FlagRegisterValue::Zero, false), program_counter: pc_wrap(pc + 1), ..pre }, m)
    } else if op == 0x10 {
        stopped_step(post, post_m, r, pre, m)
    } else if op == 0x11 {
        mem_step(post, post_m, r, pre, m, imm16_fetch(pre, m), Cpu { registers: regs.with16(CombinedRegister::DE, imm16(pre, m)), program_counter: pc_wrap(pc + 3), ..pre }, m, op, pc)
    } else if op == 0x12 {
        mem_step(post, post_m, r, pre, m, addr_store(m, regs.spec_get16(CombinedRegister::DE) as int), Cpu { program_counter: pc_wrap(pc + 1), ..pre }, m.write_effect(regs.spec_get16(CombinedRegister::DE) as int, regs.spec_get(GeneralRegister::A)), op, pc)
    } else if op == 0x13 {
        pure_step(post, post_m, r, Cpu { registers: regs.with16(CombinedRegister::DE, pc_wrap(regs.spec_get16(CombinedRegister::DE) + 1)), program_counter: pc_wrap(pc + 1), ..pre }, m)
    } else if op == 0x14 {
        pure_step(post, post_m, r, Cpu { registers: inc8_registers(regs, GeneralRegister::D), program_counter: pc_wrap(pc + 1), ..pre }, m)
    } else if op == 0x15 {
        pure_step(post, post_m, r, Cpu { registers: dec8_registers(regs, GeneralRegister::D), program_counter: pc_wrap(pc + 1), ..pre }, m)
    } else if op == 0x16 {
        mem_step(post, post_m, r, pre, m, imm8_fetch(pre, m), Cpu { registers: regs.with8(GeneralRegister::D, imm8(pre, m)), program_counter: pc_wrap(pc + 2), ..pre }, m, op, pc)
    } else if op == 0x17 {
        pure_step(post, post_m, r, Cpu { registers: rotate_flags(regs, rl_result(regs.spec_flag(FlagRegisterValue::Carry), regs.spec_get(GeneralRegister::A)), regs.spec_get(GeneralRegister::A) >= 128).with8(GeneralRegister::A, rl_result(regs.spec_flag(FlagRegisterValue::Carry), regs.spec_get(GeneralRegister::A))).with_flag(FlagRegisterValue::Zero, false), program_counter: pc_wrap(pc + 1), ..pre }, m)
    } else if op == 0x18 {
        mem_step(post, post_m, r, pre, m, (if condition_met(regs, None::<FlagRegisterValue>, false) {
                    imm8_fetch(pre, m)
                } else {
                    Ok(())
                }), Cpu { program_counter: (if condition_met(regs, None::<FlagRegisterValue>, false) {
                        jr_target(pc, imm8(pre, m))
                    } else {
                        pc_wrap(pc + 2)
                    }), ..pre }, m, op, pc)
    } else if op == 0x19 {
        pure_step(post, post_m, r, Cpu { registers: add16_registers(regs, regs.spec_get16(CombinedRegister::DE)), program_counter: pc_wrap(pc + 1), ..pre }, m)
    } else if op == 0x1A {
        mem_step(post, post_m, r, pre, m, addr_fetch(m, regs.spec_get16(CombinedRegister::DE) as int), Cpu { registers: regs.with8(GeneralRegister::A, m.read_value(regs.spec_get16(CombinedRegister::DE) as int)), program_counter: pc_wrap(pc + 1), ..pre }, m, op, pc)
    } else if op == 0x1B {
        pure_step(post, post_m, r, Cpu { registers: regs.with16(CombinedRegister::DE, pc_wrap(regs.spec_get16(CombinedRegister::DE) - 1)), program_counter: pc_wrap(pc + 1), ..pre }, m)
    } else if op == 0x1C {
        pure_step(post, post_m, r, Cpu { registers: inc8_registers(regs, GeneralRegister::E), program_counter: pc_wrap(pc + 1), ..pre }, m)
    } else if op == 0x1D {
        pure_step(post, post_m, r, Cpu { registers: dec8_registers(regs, GeneralRegister::E), program_counter: pc_wrap(pc + 1), ..pre }, m)
    } else if op == 0x1E {
        mem_step(post, post_m, r, pre, m, imm8_fetch(pre, m), Cpu { registers: regs.with8(GeneralRegister::E, imm8(pre, m)), program_counter: pc_wrap(pc + 2), ..pre }, m, op, pc)
    } else if op == 0x1F {
        pure_step(post, post_m, r, Cpu { registers: rotate_flags(regs, rr_result(regs.spec_flag(FlagRegisterValue::Carry), regs.spec_get(GeneralRegister::A)), regs.spec_get(GeneralRegister::A) % 2 == 1).with8(GeneralRegister::A, rr_result(regs.spec_flag(FlagRegisterValue::Carry), regs.spec_get(GeneralRegister::A))).with_flag(FlagRegisterValue::Zero, false), program_counter: pc_wrap(pc + 1), ..pre }, m)
    } else if op == 0x20 {
        mem_step(post, post_m, r, pre, m, (if condition_met(regs, Some(FlagRegisterValue::Zero), false) {
                    imm8_fetch(pre, m)
                } else {
                    Ok(())
                }), Cpu { program_counter: (if condition_met(regs, Some(FlagRegisterValue::Zero), false) {
                        jr_target(pc, imm8(pre, m))
                    } else {
                        pc_wrap(pc + 2)
                    }), ..pre }, m, op, pc)
    } else if op == 0x21 {
        mem_step(post, post_m, r, pre, m, imm16_fetch(pre, m), Cpu { registers: regs.with16(CombinedRegister::HL, imm16(pre, m)), program_counter: pc_wrap(pc + 3), ..pre }, m, op, pc)
    } else if op == 0x22 {
        mem_step(post, post_m, r, pre, m, addr_store(m, regs.spec_get16(CombinedRegister::HL) as int), Cpu { registers: regs.with16(CombinedRegister::HL, pc_wrap(regs.spec_get16(CombinedRegister::HL) + 1)), program_counter: pc_wrap(pc + 1), ..pre }, m.write_effect(regs.spec_get16(CombinedRegister::HL) as int, regs.spec_get(GeneralRegister::A)), op, pc)
    } else if op == 0x23 {
        pure_step(post, post_m, r, Cpu { registers: regs.with16(CombinedRegister::HL, pc_wrap(regs.spec_get16(CombinedRegister::HL) + 1)), program_counter: pc_wrap(pc + 1), ..pre }, m)
    } else if op == 0x24 {
        pure_step(post, post_m, r, Cpu { registers: inc8_registers(regs, GeneralRegister::H), program_counter: pc_wrap(pc + 1), ..pre }, m)
    } else if op == 0x25 {
        pure_step(post, post_m, r, Cpu { registers: dec8_registers(regs, GeneralRegister::H), program_counter: pc_wrap(pc + 1), ..pre }, m)
    } else if op == 0x26 {
        mem_step(post, post_m, r, pre, m, imm8_fetch(pre, m), Cpu { registers: regs.with8(GeneralRegister::H, imm8(pre, m)), program_counter: pc_wrap(pc + 2), ..pre }, m, op, pc)
    } else if op == 0x27 {
        unimpl_step(post, post_m, r, pre, m, op)
    } else if op == 0x28 {
        mem_step(post, post_m, r, pre, m, (if condition_met(regs, Some(FlagRegisterValue::Zero), true) {
                    imm8_fetch(pre, m)
                } else {
                    Ok(())
                }), Cpu { program_counter: (if condition_met(regs, Some(FlagRegisterValue::Zero), true) {
                        jr_target(pc, imm8(pre, m))
                    } else {
                        pc_wrap(pc + 2)
                    }), ..pre }, m, op, pc)
    } else if op == 0x29 {
        pure_step(post, post_m, r, Cpu { registers: add16_registers(regs, regs.spec_get16(CombinedRegister::HL)), program_counter: pc_wrap(pc + 1), ..pre }, m)
    } else if op == 0x2A {
        mem_step(post, post_m, r, pre, m, addr_fetch(m, regs.spec_get16(CombinedRegister::HL) as int), Cpu { registers: regs.with8(GeneralRegister::A, m.read_value(regs.spec_get16(CombinedRegister::HL) as int)).with16(CombinedRegister::HL, pc_wrap(regs.with8(GeneralRegister::A, m.read_value(regs.spec_get16(CombinedRegister::HL) as int)).spec_get16(CombinedRegister::HL) + 1)), program_counter: pc_wrap(pc + 1), ..pre }, m, op, pc)
    } else if op == 0x2B {
        pure_step(post, post_m, r, Cpu { registers: regs.with16(CombinedRegister::HL, pc_wrap(regs.spec_get16(CombinedRegister::HL) - 1)), program_counter: pc_wrap(pc + 1), ..pre }, m)
    } else if op == 0x2C {
        pure_step(post, post_m, r, Cpu { registers: inc8_registers(regs, GeneralRegister::L), program_counter: pc_wrap(pc + 1), ..pre }, m)
    } else if op == 0x2D {
        pure_step(post, post_m, r, Cpu { registers: dec8_registers(regs, GeneralRegister::L), program_counter: pc_wrap(pc + 1), ..pre }, m)
    } else if op == 0x2E {
        mem_step(post, post_m, r, pre, m, imm8_fetch(pre, m), Cpu { registers: regs.with8(GeneralRegister::L, imm8(pre, m)), program_counter: pc_wrap(pc + 2), ..pre }, m, op, pc)
    } else if op == 0x2F {
        pure_step(post, post_m, r, Cpu { registers: regs.with_flag(FlagRegisterValue::Negative, true).with_flag(FlagRegisterValue::HalfCarry, true).with8(GeneralRegister::A, (255 - regs.spec_get(GeneralRegister::A)) as u8), program_counter: pc_wrap(pc + 1), ..pre }, m)
    } else if op == 0x30 {
        mem_step(post, post_m, r, pre, m, (if condition_met(regs, Some(FlagRegisterValue::Carry), false) {
                    imm8_fetch(pre, m)
                } else {
                    Ok(())
                }), Cpu { program_counter: (if condition_met(regs, Some(FlagRegisterValue::Carry), false) {
                        jr_target(pc, imm8(pre, m))
                    } else {
                        pc_wrap(pc + 2)
                    }), ..pre }, m, op, pc)
    } else if op == 0x31 {
        mem_step(post, post_m, r, pre, m, imm16_fetch(pre, m), Cpu { stack_pointer: imm16(pre, m), program_counter: pc_wrap(pc + 3), ..pre }, m, op, pc)
    } else if op == 0x32 {
        mem_step(post, post_m, r, pre, m, addr_store(m, regs.spec_get16(CombinedRegister::HL) as int), Cpu { registers: regs.with16(CombinedRegister::HL, pc_wrap(regs.spec_get16(CombinedRegister::HL) - 1)), program_counter: pc_wrap(pc + 1), ..pre }, m.write_effect(regs.spec_get16(CombinedRegister::HL) as int, regs.spec_get(GeneralRegister::A)), op, pc)
    } else if op == 0x33 {
        pure_step(post, post_m, r, Cpu { stack_pointer: pc_wrap(pre.stack_pointer + 1), program_counter: pc_wrap(pc + 1), ..pre }, m)
    } else if op == 0x34 {
        mem_step(post, post_m, r, pre, m, addr_fetch(m, regs.spec_get16(CombinedRegister::HL) as int), Cpu { registers: regs.with_flag(FlagRegisterValue::Zero, (m.read_value(regs.spec_get16(CombinedRegister::HL) as int) + 1) % 256 == 0).with_flag(FlagRegisterValue::Negative, false).with_flag(FlagRegisterValue::HalfCarry, (m.read_value(regs.spec_get16(CombinedRegister::HL) as int) + 1) % 16 == 0), program_counter: pc_wrap(pc + 1), ..pre }, m.write_effect(regs.spec_get16(CombinedRegister::HL) as int, ((m.read_value(regs.spec_get16(CombinedRegister::HL) as int) + 1) % 256) as u8), op, pc)
    } else if op == 0x35 {
        mem_step(post, post_m, r, pre, m, addr_fetch(m, regs.spec_get16(CombinedRegister::HL) as int), Cpu { registers: regs.with_flag(FlagRegisterValue::Zero, (m.read_value(regs.spec_get16(CombinedRegister::HL) as int) - 1) % 256 == 0).with_flag(FlagRegisterValue::Negative, true).with_flag(FlagRegisterValue::HalfCarry, (m.read_value(regs.spec_get16(CombinedRegister::HL) as int) - 1) % 256 % 16 == 15), program_counter: pc_wrap(pc + 1), ..pre }, m.write_effect(regs.spec_get16(CombinedRegister::HL) as int, ((m.read_value(regs.spec_get16(CombinedRegister::HL) as int) - 1) % 256) as u8), op, pc)
    } else if op == 0x36 {
        mem_step(post, post_m, r, pre, m, (if !imm8_ok(pre, m) {
                    imm8_fetch(pre, m)
                } else {
                    addr_store(m, regs.spec_get16(CombinedRegister::HL) as int)
                }), Cpu { program_counter: pc_wrap(pc + 2), ..pre }, m.write_effect(regs.spec_get16(CombinedRegister::HL) as int, imm8(pre, m)), op, pc)
    } else if op == 0x37 {
        pure_step(post, post_m, r, Cpu { registers: regs.with_flag(FlagRegisterValue::Carry, true).with_flag(FlagRegisterValue::Negative, false).with_flag(FlagRegisterValue::HalfCarry, false), program_counter: pc_wrap(pc + 1), ..pre }, m)
    } else if op == 0x38 {
        mem_step(post, post_m, r, pre, m, (if condition_met(regs, Some(FlagRegisterValue::Carry), true) {
                    imm8_fetch(pre, m)
                } else {
                    Ok(())
                }), Cpu { program_counter: (if condition_met(regs, Some(FlagRegisterValue::Carry), true) {
                        jr_target(pc, imm8(pre, m))
                    } else {
                        pc_wrap(pc + 2)
                    }), ..pre }, m, op, pc)
    } else if op == 0x39 {
        pure_step(post, post_m, r, Cpu { registers: add16_registers(regs, pre.stack_pointer), program_counter: pc_wrap(pc + 1), ..pre }, m)
    } else if op == 0x3A {
        mem_step(post, post_m, r, pre, m, addr_fetch(m, regs.spec_get16(CombinedRegister::HL) as int), Cpu { registers: regs.with8(GeneralRegister::A, m.read_value(regs.spec_get16(CombinedRegister::HL) as int)).with16(CombinedRegister::HL, pc_wrap(regs.with8(GeneralRegister::A, m.read_value(regs.spec_get16(CombinedRegister::HL) as int)).spec_get16(CombinedRegister::HL) - 1)), program_counter: pc_wrap(pc + 1), ..pre }, m, op, pc)
    } else if op == 0x3B {
        pure_step(post, post_m, r, Cpu { stack_pointer: pc_wrap(pre.stack_pointer - 1), program_counter: pc_wrap(pc + 1), ..pre }, m)
    } else if op == 0x3C {
        pure_step(post, post_m, r, Cpu { registers: inc8_registers(regs, GeneralRegister::A), program_counter: pc_wrap(pc + 1), ..pre }, m)
    } else if op == 0x3D {
        pure_step(post, post_m, r, Cpu { registers: dec8_registers(regs, GeneralRegister::A), program_counter: pc_wrap(pc + 1), ..pre }, m)
    } else if op == 0x3E {
        mem_step(post, post_m, r, pre, m, imm8_fetch(pre, m), Cpu { registers: regs.with8(GeneralRegister::A, imm8(pre, m)), program_counter: pc_wrap(pc + 2), ..pre }, m, op, pc)
    } else if op == 0x3F {
        pure_step(post, post_m, r, Cpu { registers: regs.with_flag(FlagRegisterValue::Carry, !regs.spec_flag(FlagRegisterValue::Carry)).with_flag(FlagRegisterValue::Negative, false).with_flag(FlagRegisterValue::HalfCarry, false), program_counter: pc_wrap(pc + 1), ..pre }, m)
    } else {
        false
    }
}

/// The effect of one opcode of the irregular row 0xC0-0xFF: stack and
/// call/return instructions, absolute jumps, immediate ALU forms, the
/// high-page loads and the interrupt toggles.
pub open spec fn row3_post(
    op: u8,
    pre: Cpu,
    post: Cpu,
    m: MbcView,
    post_m: MbcView,
    r: Result<(), StepError>,
) -> bool {
    let pc = pre.program_counter;
    let regs = pre.registers;
    if op == 0xC0 {
        mem_step(post, post_m, r, pre, m, (if regs.spec_flag(FlagRegisterValue::Zero) == false {
                    pop_fetch(pre, m)
                } else {
                    Ok(())
                }), (if regs.spec_flag(FlagRegisterValue::Zero) == false {
                    Cpu {
                        program_counter: pop_value(pre, m),
                        stack_pointer: pc_wrap(pre.stack_pointer + 2),
                        ..pre
                    }
                } else {
                    Cpu { program_counter: pc_wrap(pc + 1), ..pre }
                }), m, op, pc)
    } else if op == 0xC1 {
        mem_step(post, post_m, r, pre, m, pop_fetch(pre, m), Cpu { registers: regs.with16(CombinedRegister::BC, pop_value(pre, m)), stack_pointer: pc_wrap(pre.stack_pointer + 2), program_counter: pc_wrap(pc + 1), ..pre }, m, op, pc)
    } else if op == 0xC2 {
        mem_step(post, post_m, r, pre, m, (if condition_met(regs, Some(FlagRegisterValue::Zero), false) {
                    imm16_fetch(pre, m)
                } else {
                    Ok(())
                }), Cpu { program_counter: (if condition_met(regs, Some(FlagRegisterValue::Zero), false) {
                        imm16(pre, m)
                    } else {
                        pc_wrap(pc + 3)
                    }), ..pre }, m, op, pc)
    } else if op == 0xC3 {
        mem_step(post, post_m, r, pre, m, (if condition_met(regs, None::<FlagRegisterValue>, false) {
                    imm16_fetch(pre, m)
                } else {
                    Ok(())
                }), Cpu { program_counter: (if condition_met(regs, None::<FlagRegisterValue>, false) {
                        imm16(pre, m)
                    } else {
                        pc_wrap(pc + 3)
                    }), ..pre }, m, op, pc)
    } else if op == 0xC4 {
        mem_step(post, post_m, r, pre, m, (if regs.spec_flag(FlagRegisterValue::Zero) == false {
                    call_result(pre, m)
                } else {
                    Ok(())
                }), (if regs.spec_flag(FlagRegisterValue::Zero) == false {
                    Cpu {
                        program_counter: imm16(pre, m),
                        stack_pointer: pc_wrap(pre.stack_pointer - 2),
                        ..pre
                    }
                } else {
                    Cpu { program_counter: pc_wrap(pc + 3), ..pre }
                }), (if regs.spec_flag(FlagRegisterValue::Zero) == false {
                    push_stack_mem(pre, m, pc_wrap(pc + 3))
                } else {
                    m
                }), op, pc)
    } else if op == 0xC5 {
        mem_step(post, post_m, r, pre, m, push_stack_result(pre, m), Cpu { stack_pointer: pc_wrap(pre.stack_pointer - 2), program_counter: pc_wrap(pc + 1), ..pre }, push_stack_mem(pre, m, regs.spec_get16(CombinedRegister::BC)), op, pc)
    } else if op == 0xC6 {
        mem_step(post, post_m, r, pre, m, imm8_fetch(pre, m), Cpu { registers: add_registers(regs, imm8(pre, m)), program_counter: pc_wrap(pc + 2), ..pre }, m, op, pc)
    } else if op == 0xC7 {
        unimpl_step(post, post_m, r, pre, m, op)
    } else if op == 0xC8 {
        mem_step(post, post_m, r, pre, m, (if regs.spec_flag(FlagRegisterValue::Zero) == true {
                    pop_fetch(pre, m)
                } else {
                    Ok(())
                }), (if regs.spec_flag(FlagRegisterValue::Zero) == true {
                    Cpu {
                        program_counter: pop_value(pre, m),
                        stack_pointer: pc_wrap(pre.stack_pointer + 2),
                        ..pre
                    }
                } else {
                    Cpu { program_counter: pc_wrap(pc + 1), ..pre }
                }), m, op, pc)
    } else if op == 0xC9 {
        mem_step(post, post_m, r, pre, m, pop_fetch(pre, m), Cpu { program_counter: pop_value(pre, m), stack_pointer: pc_wrap(pre.stack_pointer + 2), ..pre }, m, op, pc)
    } else if op == 0xCA {
        mem_step(post, post_m, r, pre, m, (if condition_met(regs, Some(FlagRegisterValue::Zero), true) {
                    imm16_fetch(pre, m)
                } else {
                    Ok(())
                }), Cpu { program_counter: (if condition_met(regs, Some(FlagRegisterValue::Zero), true) {
                        imm16(pre, m)
                    } else {
                        pc_wrap(pc + 3)
                    }), ..pre }, m, op, pc)
    } else if op == 0xCB {
        prefix_step(post, post_m, r, pre, m)
    } else if op == 0xCC {
        mem_step(post, post_m, r, pre, m, (if regs.spec_flag(FlagRegisterValue::Zero) == true {
                    call_result(pre, m)
                } else {
                    Ok(())
                }), (if regs.spec_flag(FlagRegisterValue::Zero) == true {
                    Cpu {
                        program_counter: imm16(pre, m),
                        stack_pointer: pc_wrap(pre.stack_pointer - 2),
                        ..pre
                    }
                } else {
                    Cpu { program_counter: pc_wrap(pc + 3), ..pre }
                }), (if regs.spec_flag(FlagRegisterValue::Zero) == true {
                    push_stack_mem(pre, m, pc_wrap(pc + 3))
                } else {
                    m
                }), op, pc)
    } else if op == 0xCD {
        mem_step(post, post_m, r, pre, m, call_result(pre, m), Cpu { program_counter: imm16(pre, m), stack_pointer: pc_wrap(pre.stack_pointer - 2), ..pre }, push_stack_mem(pre, m, pc_wrap(pc + 3)), op, pc)
    } else if op == 0xCE {
        mem_step(post, post_m, r, pre, m, imm8_fetch(pre, m), Cpu { registers: adc_registers(regs, imm8(pre, m)), program_counter: pc_wrap(pc + 2), ..pre }, m, op, pc)
    } else if op == 0xCF {
        unimpl_step(post, post_m, r, pre, m, op)
    } else if op == 0xD0 {
        mem_step(post, post_m, r, pre, m, (if regs.spec_flag(FlagRegisterValue::Carry) == false {
                    pop_fetch(pre, m)
                } else {
                    Ok(())
                }), (if regs.spec_flag(FlagRegisterValue::Carry) == false {
                    Cpu {
                        program_counter: pop_value(pre, m),
                        stack_pointer: pc_wrap(pre.stack_pointer + 2),
                        ..pre
                    }
                } else {
                    Cpu { program_counter: pc_wrap(pc + 1), ..pre }
                }), m, op, pc)
    } else if op == 0xD1 {
        mem_step(post, post_m, r, pre, m, pop_fetch(pre, m), Cpu { registers: regs.with16(CombinedRegister::DE, pop_value(pre, m)), stack_pointer: pc_wrap(pre.stack_pointer + 2), program_counter: pc_wrap(pc + 1), ..pre }, m, op, pc)
    } else if op == 0xD2 {
        mem_step(post, post_m, r, pre, m, (if condition_met(regs, Some(FlagRegisterValue::Carry), false) {
                    imm16_fetch(pre, m)
                } else {
                    Ok(())
                }), Cpu { program_counter: (if condition_met(regs, Some(FlagRegisterValue::Carry), false) {
                        imm16(pre, m)
                    } else {
                        pc_wrap(pc + 3)
                    }), ..pre }, m, op, pc)
    } else if op == 0xD3 {
        undef_step(post, post_m, r, pre, m, op)
    } else if op == 0xD4 {
        mem_step(post, post_m, r, pre, m, (if regs.spec_flag(FlagRegisterValue::Carry) == false {
                    call_result(pre, m)
                } else {
                    Ok(())
                }), (if regs.spec_flag(FlagRegisterValue::Carry) == false {
                    Cpu {
                        program_counter: imm16(pre, m),
                        stack_pointer: pc_wrap(pre.stack_pointer - 2),
                        ..pre
                    }
                } else {
                    Cpu { program_counter: pc_wrap(pc + 3), ..pre }
                }), (if regs.spec_flag(FlagRegisterValue::Carry) == false {
                    push_stack_mem(pre, m, pc_wrap(pc + 3))
                } else {
                    m
                }), op, pc)
    } else if op == 0xD5 {
        mem_step(post, post_m, r, pre, m, push_stack_result(pre, m), Cpu { stack_pointer: pc_wrap(pre.stack_pointer - 2), program_counter: pc_wrap(pc + 1), ..pre }, push_stack_mem(pre, m, regs.spec_get16(CombinedRegister::DE)), op, pc)
    } else if op == 0xD6 {
        mem_step(post, post_m, r, pre, m, imm8_fetch(pre, m), Cpu { registers: sub_registers(regs, imm8(pre, m)), program_counter: pc_wrap(pc + 2), ..pre }, m, op, pc)
    } else if op == 0xD7 {
        unimpl_step(post, post_m, r, pre, m, op)
    } else if op == 0xD8 {
        mem_step(post, post_m, r, pre, m, (if regs.spec_flag(FlagRegisterValue::Carry) == true {
                    pop_fetch(pre, m)
                } else {
                    Ok(())
                }), (if regs.spec_flag(FlagRegisterValue::Carry) == true {
                    Cpu {
                        program_counter: pop_value(pre, m),
                        stack_pointer: pc_wrap(pre.stack_pointer + 2),
                        ..pre
                    }
                } else {
                    Cpu { program_counter: pc_wrap(pc + 1), ..pre }
                }), m, op, pc)
    } else if op == 0xD9 {
        mem_step(post, post_m, r, pre, m, pop_fetch(pre, m), Cpu { program_counter: pop_value(pre, m), stack_pointer: pc_wrap(pre.stack_pointer + 2), interrupts_enabled: true, ..pre }, m, op, pc)
    } else if op == 0xDA {
        mem_step(post, post_m, r, pre, m, (if condition_met(regs, Some(FlagRegisterValue::Carry), true) {
                    imm16_fetch(pre, m)
                } else {
                    Ok(())
                }), Cpu { program_counter: (if condition_met(regs, Some(FlagRegisterValue::Carry), true) {
                        imm16(pre, m)
                    } else {
                        pc_wrap(pc + 3)
                    }), ..pre }, m, op, pc)
    } else if op == 0xDB {
        undef_step(post, post_m, r, pre, m, op)
    } else if op == 0xDC {
        mem_step(post, post_m, r, pre, m, (if regs.spec_flag(FlagRegisterValue::Carry) == true {
                    call_result(pre, m)
                } else {
                    Ok(())
                }), (if regs.spec_flag(FlagRegisterValue::Carry) == true {
                    Cpu {
                        program_counter: imm16(pre, m),
                        stack_pointer: pc_wrap(pre.stack_pointer - 2),
                        ..pre
                    }
                } else {
                    Cpu { program_counter: pc_wrap(pc + 3), ..pre }
                }), (if regs.spec_flag(FlagRegisterValue::Carry) == true {
                    push_stack_mem(pre, m, pc_wrap(pc + 3))
                } else {
                    m
                }), op, pc)
    } else if op == 0xDD {
        undef_step(post, post_m, r, pre, m, op)
    } else if op == 0xDE {
        mem_step(post, post_m, r, pre, m, imm8_fetch(pre, m), Cpu { registers: sbc_registers(regs, imm8(pre, m)), program_counter: pc_wrap(pc + 2), ..pre }, m, op, pc)
    } else if op == 0xDF {
        unimpl_step(post, post_m, r, pre, m, op)
    } else if op == 0xE0 {
        mem_step(post, post_m, r, pre, m, (if !imm8_ok(pre, m) {
                    imm8_fetch(pre, m)
                } else {
                    addr_store(m, 0xFF00 + imm8(pre, m))
                }), Cpu { program_counter: pc_wrap(pc + 2), ..pre }, m.write_effect(0xFF00 + imm8(pre, m), regs.spec_get(GeneralRegister::A)), op, pc)
    } else if op == 0xE1 {
        mem_step(post, post_m, r, pre, m, pop_fetch(pre, m), Cpu { registers: regs.with16(CombinedRegister::HL, pop_value(pre, m)), stack_pointer: pc_wrap(pre.stack_pointer + 2), program_counter: pc_wrap(pc + 1), ..pre }, m, op, pc)
    } else if op == 0xE2 {
        mem_step(post, post_m, r, pre, m, addr_store(m, 0xFF00 + regs.spec_get(GeneralRegister::C)), Cpu { program_counter: pc_wrap(pc + 1), ..pre }, m.write_effect(0xFF00 + regs.spec_get(GeneralRegister::C), regs.spec_get(GeneralRegister::A)), op, pc)
    } else if op == 0xE3 {
        undef_step(post, post_m, r, pre, m, op)
    } else if op == 0xE4 {
        undef_step(post, post_m, r, pre, m, op)
    } else if op == 0xE5 {
        mem_step(post, post_m, r, pre, m, push_stack_result(pre, m), Cpu { stack_pointer: pc_wrap(pre.stack_pointer - 2), program_counter: pc_wrap(pc + 1), ..pre }, push_stack_mem(pre, m, regs.spec_get16(CombinedRegister::HL)), op, pc)
    } else if op == 0xE6 {
        mem_step(post, post_m, r, pre, m, imm8_fetch(pre, m), Cpu { registers: and_registers(regs, imm8(pre, m)), program_counter: pc_wrap(pc + 2), ..pre }, m, op, pc)
    } else if op == 0xE7 {
        unimpl_step(post, post_m, r, pre, m, op)
    } else if op == 0xE8 {
        unimpl_step(post, post_m, r, pre, m, op)
    } else if op == 0xE9 {
        unimpl_step(post, post_m, r, pre, m, op)
    } else if op == 0xEA {
        mem_step(post, post_m, r, pre, m, (if !imm16_ok(pre, m) {
                    imm16_fetch(pre, m)
                } else {
                    addr_store(m, imm16(pre, m) as int)
                }), Cpu { program_counter: pc_wrap(pc + 3), ..pre }, m.write_effect(imm16(pre, m) as int, regs.spec_get(GeneralRegister::A)), op, pc)
    } else if op == 0xEB {
        undef_step(post, post_m, r, pre, m, op)
    } else if op == 0xEC {
        undef_step(post, post_m, r, pre, m, op)
    } else if op == 0xED {
        undef_step(post, post_m, r, pre, m, op)
    } else if op == 0xEE {
        mem_step(post, post_m, r, pre, m, imm8_fetch(pre, m), Cpu { registers: xor_registers(regs, imm8(pre, m)), program_counter: pc_wrap(pc + 2), ..pre }, m, op, pc)
    } else if op == 0xEF {
        unimpl_step(post, post_m, r, pre, m, op)
    } else if op == 0xF0 {
        mem_step(post, post_m, r, pre, m, (if !imm8_ok(pre, m) {
                    imm8_fetch(pre, m)
                } else {
                    addr_fetch(m, 0xFF00 + imm8(pre, m))
                }), Cpu { registers: regs.with8(GeneralRegister::A, m.read_value(0xFF00 + imm8(pre, m))), program_counter: pc_wrap(pc + 2), ..pre }, m, op, pc)
    } else if op == 0xF1 {
        mem_step(post, post_m, r, pre, m, pop_fetch(pre, m), Cpu { registers: regs.with16(CombinedRegister::AF, pop_value(pre, m)), stack_pointer: pc_wrap(pre.stack_pointer + 2), program_counter: pc_wrap(pc + 1), ..pre }, m, op, pc)
    } else if op == 0xF2 {
        mem_step(post, post_m, r, pre, m, addr_fetch(m, 0xFF00 + regs.spec_get(GeneralRegister::C)), Cpu { registers: regs.with8(GeneralRegister::A, m.read_value(0xFF00 + regs.spec_get(GeneralRegister::C))), program_counter: pc_wrap(pc + 1), ..pre }, m, op, pc)
    } else if op == 0xF3 {
        pure_step(post, post_m, r, Cpu { interrupts_enabled: false, program_counter: pc_wrap(pc + 1), ..pre }, m)
    } else if op == 0xF4 {
        undef_step(post, post_m, r, pre, m, op)
    } else if op == 0xF5 {
        mem_step(post, post_m, r, pre, m, push_stack_result(pre, m), Cpu { stack_pointer: pc_wrap(pre.stack_pointer - 2), program_counter: pc_wrap(pc + 1), ..pre }, push_stack_mem(pre, m, regs.spec_get16(CombinedRegister::AF)), op, pc)
    } else if op == 0xF6 {
        mem_step(post, post_m, r, pre, m, imm8_fetch(pre, m), Cpu { registers: or_registers(regs, imm8(pre, m)), program_counter: pc_wrap(pc + 2), ..pre }, m, op, pc)
    } else if op == 0xF7 {
        unimpl_step(post, post_m, r, pre, m, op)
    } else if op == 0xF8 {
        unimpl_step(post, post_m, r, pre, m, op)
    } else if op == 0xF9 {
        pure_step(post, post_m, r, Cpu { stack_pointer: regs.spec_get16(CombinedRegister::HL), program_counter: pc_wrap(pc + 1), ..pre }, m)
    } else if op == 0xFA {
        mem_step(post, post_m, r, pre, m, (if !imm16_ok(pre, m) {
                    imm16_fetch(pre, m)
                } else {
                    addr_fetch(m, imm16(pre, m) as int)
                }), Cpu { registers: regs.with8(GeneralRegister::A, m.read_value(imm16(pre, m) as int)), program_counter: pc_wrap(pc + 3), ..pre }, m, op, pc)
    } else if op == 0xFB {
        pure_step(post, post_m, r, Cpu { interrupts_enabled: true, program_counter: pc_wrap(pc + 1), ..pre }, m)
    } else if op == 0xFC {
        undef_step(post, post_m, r, pre, m, op)
    } else if op == 0xFD {
        undef_step(post, post_m, r, pre, m, op)
    } else if op == 0xFE {
        mem_step(post, post_m, r, pre, m, imm8_fetch(pre, m), Cpu { registers: cp_registers(regs, imm8(pre, m)), program_counter: pc_wrap(pc + 2), ..pre }, m, op, pc)
    } else if op == 0xFF {
        unimpl_step(post, post_m, r, pre, m, op)
    } else {
        false
    }
}

impl Cpu {
    /// Dispatches one opcode of the row 0x00-0x3F.
    #[verifier::rlimit(100)]
    #[verifier::spinoff_prover]
    fn apply_row0(&mut self, mbc: &mut MBC, op: u8) -> (r: Result<(), StepError>)
        requires
            old(mbc)@.wf(),
            op < 0x40,
        ensures
            row0_post(op, *old(self), *final(self), old(mbc)@, final(mbc)@, r),
            final(mbc)@.wf(),
    {
        let pc = self.program_counter;
        match op {
            0x00 => {
                            self.nop();
                            Ok(())
                        }
            0x01 => wrap_memory(self.ld_rr_d16(mbc, CombinedRegister::BC), op, pc),
            0x02 => wrap_memory(self.ld_mem_rr_r(mbc, CombinedRegister::BC, GeneralRegister::A), op, pc),
            0x03 => {
                            self.inc_rr(CombinedRegister::BC);
                            Ok(())
                        }
            0x04 => {
                            self.inc_r(GeneralRegister::B);
                            Ok(())
                        }
            0x05 => {
                            self.dec_r(GeneralRegister::B);
                            Ok(())
                        }
            0x06 => wrap_memory(self.ld_r_d8(mbc, GeneralRegister::B), op, pc),
            0x07 => {
                            self.rlca();
                            Ok(())
                        }
            0x08 => wrap_memory(self.ld_mem_a16_sp(mbc), op, pc),
            0x09 => {
                            self.add_rr(CombinedRegister::BC);
                            Ok(())
                        }
            0x0A => wrap_memory(self.ld_r_mem_rr(mbc, GeneralRegister::A, CombinedRegister::BC), op, pc),
            0x0B => {
                            self.dec_rr(CombinedRegister::BC);
                            Ok(())
                        }
            0x0C => {
                            self.inc_r(GeneralRegister::C);
                            Ok(())
                        }
            0x0D => {
                            self.dec_r(GeneralRegister::C);
                            Ok(())
                        }
            0x0E => wrap_memory(self.ld_r_d8(mbc, GeneralRegister::C), op, pc),
            0x0F => {
                            self.rrca();
                            Ok(())
                        }
            0x10 => Err(StepError::Stopped { program_counter: pc }),
            0x11 => wrap_memory(self.ld_rr_d16(mbc, CombinedRegister::DE), op, pc),
            0x12 => wrap_memory(self.ld_mem_rr_r(mbc, CombinedRegister::DE, GeneralRegister::A), op, pc),
            0x13 => {
                            self.inc_rr(CombinedRegister::DE);
                            Ok(())
                        }
            0x14 => {
                            self.inc_r(GeneralRegister::D);
                            Ok(())
                        }
            0x15 => {
                            self.dec_r(GeneralRegister::D);
                            Ok(())
                        }
            0x16 => wrap_memory(self.ld_r_d8(mbc, GeneralRegister::D), op, pc),
            0x17 => {
                            self.rla();
                            Ok(())
                        }
            0x18 => wrap_memory(self.jr(mbc, None, false), op, pc),
            0x19 => {
                            self.add_rr(CombinedRegister::DE);
                            Ok(())
                        }
            0x1A => wrap_memory(self.ld_r_mem_rr(mbc, GeneralRegister::A, CombinedRegister::DE), op, pc),
            0x1B => {
                            self.dec_rr(CombinedRegister::DE);
                            Ok(())
                        }
            0x1C => {
                            self.inc_r(GeneralRegister::E);
                            Ok(())
                        }
            0x1D => {
                            self.dec_r(GeneralRegister::E);
                            Ok(())
                        }
            0x1E => wrap_memory(self.ld_r_d8(mbc, GeneralRegister::E), op, pc),
            0x1F => {
                            self.rra();
                            Ok(())
                        }
            0x20 => wrap_memory(self.jr(mbc, Some(FlagRegisterValue::Zero), false), op, pc),
            0x21 => wrap_memory(self.ld_rr_d16(mbc, CombinedRegister::HL), op, pc),
            0x22 => wrap_memory(self.ldi_mem_rr_r(mbc, CombinedRegister::HL, GeneralRegister::A), op, pc),
            0x23 => {
                            self.inc_rr(CombinedRegister::HL);
                            Ok(())
                        }
            0x24 => {
                            self.inc_r(GeneralRegister::H);
                            Ok(())
                        }
            0x25 => {
                            self.dec_r(GeneralRegister::H);
                            Ok(())
                        }
            0x26 => wrap_memory(self.ld_r_d8(mbc, GeneralRegister::H), op, pc),
            0x27 => Err(StepError::UnimplementedOpcode { opcode: op, program_counter: pc }),
            0x28 => wrap_memory(self.jr(mbc, Some(FlagRegisterValue::Zero), true), op, pc),
            0x29 => {
                            self.add_rr(CombinedRegister::HL);
                            Ok(())
                        }
            0x2A => wrap_memory(self.ldi_r_mem_rr(mbc, GeneralRegister::A, CombinedRegister::HL), op, pc),
            0x2B => {
                            self.dec_rr(CombinedRegister::HL);
                            Ok(())
                        }
            0x2C => {
                            self.inc_r(GeneralRegister::L);
                            Ok(())
                        }
            0x2D => {
                            self.dec_r(GeneralRegister::L);
                            Ok(())
                        }
            0x2E => wrap_memory(self.ld_r_d8(mbc, GeneralRegister::L), op, pc),
            0x2F => {
                            self.cpl();
                            Ok(())
                        }
            0x30 => wrap_memory(self.jr(mbc, Some(FlagRegisterValue::Carry), false), op, pc),
            0x31 => wrap_memory(self.ld_sp_d16(mbc), op, pc),
            0x32 => wrap_memory(self.ldd_mem_rr_r(mbc, CombinedRegister::HL, GeneralRegister::A), op, pc),
            0x33 => {
                            self.inc_sp();
                            Ok(())
                        }
            0x34 => wrap_memory(self.inc_mem_rr(mbc, CombinedRegister::HL), op, pc),
            0x35 => wrap_memory(self.dec_mem_rr(mbc, CombinedRegister::HL), op, pc),
            0x36 => wrap_memory(self.ld_mem_rr_d8(mbc, CombinedRegister::HL), op, pc),
            0x37 => {
                            self.scf();
                            Ok(())
                        }
            0x38 => wrap_memory(self.jr(mbc, Some(FlagRegisterValue::Carry), true), op, pc),
            0x39 => {
                            self.add_sp();
                            Ok(())
                        }
            0x3A => wrap_memory(self.ldd_r_mem_rr(mbc, GeneralRegister::A, CombinedRegister::HL), op, pc),
            0x3B => {
                            self.dec_sp();
                            Ok(())
                        }
            0x3C => {
                            self.inc_r(GeneralRegister::A);
                            Ok(())
                        }
            0x3D => {
                            self.dec_r(GeneralRegister::A);
                            Ok(())
                        }
            0x3E => wrap_memory(self.ld_r_d8(mbc, GeneralRegister::A), op, pc),
            0x3F => {
                            self.ccf();
                            Ok(())
                        }
            _ => Err(StepError::UndefinedOpcode { opcode: op, program_counter: pc }),
        }
    }

    /// Dispatches one opcode of the row 0xC0-0xFF.
    #[verifier::rlimit(100)]
    #[verifier::spinoff_prover]
    fn apply_row3(&mut self, mbc: &mut MBC, op: u8) -> (r: Result<(), StepError>)
        requires
            old(mbc)@.wf(),
            0xC0 <= op,
        ensures
            row3_post(op, *old(self), *final(self), old(mbc)@, final(mbc)@, r),
            final(mbc)@.wf(),
    {
        let pc = self.program_counter;
        match op {
            0xC0 => wrap_memory(self.ret_f(mbc, FlagRegisterValue::Zero, false), op, pc),
            0xC1 => wrap_memory(self.pop_rr(mbc, CombinedRegister::BC), op, pc),
            0xC2 => wrap_memory(self.jp(mbc, Some(FlagRegisterValue::Zero), false), op, pc),
            0xC3 => wrap_memory(self.jp(mbc, None, false), op, pc),
            0xC4 => wrap_memory(self.call_f_a16(mbc, FlagRegisterValue::Zero, false), op, pc),
            0xC5 => wrap_memory(self.push_rr(mbc, CombinedRegister::BC), op, pc),
            0xC6 => wrap_memory(self.add_d8(mbc), op, pc),
            0xC7 => Err(StepError::UnimplementedOpcode { opcode: op, program_counter: pc }),
            0xC8 => wrap_memory(self.ret_f(mbc, FlagRegisterValue::Zero, true), op, pc),
            0xC9 => wrap_memory(self.ret(mbc), op, pc),
            0xCA => wrap_memory(self.jp(mbc, Some(FlagRegisterValue::Zero), true), op, pc),
            0xCB => self.prefix(mbc),
            0xCC => wrap_memory(self.call_f_a16(mbc, FlagRegisterValue::Zero, true), op, pc),
            0xCD => wrap_memory(self.call(mbc), op, pc),
            0xCE => wrap_memory(self.adc_d8(mbc), op, pc),
            0xCF => Err(StepError::UnimplementedOpcode { opcode: op, program_counter: pc }),
            0xD0 => wrap_memory(self.ret_f(mbc, FlagRegisterValue::Carry, false), op, pc),
            0xD1 => wrap_memory(self.pop_rr(mbc, CombinedRegister::DE), op, pc),
            0xD2 => wrap_memory(self.jp(mbc, Some(FlagRegisterValue::Carry), false), op, pc),
            0xD3 => Err(StepError::UndefinedOpcode { opcode: op, program_counter: pc }),
            0xD4 => wrap_memory(self.call_f_a16(mbc, FlagRegisterValue::Carry, false), op, pc),
            0xD5 => wrap_memory(self.push_rr(mbc, CombinedRegister::DE), op, pc),
            0xD6 => wrap_memory(self.sub_d8(mbc), op, pc),
            0xD7 => Err(StepError::UnimplementedOpcode { opcode: op, program_counter: pc }),
            0xD8 => wrap_memory(self.ret_f(mbc, FlagRegisterValue::Carry, true), op, pc),
            0xD9 => wrap_memory(self.reti(mbc), op, pc),
            0xDA => wrap_memory(self.jp(mbc, Some(FlagRegisterValue::Carry), true), op, pc),
            0xDB => Err(StepError::UndefinedOpcode { opcode: op, program_counter: pc }),
            0xDC => wrap_memory(self.call_f_a16(mbc, FlagRegisterValue::Carry, true), op, pc),
            0xDD => Err(StepError::UndefinedOpcode { opcode: op, program_counter: pc }),
            0xDE => wrap_memory(self.sbc_d8(mbc), op, pc),
            0xDF => Err(StepError::UnimplementedOpcode { opcode: op, program_counter: pc }),
            0xE0 => wrap_memory(self.ld_mem_a8_a(mbc), op, pc),
            0xE1 => wrap_memory(self.pop_rr(mbc, CombinedRegister::HL), op, pc),
            0xE2 => wrap_memory(self.ld_mem_r_a(mbc, GeneralRegister::C), op, pc),
            0xE3 => Err(StepError::UndefinedOpcode { opcode: op, program_counter: pc }),
            0xE4 => Err(StepError::UndefinedOpcode { opcode: op, program_counter: pc }),
            0xE5 => wrap_memory(self.push_rr(mbc, CombinedRegister::HL), op, pc),
            0xE6 => wrap_memory(self.and_d8(mbc), op, pc),
            0xE7 => Err(StepError::UnimplementedOpcode { opcode: op, program_counter: pc }),
            0xE8 => Err(StepError::UnimplementedOpcode { opcode: op, program_counter: pc }),
            0xE9 => Err(StepError::UnimplementedOpcode { opcode: op, program_counter: pc }),
            0xEA => wrap_memory(self.ld_mem_a16_a(mbc), op, pc),
            0xEB => Err(StepError::UndefinedOpcode { opcode: op, program_counter: pc }),
            0xEC => Err(StepError::UndefinedOpcode { opcode: op, program_counter: pc }),
            0xED => Err(StepError::UndefinedOpcode { opcode: op, program_counter: pc }),
            0xEE => wrap_memory(self.xor_d8(mbc), op, pc),
            0xEF => Err(StepError::UnimplementedOpcode { opcode: op, program_counter: pc }),
            0xF0 => wrap_memory(self.ld_a_mem_a8(mbc), op, pc),
            0xF1 => wrap_memory(self.pop_rr(mbc, CombinedRegister::AF), op, pc),
            0xF2 => wrap_memory(self.ld_a_mem_r(mbc, GeneralRegister::C), op, pc),
            0xF3 => {
                            self.di();
                            Ok(())
                        }
            0xF4 => Err(StepError::UndefinedOpcode { opcode: op, program_counter: pc }),
            0xF5 => wrap_memory(self.push_rr(mbc, CombinedRegister::AF), op, pc),
            0xF6 => wrap_memory(self.or_d8(mbc), op, pc),
            0xF7 => Err(StepError::UnimplementedOpcode { opcode: op, program_counter: pc }),
            0xF8 => Err(StepError::UnimplementedOpcode { opcode: op, program_counter: pc }),
            0xF9 => {
                            self.ld_sp_rr(CombinedRegister::HL);
                            Ok(())
                        }
            0xFA => wrap_memory(self.ld_a_mem_a16(mbc), op, pc),
            0xFB => {
                            self.ei();
                            Ok(())
                        }
            0xFC => Err(StepError::UndefinedOpcode { opcode: op, program_counter: pc }),
            0xFD => Err(StepError::UndefinedOpcode { opcode: op, program_counter: pc }),
            0xFE => wrap_memory(self.cp_d8(mbc), op, pc),
            0xFF => Err(StepError::UnimplementedOpcode { opcode: op, program_counter: pc }),
            _ => Err(StepError::UndefinedOpcode { opcode: op, program_counter: pc }),
        }
    }
}


/// The full effect of one fetch-decode-execute step on the CPU, the bus
/// and the step result: a failed opcode fetch reports it and changes
/// nothing; otherwise the fetched opcode lands in `current_op` and the
/// instruction's own effect, as given by the dispatch-row predicates,
/// relates the old state to the new.
pub open spec fn step_post(
    pre: Cpu,
    post: Cpu,
    m: MbcView,
    post_m: MbcView,
    r: Result<(), StepError>,
) -> bool {
    let pc = pre.program_counter;
    if !m.read_ok(pc as int) {
        &&& r == Err::<(), StepError>(
            StepError::Fetch { error: m.read_err(pc as int), program_counter: pc },
        )
        &&& post == pre
        &&& post_m == m
    } else {
        let op = m.read_value(pc as int);
        let fetched = Cpu { current_op: op, ..pre };
        if op < 0x40 {
            row0_post(op, fetched, post, m, post_m, r)
        } else if op < 0x80 {
            ld_block_post(op, fetched, post, m, post_m, r)
        } else if op < 0xC0 {
            alu_block_post(op, fetched, post, m, post_m, r)
        } else {
            row3_post(op, fetched, post, m, post_m, r)
        }
    }
}

impl Cpu {
    /// One step of the fetch-decode-execute loop: reads the opcode at the
    /// program counter into `current_op`, dispatches to its handler, and
    /// leaves the program counter at the next instruction.  Undefined and
    /// unimplemented opcodes, STOP, and memory accesses the bus rules out
    /// halt with an error naming the opcode, program counter and address.
    #[verifier::rlimit(100)]
    #[verifier::spinoff_prover]
    pub fn apply_operation(&mut self, mbc: &mut MBC) -> (r: Result<(), StepError>)
        requires
            old(mbc)@.wf(),
        ensures
            step_post(*old(self), *final(self), old(mbc)@, final(mbc)@, r),
            final(mbc)@.wf(),
    {
        let pc = self.program_counter;
        let op = match mbc.read(pc as usize) {
            Ok(v) => v,
            Err(e) => {
                return Err(StepError::Fetch { error: e, program_counter: pc });
            }
        };
        self.current_op = op;
        if op < 0x40 {
            self.apply_row0(mbc, op)
        } else if op < 0x80 {
            self.apply_ld_block(mbc, op)
        } else if op < 0xC0 {
            self.apply_alu_block(mbc, op)
        } else {
            self.apply_row3(mbc, op)
        }
    }
}

} // verus!
