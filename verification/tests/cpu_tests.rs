use sm83_core::cpu::Cpu;
use sm83_core::cpu_registers::{CombinedRegister, GeneralRegister};
use sm83_core::flag_register::FlagRegisterValue;

#[test]
fn inc_should_work() {
    let mut cpu = Cpu::default();
    cpu.inc_r(GeneralRegister::A);
    let a_val = cpu.registers.get(GeneralRegister::A);

    assert_eq!(a_val, 0x01);
}

#[test]
fn inc_should_wrap() {
    let mut cpu = Cpu::default();
    cpu.registers.set(GeneralRegister::A, 0xff);
    cpu.inc_r(GeneralRegister::A);
    let a_val = cpu.registers.get(GeneralRegister::A);

    assert_eq!(a_val, 0x00);
}

#[test]
fn dec_should_work() {
    let mut cpu = Cpu::default();
    cpu.registers.set(GeneralRegister::A, 0x02);
    cpu.dec_r(GeneralRegister::A);
    let a_val = cpu.registers.get(GeneralRegister::A);

    assert_eq!(a_val, 0x01);
}

#[test]
fn dec_should_wrap() {
    let mut cpu = Cpu::default();
    cpu.dec_r(GeneralRegister::A);
    let a_val = cpu.registers.get(GeneralRegister::A);

    assert_eq!(a_val, 0xff);
}

#[test]
fn add_should_work() {
    let mut cpu = Cpu::default();
    cpu.registers.set(GeneralRegister::B, 0x01);
    cpu.add_r(GeneralRegister::B);
    let a_val = cpu.registers.get(GeneralRegister::A);

    assert_eq!(a_val, 0x01);
}

#[test]
fn add_should_wrap() {
    let mut cpu = Cpu::default();
    cpu.registers.set(GeneralRegister::A, 0xff);
    cpu.registers.set(GeneralRegister::B, 0x01);
    cpu.add_r(GeneralRegister::B);
    let a_val = cpu.registers.get(GeneralRegister::A);

    assert_eq!(a_val, 0x00);
}

#[test]
fn sub_should_work() {
    let mut cpu = Cpu::default();
    cpu.registers.set(GeneralRegister::A, 0x02);
    cpu.registers.set(GeneralRegister::B, 0x01);
    cpu.sub_r(GeneralRegister::B);
    let a_val = cpu.registers.get(GeneralRegister::A);

    assert_eq!(a_val, 0x01);
}

#[test]
fn sub_should_wrap() {
    let mut cpu = Cpu::default();
    cpu.registers.set(GeneralRegister::B, 0x01);
    cpu.sub_r(GeneralRegister::B);
    let a_val = cpu.registers.get(GeneralRegister::A);

    assert_eq!(a_val, 0xff);
}

#[test]
fn ld_should_work() {
    let mut cpu = Cpu::default();
    cpu.registers.set(GeneralRegister::A, 0x01);
    cpu.ld_r_r(GeneralRegister::B, GeneralRegister::A);

    assert_eq!(cpu.registers.get(GeneralRegister::B), 0x01);
}

#[test]
fn set16_get16_round_trip() {
    let mut cpu = Cpu::default();
    cpu.registers.set16(CombinedRegister::BC, 0x1234);
    assert_eq!(cpu.registers.get16(CombinedRegister::BC), 0x1234);
    assert_eq!(cpu.registers.get(GeneralRegister::B), 0x12);
    assert_eq!(cpu.registers.get(GeneralRegister::C), 0x34);

    cpu.registers.set16(CombinedRegister::DE, 0xFFFF);
    assert_eq!(cpu.registers.get16(CombinedRegister::DE), 0xFFFF);

    cpu.registers.set16(CombinedRegister::HL, 0x00FF);
    assert_eq!(cpu.registers.get16(CombinedRegister::HL), 0x00FF);

    // The low nibble of F always reads as zero, so a value written to AF
    // comes back with its low nibble cleared.
    cpu.registers.set16(CombinedRegister::AF, 0x12F0);
    assert_eq!(cpu.registers.get16(CombinedRegister::AF), 0x12F0);
    cpu.registers.set16(CombinedRegister::AF, 0x1234);
    assert_eq!(cpu.registers.get16(CombinedRegister::AF), 0x1230);
}

#[test]
fn inc_wrap_sets_zero_and_half_carry() {
    let mut cpu = Cpu::default();
    cpu.registers.set(GeneralRegister::A, 0xFF);
    cpu.registers.set_flag(FlagRegisterValue::Negative);
    cpu.inc_r(GeneralRegister::A);

    assert_eq!(cpu.registers.get(GeneralRegister::A), 0x00);
    assert!(cpu.registers.is_flag_set(FlagRegisterValue::Zero));
    assert!(cpu.registers.is_flag_set(FlagRegisterValue::HalfCarry));
    assert!(!cpu.registers.is_flag_set(FlagRegisterValue::Negative));
}

#[test]
fn dec_wrap_sets_negative_and_half_carry() {
    let mut cpu = Cpu::default();
    cpu.registers.set(GeneralRegister::A, 0x00);
    cpu.dec_r(GeneralRegister::A);

    assert_eq!(cpu.registers.get(GeneralRegister::A), 0xFF);
    assert!(!cpu.registers.is_flag_set(FlagRegisterValue::Zero));
    assert!(cpu.registers.is_flag_set(FlagRegisterValue::Negative));
    assert!(cpu.registers.is_flag_set(FlagRegisterValue::HalfCarry));
}

#[test]
fn add_overflow_sets_zero_carry_half_carry() {
    let mut cpu = Cpu::default();
    cpu.registers.set(GeneralRegister::A, 0xFF);
    cpu.registers.set(GeneralRegister::B, 0x01);
    cpu.add_r(GeneralRegister::B);

    assert_eq!(cpu.registers.get(GeneralRegister::A), 0x00);
    assert!(cpu.registers.is_flag_set(FlagRegisterValue::Zero));
    assert!(cpu.registers.is_flag_set(FlagRegisterValue::Carry));
    assert!(cpu.registers.is_flag_set(FlagRegisterValue::HalfCarry));
    assert!(!cpu.registers.is_flag_set(FlagRegisterValue::Negative));
}

#[test]
fn adc_folds_the_carry_flag() {
    let mut cpu = Cpu::default();
    cpu.registers.set(GeneralRegister::A, 0xFF);
    cpu.registers.set(GeneralRegister::B, 0x00);
    cpu.registers.set_flag(FlagRegisterValue::Carry);
    cpu.adc_r(GeneralRegister::B);

    assert_eq!(cpu.registers.get(GeneralRegister::A), 0x00);
    assert!(cpu.registers.is_flag_set(FlagRegisterValue::Zero));
    assert!(cpu.registers.is_flag_set(FlagRegisterValue::Carry));
    assert!(cpu.registers.is_flag_set(FlagRegisterValue::HalfCarry));
}

#[test]
fn sbc_folds_the_carry_flag() {
    let mut cpu = Cpu::default();
    cpu.registers.set(GeneralRegister::A, 0x00);
    cpu.registers.set(GeneralRegister::B, 0xFF);
    cpu.registers.set_flag(FlagRegisterValue::Carry);
    cpu.sbc_r(GeneralRegister::B);

    assert_eq!(cpu.registers.get(GeneralRegister::A), 0x00);
    assert!(cpu.registers.is_flag_set(FlagRegisterValue::Zero));
    assert!(cpu.registers.is_flag_set(FlagRegisterValue::Carry));
    assert!(cpu.registers.is_flag_set(FlagRegisterValue::Negative));
}

#[test]
fn and_sets_half_carry_and_clears_carry() {
    let mut cpu = Cpu::default();
    cpu.registers.set(GeneralRegister::A, 0x0F);
    cpu.registers.set(GeneralRegister::B, 0xF0);
    cpu.registers.set_flag(FlagRegisterValue::Carry);
    cpu.and_r(GeneralRegister::B);

    assert_eq!(cpu.registers.get(GeneralRegister::A), 0x00);
    assert!(cpu.registers.is_flag_set(FlagRegisterValue::Zero));
    assert!(cpu.registers.is_flag_set(FlagRegisterValue::HalfCarry));
    assert!(!cpu.registers.is_flag_set(FlagRegisterValue::Carry));
}

#[test]
fn xor_of_a_with_itself_clears_a() {
    let mut cpu = Cpu::default();
    cpu.registers.set(GeneralRegister::A, 0x5A);
    cpu.xor_r(GeneralRegister::A);

    assert_eq!(cpu.registers.get(GeneralRegister::A), 0x00);
    assert!(cpu.registers.is_flag_set(FlagRegisterValue::Zero));
}

#[test]
fn cp_keeps_a_and_sets_subtraction_flags() {
    let mut cpu = Cpu::default();
    cpu.registers.set(GeneralRegister::A, 0x10);
    cpu.registers.set(GeneralRegister::B, 0x20);
    cpu.cp_r(GeneralRegister::B);

    assert_eq!(cpu.registers.get(GeneralRegister::A), 0x10);
    assert!(!cpu.registers.is_flag_set(FlagRegisterValue::Zero));
    assert!(cpu.registers.is_flag_set(FlagRegisterValue::Negative));
    assert!(cpu.registers.is_flag_set(FlagRegisterValue::Carry));
}

#[test]
fn bit_never_changes_the_tested_register() {
    let mut cpu = Cpu::default();
    cpu.registers.set(GeneralRegister::B, 0x42);
    cpu.bit_r(1, GeneralRegister::B);
    assert_eq!(cpu.registers.get(GeneralRegister::B), 0x42);
    assert!(!cpu.registers.is_flag_set(FlagRegisterValue::Zero));
    assert!(cpu.registers.is_flag_set(FlagRegisterValue::HalfCarry));

    cpu.bit_r(0, GeneralRegister::B);
    assert_eq!(cpu.registers.get(GeneralRegister::B), 0x42);
    assert!(cpu.registers.is_flag_set(FlagRegisterValue::Zero));
}

#[test]
fn res_clears_one_bit_and_no_flags() {
    let mut cpu = Cpu::default();
    cpu.registers.set(GeneralRegister::C, 0xFF);
    cpu.res_r(3, GeneralRegister::C);
    assert_eq!(cpu.registers.get(GeneralRegister::C), 0xF7);
    assert!(!cpu.registers.is_flag_set(FlagRegisterValue::Zero));
}

#[test]
fn srl_shifts_into_carry() {
    let mut cpu = Cpu::default();
    cpu.registers.set(GeneralRegister::D, 0x01);
    cpu.srl_r(GeneralRegister::D);
    assert_eq!(cpu.registers.get(GeneralRegister::D), 0x00);
    assert!(cpu.registers.is_flag_set(FlagRegisterValue::Zero));
    assert!(cpu.registers.is_flag_set(FlagRegisterValue::Carry));
}

#[test]
fn rotates_of_a_always_clear_zero() {
    let mut cpu = Cpu::default();
    cpu.registers.set(GeneralRegister::A, 0x80);
    cpu.rlca();
    assert_eq!(cpu.registers.get(GeneralRegister::A), 0x01);
    assert!(cpu.registers.is_flag_set(FlagRegisterValue::Carry));
    assert!(!cpu.registers.is_flag_set(FlagRegisterValue::Zero));

    let mut cpu = Cpu::default();
    cpu.registers.set(GeneralRegister::A, 0x00);
    cpu.rlca();
    assert!(!cpu.registers.is_flag_set(FlagRegisterValue::Zero));
}

#[test]
fn prefixed_rotate_sets_zero_on_zero_result() {
    let mut cpu = Cpu::default();
    cpu.registers.set(GeneralRegister::B, 0x00);
    cpu.rlc_r(GeneralRegister::B);
    assert!(cpu.registers.is_flag_set(FlagRegisterValue::Zero));

    cpu.registers.set(GeneralRegister::B, 0x80);
    cpu.rlc_r(GeneralRegister::B);
    assert_eq!(cpu.registers.get(GeneralRegister::B), 0x01);
    assert!(cpu.registers.is_flag_set(FlagRegisterValue::Carry));
    assert!(!cpu.registers.is_flag_set(FlagRegisterValue::Zero));
}

#[test]
fn rl_and_rr_move_through_the_carry() {
    let mut cpu = Cpu::default();
    cpu.registers.set_flag(FlagRegisterValue::Carry);
    cpu.registers.set(GeneralRegister::E, 0x00);
    cpu.rl_r(GeneralRegister::E);
    assert_eq!(cpu.registers.get(GeneralRegister::E), 0x01);
    assert!(!cpu.registers.is_flag_set(FlagRegisterValue::Carry));

    let mut cpu = Cpu::default();
    cpu.registers.set_flag(FlagRegisterValue::Carry);
    cpu.registers.set(GeneralRegister::E, 0x00);
    cpu.rr_r(GeneralRegister::E);
    assert_eq!(cpu.registers.get(GeneralRegister::E), 0x80);
    assert!(!cpu.registers.is_flag_set(FlagRegisterValue::Carry));
}

#[test]
fn ccf_complements_and_scf_sets_carry() {
    let mut cpu = Cpu::default();
    cpu.scf();
    assert!(cpu.registers.is_flag_set(FlagRegisterValue::Carry));
    cpu.ccf();
    assert!(!cpu.registers.is_flag_set(FlagRegisterValue::Carry));
    cpu.ccf();
    assert!(cpu.registers.is_flag_set(FlagRegisterValue::Carry));
}

#[test]
fn cpl_complements_a() {
    let mut cpu = Cpu::default();
    cpu.registers.set(GeneralRegister::A, 0x35);
    cpu.cpl();
    assert_eq!(cpu.registers.get(GeneralRegister::A), 0xCA);
    assert!(cpu.registers.is_flag_set(FlagRegisterValue::Negative));
    assert!(cpu.registers.is_flag_set(FlagRegisterValue::HalfCarry));
}

#[test]
fn sixteen_bit_add_leaves_zero_untouched() {
    let mut cpu = Cpu::default();
    cpu.registers.set_flag(FlagRegisterValue::Zero);
    cpu.registers.set16(CombinedRegister::HL, 0x0FFF);
    cpu.registers.set16(CombinedRegister::BC, 0x0001);
    cpu.add_rr(CombinedRegister::BC);
    assert_eq!(cpu.registers.get16(CombinedRegister::HL), 0x1000);
    assert!(cpu.registers.is_flag_set(FlagRegisterValue::Zero));
    assert!(cpu.registers.is_flag_set(FlagRegisterValue::HalfCarry));
    assert!(!cpu.registers.is_flag_set(FlagRegisterValue::Carry));
}

#[test]
fn increment16_and_decrement16_wrap() {
    let mut cpu = Cpu::default();
    cpu.registers.set16(CombinedRegister::HL, 0xFFFF);
    assert_eq!(cpu.registers.increment16(CombinedRegister::HL), 0x0000);
    assert_eq!(cpu.registers.decrement16(CombinedRegister::HL), 0xFFFF);
}
