use sm83_core::cartridge::Cartridge;
use sm83_core::cpu::{Cpu, StepError};
use sm83_core::cpu_registers::{CombinedRegister, GeneralRegister};
use sm83_core::flag_register::FlagRegisterValue;
use sm83_core::mbc::{MemoryError, MBC};

fn machine(program: &[u8]) -> (Cpu, MBC) {
    let mut data = vec![0u8; 0x8000];
    for (i, byte) in program.iter().enumerate() {
        data[0x100 + i] = *byte;
    }
    let mut cpu = Cpu::default();
    cpu.program_counter = 0x100;
    cpu.stack_pointer = 0xD000;
    (cpu, MBC::new(Cartridge::from_bytes(data)))
}

#[test]
fn load_then_add_runs_end_to_end() {
    // LD A, 0x05 then ADD A, 0x03.
    let (mut cpu, mut bus) = machine(&[0x3E, 0x05, 0xC6, 0x03]);

    cpu.apply_operation(&mut bus).unwrap();
    assert_eq!(cpu.registers.get(GeneralRegister::A), 0x05);
    assert_eq!(cpu.program_counter, 0x102);

    cpu.apply_operation(&mut bus).unwrap();
    assert_eq!(cpu.registers.get(GeneralRegister::A), 0x08);
    assert_eq!(cpu.program_counter, 0x104);
    assert!(!cpu.registers.is_flag_set(FlagRegisterValue::Zero));
    assert!(!cpu.registers.is_flag_set(FlagRegisterValue::Carry));
    assert!(!cpu.registers.is_flag_set(FlagRegisterValue::HalfCarry));
    assert!(!cpu.registers.is_flag_set(FlagRegisterValue::Negative));
}

#[test]
fn call_then_ret_returns_past_the_call() {
    // CALL 0x0150; at 0x0150 a RET.
    let (mut cpu, mut bus) = machine(&[0xCD, 0x50, 0x01]);
    bus.rom.banks[0][0x150] = 0xC9;

    cpu.apply_operation(&mut bus).unwrap();
    assert_eq!(cpu.program_counter, 0x150);
    assert_eq!(cpu.stack_pointer, 0xCFFE);
    assert_eq!(bus.read(0xCFFF).unwrap(), 0x01);
    assert_eq!(bus.read(0xCFFE).unwrap(), 0x03);

    cpu.apply_operation(&mut bus).unwrap();
    assert_eq!(cpu.program_counter, 0x103);
    assert_eq!(cpu.stack_pointer, 0xD000);
}

#[test]
fn push_and_pop_round_trip() {
    let (mut cpu, mut bus) = machine(&[0xC5, 0xD1]);
    cpu.registers.set16(CombinedRegister::BC, 0xBEEF);

    // PUSH BC then POP DE.
    cpu.apply_operation(&mut bus).unwrap();
    cpu.apply_operation(&mut bus).unwrap();
    assert_eq!(cpu.registers.get16(CombinedRegister::DE), 0xBEEF);
    assert_eq!(cpu.stack_pointer, 0xD000);
    assert_eq!(cpu.program_counter, 0x102);
}

#[test]
fn conditional_jump_follows_the_zero_flag() {
    // JP NZ, 0x0200.
    let (mut cpu, mut bus) = machine(&[0xC2, 0x00, 0x02]);
    cpu.apply_operation(&mut bus).unwrap();
    assert_eq!(cpu.program_counter, 0x200);

    let (mut cpu, mut bus) = machine(&[0xC2, 0x00, 0x02]);
    cpu.registers.set_flag(FlagRegisterValue::Zero);
    cpu.apply_operation(&mut bus).unwrap();
    assert_eq!(cpu.program_counter, 0x103);
}

#[test]
fn relative_jump_takes_signed_offsets() {
    // JR 0x03: forward from the end of the instruction.
    let (mut cpu, mut bus) = machine(&[0x18, 0x03]);
    cpu.apply_operation(&mut bus).unwrap();
    assert_eq!(cpu.program_counter, 0x105);

    // JR 0xFE: minus two, back to the JR itself.
    let (mut cpu, mut bus) = machine(&[0x18, 0xFE]);
    cpu.apply_operation(&mut bus).unwrap();
    assert_eq!(cpu.program_counter, 0x100);
}

#[test]
fn interrupt_toggles_and_reti() {
    // EI then DI.
    let (mut cpu, mut bus) = machine(&[0xFB, 0xF3]);
    cpu.apply_operation(&mut bus).unwrap();
    assert!(cpu.interrupts_enabled);
    cpu.apply_operation(&mut bus).unwrap();
    assert!(!cpu.interrupts_enabled);

    // CALL 0x0150; at 0x0150 a RETI.
    let (mut cpu, mut bus) = machine(&[0xCD, 0x50, 0x01]);
    bus.rom.banks[0][0x150] = 0xD9;
    cpu.apply_operation(&mut bus).unwrap();
    cpu.apply_operation(&mut bus).unwrap();
    assert_eq!(cpu.program_counter, 0x103);
    assert!(cpu.interrupts_enabled);
}

#[test]
fn memory_indirect_loads_move_hl() {
    // LD (HL+), A twice.
    let (mut cpu, mut bus) = machine(&[0x22, 0x22]);
    cpu.registers.set(GeneralRegister::A, 0x42);
    cpu.registers.set16(CombinedRegister::HL, 0xC000);
    cpu.apply_operation(&mut bus).unwrap();
    cpu.apply_operation(&mut bus).unwrap();
    assert_eq!(cpu.registers.get16(CombinedRegister::HL), 0xC002);
    assert_eq!(bus.read(0xC000).unwrap(), 0x42);
    assert_eq!(bus.read(0xC001).unwrap(), 0x42);
}

#[test]
fn inc_on_memory_touches_the_byte_in_place() {
    // INC (HL) at 0xC000 holding 0xFF, then DEC (HL).
    let (mut cpu, mut bus) = machine(&[0x34, 0x35]);
    cpu.registers.set16(CombinedRegister::HL, 0xC000);
    bus.write(0xC000, 0xFF).unwrap();

    cpu.apply_operation(&mut bus).unwrap();
    assert_eq!(bus.read(0xC000).unwrap(), 0x00);
    assert!(cpu.registers.is_flag_set(FlagRegisterValue::Zero));

    cpu.apply_operation(&mut bus).unwrap();
    assert_eq!(bus.read(0xC000).unwrap(), 0xFF);
    assert!(cpu.registers.is_flag_set(FlagRegisterValue::Negative));
}

#[test]
fn prefixed_instructions_advance_by_two() {
    // CB 0x40: BIT 0, B.
    let (mut cpu, mut bus) = machine(&[0xCB, 0x40]);
    cpu.registers.set(GeneralRegister::B, 0x01);
    cpu.apply_operation(&mut bus).unwrap();
    assert_eq!(cpu.program_counter, 0x102);
    assert!(!cpu.registers.is_flag_set(FlagRegisterValue::Zero));
    assert_eq!(cpu.registers.get(GeneralRegister::B), 0x01);

    // CB 0x80: RES 0, B.
    let (mut cpu, mut bus) = machine(&[0xCB, 0x80]);
    cpu.registers.set(GeneralRegister::B, 0x01);
    cpu.apply_operation(&mut bus).unwrap();
    assert_eq!(cpu.registers.get(GeneralRegister::B), 0x00);
}

#[test]
fn high_page_loads_use_the_io_block() {
    // LD (FF00+0x40), A then LD A, (FF00+0x40) into a fresh A.
    let (mut cpu, mut bus) = machine(&[0xE0, 0x40, 0x3E, 0x00, 0xF0, 0x40]);
    cpu.registers.set(GeneralRegister::A, 0x91);
    cpu.apply_operation(&mut bus).unwrap();
    assert_eq!(bus.read(0xFF40).unwrap(), 0x91);

    cpu.apply_operation(&mut bus).unwrap();
    assert_eq!(cpu.registers.get(GeneralRegister::A), 0x00);
    cpu.apply_operation(&mut bus).unwrap();
    assert_eq!(cpu.registers.get(GeneralRegister::A), 0x91);
}

#[test]
fn store_the_stack_pointer_little_endian() {
    // LD (0xC100), SP.
    let (mut cpu, mut bus) = machine(&[0x08, 0x00, 0xC1]);
    cpu.stack_pointer = 0x1234;
    cpu.apply_operation(&mut bus).unwrap();
    assert_eq!(bus.read(0xC100).unwrap(), 0x34);
    assert_eq!(bus.read(0xC101).unwrap(), 0x12);
    assert_eq!(cpu.program_counter, 0x103);
}

#[test]
fn undefined_opcodes_halt_with_a_diagnostic() {
    let (mut cpu, mut bus) = machine(&[0xD3]);
    assert_eq!(
        cpu.apply_operation(&mut bus),
        Err(StepError::UndefinedOpcode { opcode: 0xD3, program_counter: 0x100 })
    );
    assert_eq!(cpu.program_counter, 0x100);
}

#[test]
fn unimplemented_opcodes_halt_with_a_diagnostic() {
    let (mut cpu, mut bus) = machine(&[0x27]);
    assert_eq!(
        cpu.apply_operation(&mut bus),
        Err(StepError::UnimplementedOpcode { opcode: 0x27, program_counter: 0x100 })
    );

    let (mut cpu, mut bus) = machine(&[0xCB, 0x25]);
    assert_eq!(
        cpu.apply_operation(&mut bus),
        Err(StepError::UnimplementedPrefixedOpcode { opcode: 0x25, program_counter: 0x100 })
    );
}

#[test]
fn stop_halts_emulation() {
    let (mut cpu, mut bus) = machine(&[0x10]);
    assert_eq!(
        cpu.apply_operation(&mut bus),
        Err(StepError::Stopped { program_counter: 0x100 })
    );
}

#[test]
fn memory_faults_carry_the_context() {
    // LD A, (0xFEA0): a read of the unusable range.
    let (mut cpu, mut bus) = machine(&[0xFA, 0xA0, 0xFE]);
    assert_eq!(
        cpu.apply_operation(&mut bus),
        Err(StepError::Memory {
            error: MemoryError::Unusable { location: 0xFEA0 },
            opcode: 0xFA,
            program_counter: 0x100,
        })
    );

    // A fetch from an out-of-bounds bank fails as a fetch error.
    let (mut cpu, mut bus) = machine(&[0x00]);
    bus.write(0x2000, 0x09).unwrap();
    cpu.program_counter = 0x4000;
    assert_eq!(
        cpu.apply_operation(&mut bus),
        Err(StepError::Fetch {
            error: MemoryError::BankBounds { bank: 9, location: 0x4000 },
            program_counter: 0x4000,
        })
    );
}

#[test]
fn current_op_records_the_fetched_opcode() {
    let (mut cpu, mut bus) = machine(&[0x3E, 0x05]);
    cpu.apply_operation(&mut bus).unwrap();
    assert_eq!(cpu.current_op, 0x3E);
}

#[test]
fn register_to_register_loads_cover_the_block() {
    // LD B, A; LD C, B; LD A, C as 0x47, 0x48, 0x79.
    let (mut cpu, mut bus) = machine(&[0x47, 0x48, 0x79]);
    cpu.registers.set(GeneralRegister::A, 0x5C);
    cpu.apply_operation(&mut bus).unwrap();
    cpu.apply_operation(&mut bus).unwrap();
    cpu.registers.set(GeneralRegister::A, 0x00);
    cpu.apply_operation(&mut bus).unwrap();
    assert_eq!(cpu.registers.get(GeneralRegister::A), 0x5C);
    assert_eq!(cpu.program_counter, 0x103);
}
