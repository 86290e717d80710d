use gb_core::cpu::CPU;
use gb_core::error::CoreError;
use gb_core::flag_type::FlagType;
use gb_core::register_type::{RegisterType16, RegisterType8};

fn cpu_at(pc: u16, program: &[u8]) -> CPU {
    let mut cpu = CPU::new();
    let mut location = pc;
    for byte in program {
        cpu.memory.write(location, *byte);
        location = location.wrapping_add(1);
    }
    cpu.register.write_16(RegisterType16::PC, pc);
    cpu.register.write_16(RegisterType16::SP, 0xDFF0);
    cpu
}

fn run(cpu: &mut CPU, instructions: usize) -> u32 {
    let mut total = 0;
    for _ in 0..instructions {
        total += cpu.tick().unwrap();
    }
    total
}

fn flags(cpu: &CPU) -> (bool, bool, bool, bool) {
    (
        cpu.register.read_flag(FlagType::Zero),
        cpu.register.read_flag(FlagType::Subtraction),
        cpu.register.read_flag(FlagType::HalfCarry),
        cpu.register.read_flag(FlagType::Carry),
    )
}

#[test]
fn cpu_starts_at_power_on() {
    let cpu = CPU::new();
    assert_eq!(cpu.register.read_16(RegisterType16::PC), 0x0100);
    assert_eq!(cpu.register.read_16(RegisterType16::SP), 0xFFFE);
    assert_eq!(cpu.register.read_8(RegisterType8::A), 0x01);
    assert_eq!(cpu.cycles, 0);
    assert_eq!(cpu.memory.read(0x0100), 0);
}

#[test]
fn ld_a_immediate_loads_and_costs_eight_cycles() {
    let mut cpu = CPU::new();
    cpu.memory.write_game(&[0x3E, 0x42]);
    cpu.register.write_16(RegisterType16::PC, 0);
    let cycles = cpu.tick();
    assert_eq!(cycles, Ok(8));
    assert_eq!(cpu.cycles, 8);
    assert_eq!(cpu.register.read_8(RegisterType8::A), 0x42);
    assert_eq!(cpu.register.read_16(RegisterType16::PC), 2);
}

#[test]
fn nop_takes_four_cycles() {
    let mut cpu = cpu_at(0x0100, &[0x00]);
    assert_eq!(cpu.tick(), Ok(4));
    assert_eq!(cpu.register.read_16(RegisterType16::PC), 0x0101);
}

#[test]
fn cycles_restart_with_each_instruction() {
    let mut cpu = cpu_at(0x0100, &[0x3E, 0x01, 0x00]);
    assert_eq!(cpu.tick(), Ok(8));
    assert_eq!(cpu.tick(), Ok(4));
    assert_eq!(cpu.cycles, 4);
}

#[test]
fn unassigned_opcodes_are_reported() {
    for opcode in [0xD3u8, 0xDB, 0xDD, 0xE3, 0xE4, 0xEB, 0xEC, 0xED, 0xF4, 0xFC, 0xFD] {
        let mut cpu = cpu_at(0x0150, &[opcode]);
        assert_eq!(cpu.tick(), Err(CoreError::UnimplementedOpcode { opcode, pc: 0x0150 }));
    }
}

#[test]
fn unmodelled_instructions_are_reported() {
    for opcode in [0x10u8, 0x76, 0xE8, 0xF8] {
        let mut cpu = cpu_at(0x0150, &[opcode]);
        assert_eq!(cpu.tick(), Err(CoreError::UnimplementedOpcode { opcode, pc: 0x0150 }));
    }
}

#[test]
fn every_other_opcode_is_modelled() {
    let refused = [
        0x10u8, 0x76, 0xD3, 0xDB, 0xDD, 0xE3, 0xE4, 0xE8, 0xEB, 0xEC, 0xED, 0xF4, 0xF8, 0xFC,
        0xFD,
    ];
    for opcode in 0..=255u8 {
        assert_eq!(CPU::is_modelled(opcode), !refused.contains(&opcode));
        let mut cpu = cpu_at(0x0150, &[opcode, 0x00, 0x00]);
        assert_eq!(cpu.tick().is_ok(), !refused.contains(&opcode));
    }
}

#[test]
fn refused_opcode_leaves_the_machine() {
    let mut cpu = cpu_at(0x0150, &[0xD3]);
    cpu.register.write_8(RegisterType8::A, 0x77);
    cpu.register.write_8(RegisterType8::F, 0xB0);
    assert!(cpu.tick().is_err());
    assert_eq!(cpu.register.read_16(RegisterType16::PC), 0x0150);
    assert_eq!(cpu.register.read_16(RegisterType16::SP), 0xDFF0);
    assert_eq!(cpu.register.read_8(RegisterType8::A), 0x77);
    assert_eq!(cpu.register.read_8(RegisterType8::F), 0xB0);
    assert_eq!(cpu.memory.read(0x0150), 0xD3);
    assert!(cpu.tick().is_err());
}

#[test]
fn register_to_register_loads() {
    // LD B,0x12; LD C,B; LD D,C; LD E,D; LD H,E; LD L,H; LD A,L
    let mut cpu = cpu_at(0x0100, &[0x06, 0x12, 0x48, 0x51, 0x5A, 0x63, 0x6C, 0x7D]);
    assert_eq!(run(&mut cpu, 7), 8 + 6 * 4);
    for register in [
        RegisterType8::A,
        RegisterType8::B,
        RegisterType8::C,
        RegisterType8::D,
        RegisterType8::E,
        RegisterType8::H,
        RegisterType8::L,
    ] {
        assert_eq!(cpu.register.read_8(register), 0x12);
    }
}

#[test]
fn loads_through_hl() {
    // LD HL,0xC000; LD (HL),0x5A; LD B,(HL); LD A,0x33; LD (HL),A; LD C,(HL)
    let mut cpu = cpu_at(0x0100, &[0x21, 0x00, 0xC0, 0x36, 0x5A, 0x46, 0x3E, 0x33, 0x77, 0x4E]);
    assert_eq!(cpu.tick(), Ok(12));
    assert_eq!(cpu.register.read_16(RegisterType16::HL), 0xC000);
    assert_eq!(cpu.tick(), Ok(12));
    assert_eq!(cpu.memory.read(0xC000), 0x5A);
    assert_eq!(cpu.tick(), Ok(8));
    assert_eq!(cpu.register.read_8(RegisterType8::B), 0x5A);
    assert_eq!(cpu.tick(), Ok(8));
    assert_eq!(cpu.tick(), Ok(8));
    assert_eq!(cpu.memory.read(0xC000), 0x33);
    assert_eq!(cpu.tick(), Ok(8));
    assert_eq!(cpu.register.read_8(RegisterType8::C), 0x33);
}

#[test]
fn immediate_word_is_low_byte_first() {
    // LD BC,0x1234; LD DE,0x5678; LD SP,0xD000
    let mut cpu = cpu_at(0x0100, &[0x01, 0x34, 0x12, 0x11, 0x78, 0x56, 0x31, 0x00, 0xD0]);
    assert_eq!(run(&mut cpu, 3), 36);
    assert_eq!(cpu.register.read_16(RegisterType16::BC), 0x1234);
    assert_eq!(cpu.register.read_16(RegisterType16::DE), 0x5678);
    assert_eq!(cpu.register.read_16(RegisterType16::SP), 0xD000);
    assert_eq!(cpu.register.read_16(RegisterType16::PC), 0x0109);
}

#[test]
fn accumulator_loads_through_bc_and_de() {
    // LD BC,0xC000; LD DE,0xC001; LD A,0x11; LD (BC),A; LD A,0x22; LD (DE),A; LD A,(BC)
    let mut cpu = cpu_at(
        0x0100,
        &[0x01, 0x00, 0xC0, 0x11, 0x01, 0xC0, 0x3E, 0x11, 0x02, 0x3E, 0x22, 0x12, 0x0A],
    );
    run(&mut cpu, 6);
    assert_eq!(cpu.memory.read(0xC000), 0x11);
    assert_eq!(cpu.memory.read(0xC001), 0x22);
    assert_eq!(cpu.tick(), Ok(8));
    assert_eq!(cpu.register.read_8(RegisterType8::A), 0x11);
    let mut cpu = cpu_at(0x0100, &[0x1A]);
    cpu.register.write_16(RegisterType16::DE, 0xC001);
    cpu.memory.write(0xC001, 0x99);
    assert_eq!(cpu.tick(), Ok(8));
    assert_eq!(cpu.register.read_8(RegisterType8::A), 0x99);
}

#[test]
fn accumulator_loads_at_a_word_address() {
    // LD A,0x5A; LD (0xC123),A; LD A,0x00; LD A,(0xC123)
    let mut cpu = cpu_at(0x0100, &[0x3E, 0x5A, 0xEA, 0x23, 0xC1, 0x3E, 0x00, 0xFA, 0x23, 0xC1]);
    assert_eq!(cpu.tick(), Ok(8));
    assert_eq!(cpu.tick(), Ok(16));
    assert_eq!(cpu.memory.read(0xC123), 0x5A);
    assert_eq!(cpu.tick(), Ok(8));
    assert_eq!(cpu.tick(), Ok(16));
    assert_eq!(cpu.register.read_8(RegisterType8::A), 0x5A);
}

#[test]
fn high_page_loads() {
    // LD A,0x3C; LDH (0x80),A; LD A,0; LDH A,(0x80); LD C,0x80; LD A,(C)
    let mut cpu =
        cpu_at(0x0100, &[0x3E, 0x3C, 0xE0, 0x80, 0x3E, 0x00, 0xF0, 0x80, 0x0E, 0x80, 0xF2]);
    assert_eq!(cpu.tick(), Ok(8));
    assert_eq!(cpu.tick(), Ok(12));
    assert_eq!(cpu.memory.read(0xFF80), 0x3C);
    assert_eq!(cpu.tick(), Ok(8));
    assert_eq!(cpu.tick(), Ok(12));
    assert_eq!(cpu.register.read_8(RegisterType8::A), 0x3C);
    cpu.register.write_8(RegisterType8::A, 0);
    assert_eq!(cpu.tick(), Ok(8));
    assert_eq!(cpu.tick(), Ok(8));
    assert_eq!(cpu.register.read_8(RegisterType8::A), 0x3C);
}

#[test]
fn store_through_c_uses_c_as_the_high_byte() {
    // LD (C),A
    let mut cpu = cpu_at(0x0100, &[0xE2]);
    cpu.register.write_8(RegisterType8::C, 0xC0);
    cpu.register.write_8(RegisterType8::A, 0x77);
    assert_eq!(cpu.tick(), Ok(8));
    assert_eq!(cpu.memory.read(0xC0FF), 0x77);
    assert_eq!(cpu.memory.read(0xFFC0), 0x00);
}

#[test]
fn loads_that_move_hl() {
    // LD (HL+),A; LD (HL-),A; LD A,(HL+); LD A,(HL-)
    let mut cpu = cpu_at(0x0100, &[0x22, 0x32, 0x2A, 0x3A]);
    cpu.register.write_16(RegisterType16::HL, 0xC000);
    cpu.register.write_8(RegisterType8::A, 0x11);
    assert_eq!(cpu.tick(), Ok(8));
    assert_eq!(cpu.memory.read(0xC000), 0x11);
    assert_eq!(cpu.register.read_16(RegisterType16::HL), 0xC001);
    cpu.register.write_8(RegisterType8::A, 0x22);
    assert_eq!(cpu.tick(), Ok(8));
    assert_eq!(cpu.memory.read(0xC001), 0x22);
    assert_eq!(cpu.register.read_16(RegisterType16::HL), 0xC000);
    assert_eq!(cpu.tick(), Ok(8));
    assert_eq!(cpu.register.read_8(RegisterType8::A), 0x11);
    assert_eq!(cpu.register.read_16(RegisterType16::HL), 0xC001);
    assert_eq!(cpu.tick(), Ok(8));
    assert_eq!(cpu.register.read_8(RegisterType8::A), 0x22);
    assert_eq!(cpu.register.read_16(RegisterType16::HL), 0xC000);
}

#[test]
fn hl_wraps_when_it_moves() {
    let mut cpu = cpu_at(0x0100, &[0x3A, 0x2A, 0x2A]);
    cpu.register.write_16(RegisterType16::HL, 0x0000);
    cpu.tick().unwrap();
    assert_eq!(cpu.register.read_16(RegisterType16::HL), 0xFFFF);
    cpu.tick().unwrap();
    assert_eq!(cpu.register.read_16(RegisterType16::HL), 0x0000);
}

#[test]
fn store_sp_puts_the_high_byte_first() {
    // LD (0xC100),SP
    let mut cpu = cpu_at(0x0100, &[0x08, 0x00, 0xC1]);
    cpu.register.write_16(RegisterType16::SP, 0xABCD);
    assert_eq!(cpu.tick(), Ok(20));
    assert_eq!(cpu.memory.read(0xC100), 0xAB);
    assert_eq!(cpu.memory.read(0xC101), 0xCD);
    assert_eq!(cpu.register.read_16(RegisterType16::PC), 0x0103);
}

#[test]
fn sp_is_loaded_from_hl() {
    let mut cpu = cpu_at(0x0100, &[0xF9]);
    cpu.register.write_16(RegisterType16::HL, 0xCFFF);
    assert_eq!(cpu.tick(), Ok(8));
    assert_eq!(cpu.register.read_16(RegisterType16::SP), 0xCFFF);
}

#[test]
fn push_puts_the_low_byte_at_the_lower_address() {
    // PUSH BC
    let mut cpu = cpu_at(0x0100, &[0xC5]);
    cpu.register.write_16(RegisterType16::BC, 0x1234);
    assert_eq!(cpu.tick(), Ok(16));
    assert_eq!(cpu.register.read_16(RegisterType16::SP), 0xDFEE);
    assert_eq!(cpu.memory.read(0xDFEF), 0x12);
    assert_eq!(cpu.memory.read(0xDFEE), 0x34);
}

#[test]
fn pop_reads_the_low_byte_first() {
    // POP DE
    let mut cpu = cpu_at(0x0100, &[0xD1]);
    cpu.memory.write(0xDFF0, 0x78);
    cpu.memory.write(0xDFF1, 0x56);
    assert_eq!(cpu.tick(), Ok(12));
    assert_eq!(cpu.register.read_16(RegisterType16::DE), 0x5678);
    assert_eq!(cpu.register.read_16(RegisterType16::SP), 0xDFF2);
}

#[test]
fn push_then_pop_gives_back_the_pair() {
    for (push, pop, pair) in [
        (0xC5u8, 0xC1u8, RegisterType16::BC),
        (0xD5, 0xD1, RegisterType16::DE),
        (0xE5, 0xE1, RegisterType16::HL),
        (0xF5, 0xF1, RegisterType16::AF),
    ] {
        for value in [0x0000u16, 0x1230, 0xFFF0, 0x80F0, 0x00B0] {
            let mut cpu = cpu_at(0x0100, &[push, pop]);
            cpu.register.write_16(pair, value);
            assert_eq!(run(&mut cpu, 2), 28);
            assert_eq!(cpu.register.read_16(pair), value);
            assert_eq!(cpu.register.read_16(RegisterType16::SP), 0xDFF0);
        }
    }
}

#[test]
fn push_into_another_pair() {
    // PUSH BC; POP HL
    let mut cpu = cpu_at(0x0100, &[0xC5, 0xE1]);
    cpu.register.write_16(RegisterType16::BC, 0xBEEF);
    run(&mut cpu, 2);
    assert_eq!(cpu.register.read_16(RegisterType16::HL), 0xBEEF);
}

#[test]
fn pop_af_keeps_the_low_nibble_of_f_zero() {
    // POP AF
    let mut cpu = cpu_at(0x0100, &[0xF1]);
    cpu.memory.write(0xDFF0, 0xFF);
    cpu.memory.write(0xDFF1, 0x12);
    cpu.tick().unwrap();
    assert_eq!(cpu.register.read_8(RegisterType8::A), 0x12);
    assert_eq!(cpu.register.read_8(RegisterType8::F), 0xF0);
    assert_eq!(cpu.register.read_16(RegisterType16::AF), 0x12F0);
}

#[test]
fn stack_wraps_at_the_ends_of_the_address_space() {
    // PUSH BC with SP = 0x0001: the high byte goes to 0x0000, the low byte
    // beyond the flat array.
    let mut cpu = cpu_at(0x0100, &[0xC5]);
    cpu.register.write_16(RegisterType16::SP, 0x0001);
    cpu.register.write_16(RegisterType16::BC, 0x1234);
    cpu.tick().unwrap();
    assert_eq!(cpu.register.read_16(RegisterType16::SP), 0xFFFF);
    assert_eq!(cpu.memory.read(0x0000), 0x12);
    assert_eq!(cpu.memory.read(0xFFFF), 0x00);
}

#[test]
fn add_sets_the_half_carry_at_the_nibble_boundary() {
    // LD A,0x0F; ADD A,0x01
    let mut cpu = cpu_at(0x0100, &[0x3E, 0x0F, 0xC6, 0x01]);
    assert_eq!(run(&mut cpu, 2), 16);
    assert_eq!(cpu.register.read_8(RegisterType8::A), 0x10);
    assert_eq!(flags(&cpu), (false, false, true, false));
}

#[test]
fn add_wraps_with_both_carries() {
    // LD A,0xFF; ADD A,0x01
    let mut cpu = cpu_at(0x0100, &[0x3E, 0xFF, 0xC6, 0x01]);
    run(&mut cpu, 2);
    assert_eq!(cpu.register.read_8(RegisterType8::A), 0x00);
    assert_eq!(flags(&cpu), (true, false, true, true));
}

#[test]
fn add_then_sub_restores_the_accumulator() {
    // ADD A,B; SUB A,B
    for (a, b, carries) in [(0x12u8, 0x34u8, (false, false)), (0x0F, 0x01, (true, false)),
        (0xF0, 0x20, (false, true)), (0xFF, 0x01, (true, true)), (0x00, 0x00, (false, false))]
    {
        let mut cpu = cpu_at(0x0100, &[0x80, 0x90]);
        cpu.register.write_8(RegisterType8::A, a);
        cpu.register.write_8(RegisterType8::B, b);
        assert_eq!(run(&mut cpu, 2), 8);
        assert_eq!(cpu.register.read_8(RegisterType8::A), a);
        assert_eq!(flags(&cpu), (a == 0, true, carries.0, carries.1));
    }
}

#[test]
fn add_a_to_itself_then_sub_gives_zero() {
    // ADD A,A; SUB A,A
    let mut cpu = cpu_at(0x0100, &[0x87, 0x97]);
    cpu.register.write_8(RegisterType8::A, 0x21);
    cpu.tick().unwrap();
    assert_eq!(cpu.register.read_8(RegisterType8::A), 0x42);
    cpu.tick().unwrap();
    assert_eq!(cpu.register.read_8(RegisterType8::A), 0x00);
    assert_eq!(flags(&cpu), (true, true, false, false));
}

#[test]
fn accumulator_operations_on_registers_and_memory() {
    // ADD A,(HL)
    let mut cpu = cpu_at(0x0100, &[0x86]);
    cpu.register.write_16(RegisterType16::HL, 0xC000);
    cpu.memory.write(0xC000, 0x22);
    cpu.register.write_8(RegisterType8::A, 0x11);
    assert_eq!(cpu.tick(), Ok(8));
    assert_eq!(cpu.register.read_8(RegisterType8::A), 0x33);
    // SUB A,C
    let mut cpu = cpu_at(0x0100, &[0x91]);
    cpu.register.write_8(RegisterType8::A, 0x10);
    cpu.register.write_8(RegisterType8::C, 0x01);
    assert_eq!(cpu.tick(), Ok(4));
    assert_eq!(cpu.register.read_8(RegisterType8::A), 0x0F);
    assert_eq!(flags(&cpu), (false, true, true, false));
}

#[test]
fn adc_and_sbc_use_the_carry() {
    // SCF; ADC A,0x0F; SCF; SBC A,0x10
    let mut cpu = cpu_at(0x0100, &[0x37, 0xCE, 0x0F, 0x37, 0xDE, 0x10]);
    cpu.register.write_8(RegisterType8::A, 0x00);
    cpu.tick().unwrap();
    assert_eq!(cpu.tick(), Ok(8));
    assert_eq!(cpu.register.read_8(RegisterType8::A), 0x10);
    assert_eq!(flags(&cpu), (false, false, true, false));
    cpu.tick().unwrap();
    assert_eq!(cpu.tick(), Ok(8));
    assert_eq!(cpu.register.read_8(RegisterType8::A), 0xFF);
    assert_eq!(flags(&cpu), (false, true, true, true));
}

#[test]
fn adc_without_carry_is_add() {
    // ADC A,B
    let mut cpu = cpu_at(0x0100, &[0x88]);
    cpu.register.write_8(RegisterType8::A, 0x01);
    cpu.register.write_8(RegisterType8::B, 0x02);
    assert_eq!(cpu.tick(), Ok(4));
    assert_eq!(cpu.register.read_8(RegisterType8::A), 0x03);
}

#[test]
fn compare_leaves_the_accumulator() {
    // CP 0x42; CP 0x43; CP B
    let mut cpu = cpu_at(0x0100, &[0xFE, 0x42, 0xFE, 0x43, 0xB8]);
    cpu.register.write_8(RegisterType8::A, 0x42);
    cpu.register.write_8(RegisterType8::B, 0x02);
    assert_eq!(cpu.tick(), Ok(8));
    assert_eq!(cpu.register.read_8(RegisterType8::A), 0x42);
    assert_eq!(flags(&cpu), (true, true, false, false));
    cpu.tick().unwrap();
    assert_eq!(cpu.register.read_8(RegisterType8::A), 0x42);
    assert_eq!(flags(&cpu), (false, true, true, true));
    assert_eq!(cpu.tick(), Ok(4));
    assert_eq!(flags(&cpu), (false, true, false, false));
}

#[test]
fn logic_instructions_set_their_flags() {
    // AND 0x0F; OR 0xF0; XOR 0xFF
    let mut cpu = cpu_at(0x0100, &[0xE6, 0x0F, 0xF6, 0xF0, 0xEE, 0xFF]);
    cpu.register.write_8(RegisterType8::A, 0x3C);
    cpu.register.write_8(RegisterType8::F, 0xF0);
    assert_eq!(cpu.tick(), Ok(8));
    assert_eq!(cpu.register.read_8(RegisterType8::A), 0x0C);
    assert_eq!(flags(&cpu), (false, false, true, false));
    assert_eq!(cpu.tick(), Ok(8));
    assert_eq!(cpu.register.read_8(RegisterType8::A), 0xFC);
    assert_eq!(flags(&cpu), (false, false, false, false));
    assert_eq!(cpu.tick(), Ok(8));
    assert_eq!(cpu.register.read_8(RegisterType8::A), 0x03);
    assert_eq!(flags(&cpu), (false, false, false, false));
}

#[test]
fn xor_a_clears_the_accumulator() {
    // XOR A
    let mut cpu = cpu_at(0x0100, &[0xAF]);
    cpu.register.write_8(RegisterType8::A, 0x5A);
    assert_eq!(cpu.tick(), Ok(4));
    assert_eq!(cpu.register.read_8(RegisterType8::A), 0x00);
    assert_eq!(flags(&cpu), (true, false, false, false));
}

#[test]
fn inc_and_dec_leave_the_carry() {
    // INC B; DEC C
    let mut cpu = cpu_at(0x0100, &[0x04, 0x0D]);
    cpu.register.write_8(RegisterType8::B, 0xFF);
    cpu.register.write_8(RegisterType8::C, 0x10);
    cpu.register.write_8(RegisterType8::F, 0x10);
    cpu.tick().unwrap();
    assert_eq!(cpu.register.read_8(RegisterType8::B), 0x00);
    assert_eq!(flags(&cpu), (true, false, true, true));
    cpu.tick().unwrap();
    assert_eq!(cpu.register.read_8(RegisterType8::C), 0x0F);
    assert_eq!(flags(&cpu), (false, true, true, true));
}

#[test]
fn inc_and_dec_with_the_carry_clear() {
    // INC A; DEC A; DEC A
    let mut cpu = cpu_at(0x0100, &[0x3C, 0x3D, 0x3D]);
    cpu.register.write_8(RegisterType8::A, 0x00);
    cpu.register.write_8(RegisterType8::F, 0x00);
    cpu.tick().unwrap();
    assert_eq!(cpu.register.read_8(RegisterType8::A), 0x01);
    assert_eq!(flags(&cpu), (false, false, false, false));
    cpu.tick().unwrap();
    assert_eq!(cpu.register.read_8(RegisterType8::A), 0x00);
    assert_eq!(flags(&cpu), (true, true, false, false));
    cpu.tick().unwrap();
    assert_eq!(cpu.register.read_8(RegisterType8::A), 0xFF);
    assert_eq!(flags(&cpu), (false, true, true, false));
}

#[test]
fn inc_and_dec_through_hl() {
    // INC (HL); DEC (HL); DEC (HL)
    let mut cpu = cpu_at(0x0100, &[0x34, 0x35, 0x35]);
    cpu.register.write_16(RegisterType16::HL, 0xC000);
    cpu.memory.write(0xC000, 0x0F);
    cpu.tick().unwrap();
    assert_eq!(cpu.memory.read(0xC000), 0x10);
    assert_eq!(flags(&cpu), (false, false, true, false));
    cpu.tick().unwrap();
    assert_eq!(cpu.memory.read(0xC000), 0x0F);
    assert_eq!(flags(&cpu), (false, true, true, false));
    cpu.tick().unwrap();
    assert_eq!(cpu.memory.read(0xC000), 0x0E);
    assert_eq!(flags(&cpu), (false, true, false, false));
}

#[test]
fn pair_increments_change_no_flag() {
    // INC BC; DEC DE; INC SP
    let mut cpu = cpu_at(0x0100, &[0x03, 0x1B, 0x33]);
    cpu.register.write_16(RegisterType16::BC, 0xFFFF);
    cpu.register.write_16(RegisterType16::DE, 0x0000);
    cpu.register.write_8(RegisterType8::F, 0x00);
    assert_eq!(cpu.tick(), Ok(8));
    assert_eq!(cpu.register.read_16(RegisterType16::BC), 0x0000);
    cpu.tick().unwrap();
    assert_eq!(cpu.register.read_16(RegisterType16::DE), 0xFFFF);
    cpu.tick().unwrap();
    assert_eq!(cpu.register.read_16(RegisterType16::SP), 0xDFF1);
    assert_eq!(cpu.register.read_8(RegisterType8::F), 0x00);
}

#[test]
fn add_hl_carries_at_bit_eleven_and_leaves_zero() {
    // ADD HL,BC
    let mut cpu = cpu_at(0x0100, &[0x09]);
    cpu.register.write_16(RegisterType16::HL, 0x0FFF);
    cpu.register.write_16(RegisterType16::BC, 0x0001);
    cpu.register.write_8(RegisterType8::F, 0xC0);
    assert_eq!(cpu.tick(), Ok(4));
    assert_eq!(cpu.register.read_16(RegisterType16::HL), 0x1000);
    assert_eq!(flags(&cpu), (true, false, true, false));
    // ADD HL,HL
    let mut cpu = cpu_at(0x0100, &[0x29]);
    cpu.register.write_16(RegisterType16::HL, 0x8000);
    cpu.register.write_8(RegisterType8::F, 0x00);
    cpu.tick().unwrap();
    assert_eq!(cpu.register.read_16(RegisterType16::HL), 0x0000);
    assert_eq!(flags(&cpu), (false, false, false, true));
    // ADD HL,SP
    let mut cpu = cpu_at(0x0100, &[0x39]);
    cpu.register.write_16(RegisterType16::HL, 0x0010);
    cpu.tick().unwrap();
    assert_eq!(cpu.register.read_16(RegisterType16::HL), 0xE000);
}

#[test]
fn decimal_adjust_after_nine_plus_nine() {
    // LD A,0x09; ADD A,0x09; DAA
    let mut cpu = cpu_at(0x0100, &[0x3E, 0x09, 0xC6, 0x09, 0x27]);
    cpu.register.write_8(RegisterType8::F, 0x00);
    run(&mut cpu, 2);
    assert_eq!(cpu.register.read_8(RegisterType8::A), 0x12);
    assert_eq!(flags(&cpu), (false, false, true, false));
    assert_eq!(cpu.tick(), Ok(4));
    assert_eq!(cpu.register.read_8(RegisterType8::A), 0x18);
    assert_eq!(flags(&cpu), (false, false, false, false));
}

#[test]
fn decimal_adjust_carries_past_ninety_nine() {
    // LD A,0x99; ADD A,0x01; DAA
    let mut cpu = cpu_at(0x0100, &[0x3E, 0x99, 0xC6, 0x01, 0x27]);
    run(&mut cpu, 3);
    assert_eq!(cpu.register.read_8(RegisterType8::A), 0x00);
    assert_eq!(flags(&cpu), (true, false, false, true));
    // LD A,0x90; ADD A,0x90; DAA
    let mut cpu = cpu_at(0x0100, &[0x3E, 0x90, 0xC6, 0x90, 0x27]);
    run(&mut cpu, 3);
    assert_eq!(cpu.register.read_8(RegisterType8::A), 0x80);
    assert_eq!(flags(&cpu), (false, false, false, true));
}

#[test]
fn decimal_adjust_after_subtraction() {
    // LD A,0x20; SUB 0x01; DAA
    let mut cpu = cpu_at(0x0100, &[0x3E, 0x20, 0xD6, 0x01, 0x27]);
    run(&mut cpu, 3);
    assert_eq!(cpu.register.read_8(RegisterType8::A), 0x19);
    assert_eq!(flags(&cpu), (false, true, false, false));
    // LD A,0x00; SUB 0x01; DAA
    let mut cpu = cpu_at(0x0100, &[0x3E, 0x00, 0xD6, 0x01, 0x27]);
    run(&mut cpu, 3);
    assert_eq!(cpu.register.read_8(RegisterType8::A), 0x99);
    assert_eq!(flags(&cpu), (false, true, false, true));
    // LD A,0x10; SUB 0x20; DAA
    let mut cpu = cpu_at(0x0100, &[0x3E, 0x10, 0xD6, 0x20, 0x27]);
    run(&mut cpu, 3);
    assert_eq!(cpu.register.read_8(RegisterType8::A), 0x90);
    assert_eq!(flags(&cpu), (false, true, false, true));
}

#[test]
fn complement_and_carry_instructions() {
    // CPL; SCF; CCF; CCF
    let mut cpu = cpu_at(0x0100, &[0x2F, 0x37, 0x3F, 0x3F]);
    cpu.register.write_8(RegisterType8::A, 0x35);
    cpu.register.write_8(RegisterType8::F, 0x80);
    assert_eq!(cpu.tick(), Ok(0));
    assert_eq!(cpu.register.read_8(RegisterType8::A), 0xCA);
    assert_eq!(flags(&cpu), (true, true, true, false));
    assert_eq!(cpu.tick(), Ok(4));
    assert_eq!(flags(&cpu), (true, false, false, true));
    assert_eq!(cpu.tick(), Ok(4));
    assert_eq!(flags(&cpu), (true, false, false, false));
    assert_eq!(cpu.tick(), Ok(4));
    assert_eq!(flags(&cpu), (true, false, false, true));
}

#[test]
fn jr_minus_two_loops_on_itself() {
    // JR -2
    let mut cpu = cpu_at(0x0200, &[0x18, 0xFE]);
    assert_eq!(cpu.tick(), Ok(12));
    assert_eq!(cpu.register.read_16(RegisterType16::PC), 0x0200);
    assert_eq!(cpu.tick(), Ok(12));
    assert_eq!(cpu.register.read_16(RegisterType16::PC), 0x0200);
}

#[test]
fn jr_forward_and_backward() {
    // JR +5
    let mut cpu = cpu_at(0x0200, &[0x18, 0x05]);
    cpu.tick().unwrap();
    assert_eq!(cpu.register.read_16(RegisterType16::PC), 0x0207);
    // JR -128
    let mut cpu = cpu_at(0x0200, &[0x18, 0x80]);
    cpu.tick().unwrap();
    assert_eq!(cpu.register.read_16(RegisterType16::PC), 0x0182);
    // JR -3 at 0x0000 wraps
    let mut cpu = cpu_at(0x0000, &[0x18, 0xFD]);
    cpu.tick().unwrap();
    assert_eq!(cpu.register.read_16(RegisterType16::PC), 0xFFFF);
}

#[test]
fn conditional_jr_costs_more_when_taken() {
    for (opcode, flag_byte, taken) in [
        (0x20u8, 0x00u8, true),
        (0x20, 0x80, false),
        (0x28, 0x80, true),
        (0x28, 0x00, false),
        (0x30, 0x00, true),
        (0x30, 0x10, false),
        (0x38, 0x10, true),
        (0x38, 0x00, false),
    ] {
        let mut cpu = cpu_at(0x0200, &[opcode, 0x10]);
        cpu.register.write_8(RegisterType8::F, flag_byte);
        if taken {
            assert_eq!(cpu.tick(), Ok(12));
            assert_eq!(cpu.register.read_16(RegisterType16::PC), 0x0212);
        } else {
            assert_eq!(cpu.tick(), Ok(8));
            assert_eq!(cpu.register.read_16(RegisterType16::PC), 0x0202);
        }
    }
}

#[test]
fn jp_goes_to_the_word() {
    // JP 0x1234
    let mut cpu = cpu_at(0x0100, &[0xC3, 0x34, 0x12]);
    assert_eq!(cpu.tick(), Ok(16));
    assert_eq!(cpu.register.read_16(RegisterType16::PC), 0x1234);
    // JP HL
    let mut cpu = cpu_at(0x0100, &[0xE9]);
    cpu.register.write_16(RegisterType16::HL, 0x4321);
    assert_eq!(cpu.tick(), Ok(4));
    assert_eq!(cpu.register.read_16(RegisterType16::PC), 0x4321);
}

#[test]
fn conditional_jp_costs_more_when_taken() {
    for (opcode, flag_byte, taken) in [
        (0xC2u8, 0x00u8, true),
        (0xC2, 0x80, false),
        (0xCA, 0x80, true),
        (0xCA, 0x00, false),
        (0xD2, 0x00, true),
        (0xD2, 0x10, false),
        (0xDA, 0x10, true),
        (0xDA, 0x00, false),
    ] {
        let mut cpu = cpu_at(0x0200, &[opcode, 0x34, 0x12]);
        cpu.register.write_8(RegisterType8::F, flag_byte);
        if taken {
            assert_eq!(cpu.tick(), Ok(16));
            assert_eq!(cpu.register.read_16(RegisterType16::PC), 0x1234);
        } else {
            assert_eq!(cpu.tick(), Ok(12));
            assert_eq!(cpu.register.read_16(RegisterType16::PC), 0x0203);
        }
    }
}

#[test]
fn call_pushes_the_address_after_it() {
    // CALL 0x1234
    let mut cpu = cpu_at(0x0200, &[0xCD, 0x34, 0x12]);
    assert_eq!(cpu.tick(), Ok(24));
    assert_eq!(cpu.register.read_16(RegisterType16::PC), 0x1234);
    assert_eq!(cpu.register.read_16(RegisterType16::SP), 0xDFEE);
    assert_eq!(cpu.memory.read(0xDFEF), 0x02);
    assert_eq!(cpu.memory.read(0xDFEE), 0x03);
}

#[test]
fn call_then_ret_comes_back() {
    // 0x0200: CALL 0x0300 ... 0x0300: RET
    let mut cpu = cpu_at(0x0200, &[0xCD, 0x00, 0x03]);
    cpu.memory.write(0x0300, 0xC9);
    assert_eq!(cpu.tick(), Ok(24));
    assert_eq!(cpu.tick(), Ok(16));
    assert_eq!(cpu.register.read_16(RegisterType16::PC), 0x0203);
    assert_eq!(cpu.register.read_16(RegisterType16::SP), 0xDFF0);
}

#[test]
fn conditional_call_costs_more_when_taken() {
    for (opcode, flag_byte, taken) in [
        (0xC4u8, 0x00u8, true),
        (0xC4, 0x80, false),
        (0xCC, 0x80, true),
        (0xCC, 0x00, false),
        (0xD4, 0x00, true),
        (0xD4, 0x10, false),
        (0xDC, 0x10, true),
        (0xDC, 0x00, false),
    ] {
        let mut cpu = cpu_at(0x0200, &[opcode, 0x34, 0x12]);
        cpu.register.write_8(RegisterType8::F, flag_byte);
        if taken {
            assert_eq!(cpu.tick(), Ok(24));
            assert_eq!(cpu.register.read_16(RegisterType16::PC), 0x1234);
            assert_eq!(cpu.register.read_16(RegisterType16::SP), 0xDFEE);
            assert_eq!(cpu.memory.read(0xDFEF), 0x02);
            assert_eq!(cpu.memory.read(0xDFEE), 0x03);
        } else {
            assert_eq!(cpu.tick(), Ok(12));
            assert_eq!(cpu.register.read_16(RegisterType16::PC), 0x0203);
            assert_eq!(cpu.register.read_16(RegisterType16::SP), 0xDFF0);
            assert_eq!(cpu.memory.read(0xDFEF), 0x00);
        }
    }
}

#[test]
fn conditional_ret_costs_more_when_taken() {
    for (opcode, flag_byte, taken) in [
        (0xC0u8, 0x00u8, true),
        (0xC0, 0x80, false),
        (0xC8, 0x80, true),
        (0xC8, 0x00, false),
        (0xD0, 0x00, true),
        (0xD0, 0x10, false),
        (0xD8, 0x10, true),
        (0xD8, 0x00, false),
    ] {
        let mut cpu = cpu_at(0x0200, &[opcode]);
        cpu.memory.write(0xDFF0, 0x34);
        cpu.memory.write(0xDFF1, 0x12);
        cpu.register.write_8(RegisterType8::F, flag_byte);
        if taken {
            assert_eq!(cpu.tick(), Ok(20));
            assert_eq!(cpu.register.read_16(RegisterType16::PC), 0x1234);
            assert_eq!(cpu.register.read_16(RegisterType16::SP), 0xDFF2);
        } else {
            assert_eq!(cpu.tick(), Ok(8));
            assert_eq!(cpu.register.read_16(RegisterType16::PC), 0x0201);
            assert_eq!(cpu.register.read_16(RegisterType16::SP), 0xDFF0);
        }
    }
}

#[test]
fn reti_returns_and_enables_interrupts() {
    // RETI
    let mut cpu = cpu_at(0x0200, &[0xD9]);
    cpu.memory.write(0xDFF0, 0x34);
    cpu.memory.write(0xDFF1, 0x12);
    assert!(!cpu.register.ime());
    assert_eq!(cpu.tick(), Ok(16));
    assert_eq!(cpu.register.read_16(RegisterType16::PC), 0x1234);
    assert_eq!(cpu.register.read_16(RegisterType16::SP), 0xDFF2);
    assert!(cpu.register.ime());
}

#[test]
fn ei_and_di_switch_the_master_enable() {
    // EI; DI
    let mut cpu = cpu_at(0x0200, &[0xFB, 0xF3]);
    cpu.register.write_8(RegisterType8::F, 0xA0);
    assert_eq!(cpu.tick(), Ok(4));
    assert!(cpu.register.ime());
    assert_eq!(cpu.tick(), Ok(4));
    assert!(!cpu.register.ime());
    assert_eq!(cpu.register.read_8(RegisterType8::F), 0xA0);
    assert_eq!(cpu.register.read_16(RegisterType16::SP), 0xDFF0);
}

#[test]
fn rst_pushes_the_program_counter() {
    for (opcode, vector) in [
        (0xC7u8, 0x00u8),
        (0xCF, 0x08),
        (0xD7, 0x10),
        (0xDF, 0x18),
        (0xE7, 0x20),
        (0xEF, 0x28),
        (0xF7, 0x30),
        (0xFF, 0x38),
    ] {
        let mut cpu = cpu_at(0x0200, &[opcode]);
        assert_eq!(cpu.tick(), Ok(16));
        assert_eq!(cpu.register.read_16(RegisterType16::PC), (vector as u16) << 8);
        assert_eq!(cpu.register.read_16(RegisterType16::SP), 0xDFEE);
        assert_eq!(cpu.memory.read(0xDFEF), 0x02);
        assert_eq!(cpu.memory.read(0xDFEE), 0x01);
    }
}

#[test]
fn accumulator_rotations_clear_zero() {
    // RLCA; RRCA; RLA; RRA
    let mut cpu = cpu_at(0x0100, &[0x07, 0x0F, 0x17, 0x1F]);
    cpu.register.write_8(RegisterType8::A, 0x80);
    cpu.register.write_8(RegisterType8::F, 0x80);
    assert_eq!(cpu.tick(), Ok(8));
    assert_eq!(cpu.register.read_8(RegisterType8::A), 0x01);
    assert_eq!(flags(&cpu), (false, false, false, true));
    cpu.tick().unwrap();
    assert_eq!(cpu.register.read_8(RegisterType8::A), 0x80);
    assert_eq!(flags(&cpu), (false, false, false, true));
    cpu.tick().unwrap();
    assert_eq!(cpu.register.read_8(RegisterType8::A), 0x01);
    assert_eq!(flags(&cpu), (false, false, false, true));
    cpu.tick().unwrap();
    assert_eq!(cpu.register.read_8(RegisterType8::A), 0x80);
    assert_eq!(flags(&cpu), (false, false, false, true));
}

#[test]
fn rla_to_zero_still_clears_zero() {
    // RLA
    let mut cpu = cpu_at(0x0100, &[0x17]);
    cpu.register.write_8(RegisterType8::A, 0x80);
    cpu.register.write_8(RegisterType8::F, 0x00);
    cpu.tick().unwrap();
    assert_eq!(cpu.register.read_8(RegisterType8::A), 0x00);
    assert_eq!(flags(&cpu), (false, false, false, true));
}

#[test]
fn extended_rotations_on_registers() {
    // RLC B; RRC C; RL D; RR E; SLA H; SRA L; SWAP A; SRL B
    let mut cpu = cpu_at(
        0x0100,
        &[
            0xCB, 0x00, 0xCB, 0x09, 0xCB, 0x12, 0xCB, 0x1B, 0xCB, 0x24, 0xCB, 0x2D, 0xCB, 0x37,
            0xCB, 0x38,
        ],
    );
    cpu.register.write_8(RegisterType8::F, 0x00);
    cpu.register.write_8(RegisterType8::B, 0x85);
    cpu.register.write_8(RegisterType8::C, 0x01);
    cpu.register.write_8(RegisterType8::D, 0x80);
    cpu.register.write_8(RegisterType8::E, 0x01);
    cpu.register.write_8(RegisterType8::H, 0xC1);
    cpu.register.write_8(RegisterType8::L, 0x81);
    cpu.register.write_8(RegisterType8::A, 0xA5);
    assert_eq!(cpu.tick(), Ok(8));
    assert_eq!(cpu.register.read_8(RegisterType8::B), 0x0B);
    assert_eq!(flags(&cpu), (false, false, false, true));
    assert_eq!(cpu.tick(), Ok(8));
    assert_eq!(cpu.register.read_8(RegisterType8::C), 0x80);
    assert_eq!(flags(&cpu), (false, false, false, true));
    assert_eq!(cpu.tick(), Ok(8));
    assert_eq!(cpu.register.read_8(RegisterType8::D), 0x01);
    assert_eq!(flags(&cpu), (false, false, false, true));
    assert_eq!(cpu.tick(), Ok(8));
    assert_eq!(cpu.register.read_8(RegisterType8::E), 0x80);
    assert_eq!(flags(&cpu), (false, false, false, true));
    assert_eq!(cpu.tick(), Ok(8));
    assert_eq!(cpu.register.read_8(RegisterType8::H), 0x82);
    assert_eq!(flags(&cpu), (false, false, false, true));
    assert_eq!(cpu.tick(), Ok(8));
    assert_eq!(cpu.register.read_8(RegisterType8::L), 0xC0);
    assert_eq!(flags(&cpu), (false, false, false, true));
    assert_eq!(cpu.tick(), Ok(8));
    assert_eq!(cpu.register.read_8(RegisterType8::A), 0x5A);
    assert_eq!(flags(&cpu), (false, false, false, false));
    assert_eq!(cpu.tick(), Ok(8));
    assert_eq!(cpu.register.read_8(RegisterType8::B), 0x05);
    assert_eq!(flags(&cpu), (false, false, false, true));
    assert_eq!(cpu.register.read_16(RegisterType16::PC), 0x0110);
}

#[test]
fn extended_rotations_set_zero() {
    // SLA B; SWAP C
    let mut cpu = cpu_at(0x0100, &[0xCB, 0x20, 0xCB, 0x31]);
    cpu.register.write_8(RegisterType8::B, 0x80);
    cpu.register.write_8(RegisterType8::C, 0x00);
    cpu.register.write_8(RegisterType8::F, 0x70);
    cpu.tick().unwrap();
    assert_eq!(cpu.register.read_8(RegisterType8::B), 0x00);
    assert_eq!(flags(&cpu), (true, false, false, true));
    cpu.tick().unwrap();
    assert_eq!(flags(&cpu), (true, false, false, false));
}

#[test]
fn extended_rotations_through_hl() {
    // RLC (HL); SRL (HL); SWAP (HL)
    let mut cpu = cpu_at(0x0100, &[0xCB, 0x06, 0xCB, 0x3E, 0xCB, 0x36]);
    cpu.register.write_16(RegisterType16::HL, 0xC000);
    cpu.memory.write(0xC000, 0x81);
    assert_eq!(cpu.tick(), Ok(8));
    assert_eq!(cpu.memory.read(0xC000), 0x03);
    assert_eq!(flags(&cpu), (false, false, false, true));
    cpu.tick().unwrap();
    assert_eq!(cpu.memory.read(0xC000), 0x01);
    assert_eq!(flags(&cpu), (false, false, false, true));
    cpu.tick().unwrap();
    assert_eq!(cpu.memory.read(0xC000), 0x10);
    assert_eq!(flags(&cpu), (false, false, false, false));
}

#[test]
fn bit_tests_every_position() {
    for bit in 0..8u8 {
        // BIT bit,B
        let mut cpu = cpu_at(0x0100, &[0xCB, 0x40 + 8 * bit, 0xCB, 0x40 + 8 * bit]);
        cpu.register.write_8(RegisterType8::B, 1 << bit);
        cpu.register.write_8(RegisterType8::F, 0x50);
        assert_eq!(cpu.tick(), Ok(8));
        assert_eq!(flags(&cpu), (false, false, true, true));
        cpu.register.write_8(RegisterType8::B, !(1 << bit));
        cpu.register.write_8(RegisterType8::F, 0x40);
        assert_eq!(cpu.tick(), Ok(8));
        assert_eq!(flags(&cpu), (true, false, true, false));
        assert_eq!(cpu.register.read_8(RegisterType8::B), !(1 << bit));
    }
}

#[test]
fn bit_tests_through_hl_and_on_a() {
    // BIT 7,(HL); BIT 0,A
    let mut cpu = cpu_at(0x0100, &[0xCB, 0x7E, 0xCB, 0x47]);
    cpu.register.write_16(RegisterType16::HL, 0xC000);
    cpu.memory.write(0xC000, 0x80);
    cpu.register.write_8(RegisterType8::A, 0xFE);
    cpu.tick().unwrap();
    assert_eq!(flags(&cpu), (false, false, true, false));
    assert_eq!(cpu.memory.read(0xC000), 0x80);
    cpu.tick().unwrap();
    assert_eq!(flags(&cpu), (true, false, true, false));
}

#[test]
fn res_and_set_change_one_bit_and_no_flag() {
    for bit in 0..8u8 {
        // RES bit,C; SET bit,D
        let mut cpu = cpu_at(0x0100, &[0xCB, 0x81 + 8 * bit, 0xCB, 0xC2 + 8 * bit]);
        cpu.register.write_8(RegisterType8::C, 0xFF);
        cpu.register.write_8(RegisterType8::D, 0x00);
        cpu.register.write_8(RegisterType8::F, 0xF0);
        assert_eq!(cpu.tick(), Ok(8));
        assert_eq!(cpu.register.read_8(RegisterType8::C), !(1 << bit));
        assert_eq!(cpu.tick(), Ok(8));
        assert_eq!(cpu.register.read_8(RegisterType8::D), 1 << bit);
        assert_eq!(cpu.register.read_8(RegisterType8::F), 0xF0);
    }
}

#[test]
fn res_and_set_through_hl() {
    // SET 3,(HL); RES 0,(HL)
    let mut cpu = cpu_at(0x0100, &[0xCB, 0xDE, 0xCB, 0x86]);
    cpu.register.write_16(RegisterType16::HL, 0xC000);
    cpu.memory.write(0xC000, 0x01);
    cpu.tick().unwrap();
    assert_eq!(cpu.memory.read(0xC000), 0x09);
    cpu.tick().unwrap();
    assert_eq!(cpu.memory.read(0xC000), 0x08);
}

#[test]
fn low_nibble_of_f_stays_zero_through_a_program() {
    let program = [
        0x3E, 0xFF, 0xC6, 0x01, 0x27, 0x3F, 0x37, 0x2F, 0xF5, 0xC1, 0xC5, 0xF1, 0x04, 0x05, 0xCB,
        0x37, 0xCB, 0x40, 0x09, 0xAF, 0xB8, 0x17,
    ];
    let mut cpu = cpu_at(0x0100, &program);
    cpu.register.write_8(RegisterType8::C, 0xFF);
    for _ in 0..20 {
        cpu.tick().unwrap();
        assert_eq!(cpu.register.read_8(RegisterType8::F) & 0x0F, 0);
        assert_eq!(cpu.register.read_16(RegisterType16::AF) & 0x000F, 0);
    }
}

#[test]
fn serial_write_from_a_program() {
    // LD A,'H'; LDH (0x01),A; LD A,0x81; LDH (0x02),A
    let mut cpu = cpu_at(0x0100, &[0x3E, 0x48, 0xE0, 0x01, 0x3E, 0x81, 0xE0, 0x02]);
    run(&mut cpu, 3);
    assert_eq!(cpu.memory.take_serial(), Vec::<u8>::new());
    cpu.tick().unwrap();
    assert_eq!(cpu.memory.take_serial(), vec![0x48]);
    assert_eq!(cpu.register.read_8(RegisterType8::A), 0x81);
    assert_eq!(cpu.register.read_16(RegisterType16::PC), 0x0108);
    assert_eq!(cpu.register.read_16(RegisterType16::SP), 0xDFF0);
}

#[test]
fn program_counter_wraps_at_the_end() {
    let mut cpu = cpu_at(0xFFFE, &[0x00]);
    cpu.tick().unwrap();
    assert_eq!(cpu.register.read_16(RegisterType16::PC), 0xFFFF);
    assert_eq!(cpu.tick(), Ok(4));
    assert_eq!(cpu.register.read_16(RegisterType16::PC), 0x0000);
}

#[test]
fn program_runs_from_the_boot_overlay() {
    let mut cpu = CPU::new();
    cpu.memory.write_game(&[0x3E, 0x11]);
    let mut bootrom = [0u8; 0x100];
    bootrom[0] = 0x3E;
    bootrom[1] = 0x22;
    cpu.memory.write_bootrom(&bootrom);
    cpu.register.write_16(RegisterType16::PC, 0);
    assert_eq!(cpu.tick(), Ok(8));
    assert_eq!(cpu.register.read_8(RegisterType8::A), 0x22);
}
