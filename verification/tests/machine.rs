use mos6502::cpu::{AddressingMode, CpuError, Progress, CPU, RUN_LIMIT};
use mos6502::opcodes::{Instruction, OpCode};
use mos6502::status::{
    FLAG_BREAK, FLAG_CARRY, FLAG_DECIMAL_MODE, FLAG_INTERRUPT_DISABLE, FLAG_NEGATIVE,
    FLAG_OVERFLOW, FLAG_UNUSED, FLAG_ZERO,
};

fn machine_with(program: Vec<u8>) -> CPU {
    let mut cpu = CPU::new();
    cpu.load_and_reset(program);
    cpu
}

#[test]
fn new_machine_is_all_zero() {
    let cpu = CPU::new();
    assert_eq!(cpu.register_a, 0);
    assert_eq!(cpu.register_x, 0);
    assert_eq!(cpu.register_y, 0);
    assert_eq!(cpu.status, 0);
    assert_eq!(cpu.program_counter, 0);
    assert_eq!(cpu.memory.len(), 65536);
    assert!(cpu.memory.iter().all(|b| *b == 0));
}

#[test]
fn status_bits_are_laid_out_from_carry_to_negative() {
    assert_eq!(FLAG_CARRY, 0x01);
    assert_eq!(FLAG_ZERO, 0x02);
    assert_eq!(FLAG_INTERRUPT_DISABLE, 0x04);
    assert_eq!(FLAG_DECIMAL_MODE, 0x08);
    assert_eq!(FLAG_BREAK, 0x10);
    assert_eq!(FLAG_UNUSED, 0x20);
    assert_eq!(FLAG_OVERFLOW, 0x40);
    assert_eq!(FLAG_NEGATIVE, 0x80);
}

#[test]
fn check_flag_wants_every_bit_of_the_mask() {
    let mut cpu = CPU::new();
    cpu.set_flag(FLAG_CARRY);
    assert!(cpu.check_flag(FLAG_CARRY));
    assert!(!cpu.check_flag(FLAG_CARRY | FLAG_ZERO));
    cpu.set_flag(FLAG_ZERO);
    assert!(cpu.check_flag(FLAG_CARRY | FLAG_ZERO));
    assert_eq!(cpu.status, 0x03);
    cpu.clear_flag(FLAG_CARRY);
    assert_eq!(cpu.status, 0x02);
    cpu.set_flag_if(FLAG_OVERFLOW, true);
    assert_eq!(cpu.status, 0x42);
    cpu.set_flag_if(FLAG_ZERO, false);
    assert_eq!(cpu.status, 0x40);
}

#[test]
fn zero_and_negative_follow_the_result_and_keep_the_rest() {
    let mut cpu = CPU::new();
    cpu.status = 0xFF;
    cpu.update_zero_and_negative_flags(0x01);
    assert_eq!(cpu.status, 0x7D);
    cpu.update_zero_and_negative_flags(0x00);
    assert_eq!(cpu.status, 0x7F);
    cpu.update_zero_and_negative_flags(0x80);
    assert_eq!(cpu.status, 0xFD);
    cpu.status = 0x00;
    cpu.update_zero_flag(0);
    assert_eq!(cpu.status, 0x02);
    cpu.update_negative_flag(0xFF);
    assert_eq!(cpu.status, 0x82);
}

#[test]
fn every_loaded_value_sets_zero_and_negative_by_its_own_bits() {
    let mut cpu = CPU::new();
    for v in 0..=255u8 {
        for load in [0xA9u8, 0xA2, 0xA0] {
            assert_eq!(cpu.load_and_run(vec![load, v, 0x00]), Ok(Progress::Halted));
            let loaded = match load {
                0xA9 => cpu.register_a,
                0xA2 => cpu.register_x,
                _ => cpu.register_y,
            };
            assert_eq!(loaded, v);
            assert_eq!(cpu.check_flag(FLAG_ZERO), v == 0);
            assert_eq!(cpu.check_flag(FLAG_NEGATIVE), v >= 0x80);
            assert!(!(cpu.check_flag(FLAG_ZERO) && cpu.check_flag(FLAG_NEGATIVE)));
        }
    }
}

#[test]
fn inx_wraps_from_ff_to_zero_and_goes_on_to_one() {
    let mut cpu = machine_with(vec![0xE8, 0x00]);
    cpu.register_x = 0xFF;
    assert_eq!(cpu.run(), Ok(Progress::Halted));
    assert_eq!(cpu.register_x, 0x00);
    assert!(cpu.check_flag(FLAG_ZERO));
    assert!(!cpu.check_flag(FLAG_NEGATIVE));

    let mut cpu = machine_with(vec![0xE8, 0xE8, 0x00]);
    cpu.register_x = 0xFF;
    assert_eq!(cpu.run(), Ok(Progress::Halted));
    assert_eq!(cpu.register_x, 0x01);
    assert!(!cpu.check_flag(FLAG_ZERO));
}

#[test]
fn comparison_flags_hold_for_every_pair() {
    let mut cpu = CPU::new();
    for register in 0..=255u8 {
        for operand in 0..=255u8 {
            cpu.status = 0;
            cpu.program_counter = 0x0200;
            cpu.mem_write(0x0200, operand);
            assert_eq!(cpu.compare(&AddressingMode::Immediate, register), Ok(()));
            assert_eq!(cpu.check_flag(FLAG_CARRY), register >= operand);
            assert_eq!(cpu.check_flag(FLAG_ZERO), register == operand);
            assert_eq!(
                cpu.check_flag(FLAG_NEGATIVE),
                register.wrapping_sub(operand) >= 0x80
            );
            assert_eq!(cpu.program_counter, 0x0200);
        }
    }
}

#[test]
fn the_three_comparisons_read_their_own_register() {
    // LDA #$10; LDX #$20; LDY #$30; CMP #$20; BRK
    let mut cpu = CPU::new();
    cpu.load_and_run(vec![0xA9, 0x10, 0xA2, 0x20, 0xA0, 0x30, 0xC9, 0x20, 0x00]).unwrap();
    assert!(!cpu.check_flag(FLAG_CARRY));
    assert!(!cpu.check_flag(FLAG_ZERO));
    assert!(cpu.check_flag(FLAG_NEGATIVE));
    // ... CPX #$20
    cpu.load_and_run(vec![0xA9, 0x10, 0xA2, 0x20, 0xA0, 0x30, 0xE0, 0x20, 0x00]).unwrap();
    assert!(cpu.check_flag(FLAG_CARRY));
    assert!(cpu.check_flag(FLAG_ZERO));
    assert!(!cpu.check_flag(FLAG_NEGATIVE));
    // ... CPY #$20
    cpu.load_and_run(vec![0xA9, 0x10, 0xA2, 0x20, 0xA0, 0x30, 0xC0, 0x20, 0x00]).unwrap();
    assert!(cpu.check_flag(FLAG_CARRY));
    assert!(!cpu.check_flag(FLAG_ZERO));
    assert!(!cpu.check_flag(FLAG_NEGATIVE));
    assert_eq!((cpu.register_a, cpu.register_x, cpu.register_y), (0x10, 0x20, 0x30));
}

#[test]
fn bit_changes_flags_and_nothing_else() {
    let mut cpu = CPU::new();
    for a in 0..=255u8 {
        for operand in [0x00u8, 0x01, 0x3F, 0x40, 0x7F, 0x80, 0xC0, 0xFF, a] {
            cpu.register_a = a;
            cpu.register_x = 0x11;
            cpu.register_y = 0x22;
            cpu.status = FLAG_CARRY | FLAG_DECIMAL_MODE;
            cpu.program_counter = 0x0300;
            cpu.mem_write(0x0300, 0x44);
            cpu.mem_write(0x0044, operand);
            assert_eq!(cpu.bit(&AddressingMode::ZeroPage), Ok(()));
            assert_eq!(cpu.register_a, a);
            assert_eq!(cpu.register_x, 0x11);
            assert_eq!(cpu.register_y, 0x22);
            assert_eq!(cpu.program_counter, 0x0300);
            assert_eq!(cpu.mem_read(0x0044), operand);
            assert_eq!(cpu.check_flag(FLAG_ZERO), a & operand == 0);
            assert_eq!(cpu.check_flag(FLAG_OVERFLOW), operand & 0x40 != 0);
            assert_eq!(cpu.check_flag(FLAG_NEGATIVE), operand & 0x80 != 0);
            assert!(cpu.check_flag(FLAG_CARRY | FLAG_DECIMAL_MODE));
        }
    }
}

#[test]
fn reset_twice_is_reset_once() {
    let mut cpu = CPU::new();
    cpu.load(vec![0xA9, 0x05, 0x00]);
    cpu.register_a = 1;
    cpu.register_x = 2;
    cpu.register_y = 3;
    cpu.status = 0xFF;
    cpu.program_counter = 0x1234;
    cpu.reset();
    let once = (
        cpu.register_a,
        cpu.register_x,
        cpu.register_y,
        cpu.status,
        cpu.program_counter,
        cpu.memory.to_vec(),
    );
    assert_eq!((once.0, once.1, once.2, once.3, once.4), (0, 0, 0, 0, 0x8000));
    cpu.reset();
    let twice = (
        cpu.register_a,
        cpu.register_x,
        cpu.register_y,
        cpu.status,
        cpu.program_counter,
        cpu.memory.to_vec(),
    );
    assert_eq!(once, twice);
}

#[test]
fn reset_follows_the_vector_and_keeps_memory() {
    let mut cpu = CPU::new();
    cpu.mem_write(0xFFFC, 0x34);
    cpu.mem_write(0xFFFD, 0x12);
    cpu.mem_write(0x0042, 0x99);
    cpu.register_y = 0x77;
    cpu.reset();
    assert_eq!(cpu.program_counter, 0x1234);
    assert_eq!(cpu.register_y, 0);
    assert_eq!(cpu.mem_read(0x0042), 0x99);
    assert_eq!(cpu.mem_read_u16(0xFFFC), 0x1234);
}

#[test]
fn load_copies_the_program_and_points_the_vector_at_it() {
    let mut cpu = CPU::new();
    cpu.mem_write(0x7FFF, 0xEE);
    cpu.mem_write(0x8003, 0xDD);
    cpu.register_a = 9;
    cpu.program_counter = 0x4321;
    cpu.load(vec![0x01, 0x02, 0x03]);
    assert_eq!(cpu.mem_read(0x7FFF), 0xEE);
    assert_eq!(cpu.mem_read(0x8000), 0x01);
    assert_eq!(cpu.mem_read(0x8001), 0x02);
    assert_eq!(cpu.mem_read(0x8002), 0x03);
    assert_eq!(cpu.mem_read(0x8003), 0xDD);
    assert_eq!(cpu.mem_read(0xFFFC), 0x00);
    assert_eq!(cpu.mem_read(0xFFFD), 0x80);
    assert_eq!(cpu.register_a, 9);
    assert_eq!(cpu.program_counter, 0x4321);
}

#[test]
fn load_takes_an_empty_and_a_full_program() {
    let mut cpu = CPU::new();
    cpu.load(vec![]);
    assert_eq!(cpu.mem_read_u16(0xFFFC), 0x8000);
    assert_eq!(cpu.mem_read(0x8000), 0x00);

    cpu.load(vec![0x5A; 0x8000]);
    assert_eq!(cpu.mem_read(0x7FFF), 0x00);
    assert_eq!(cpu.mem_read(0x8000), 0x5A);
    assert_eq!(cpu.mem_read(0xFFFB), 0x5A);
    assert_eq!(cpu.mem_read(0xFFFC), 0x00);
    assert_eq!(cpu.mem_read(0xFFFD), 0x80);
    assert_eq!(cpu.mem_read(0xFFFE), 0x5A);
    assert_eq!(cpu.mem_read(0xFFFF), 0x5A);
    assert_eq!(cpu.mem_read(0x0000), 0x00);
}

#[test]
fn words_are_little_endian_and_wrap_at_the_top() {
    let mut cpu = CPU::new();
    cpu.mem_write_u16(0x0010, 0xBEEF);
    assert_eq!(cpu.mem_read(0x0010), 0xEF);
    assert_eq!(cpu.mem_read(0x0011), 0xBE);
    assert_eq!(cpu.mem_read_u16(0x0010), 0xBEEF);
    cpu.mem_write_u16(0xFFFF, 0x1234);
    assert_eq!(cpu.mem_read(0xFFFF), 0x34);
    assert_eq!(cpu.mem_read(0x0000), 0x12);
    assert_eq!(cpu.mem_read_u16(0xFFFF), 0x1234);
}

#[test]
fn resolver_gives_the_address_of_each_mode() {
    let mut cpu = CPU::new();
    cpu.program_counter = 0x0200;
    cpu.mem_write(0x0200, 0x80);
    cpu.mem_write(0x0201, 0x12);
    cpu.register_x = 0x05;
    cpu.register_y = 0x07;
    cpu.mem_write(0x0080, 0x11);
    cpu.mem_write(0x0081, 0x22);
    cpu.mem_write(0x0085, 0x33);
    cpu.mem_write(0x0086, 0x44);
    assert_eq!(cpu.get_operand_address(&AddressingMode::Immediate), Ok(0x0200));
    assert_eq!(cpu.get_operand_address(&AddressingMode::ZeroPage), Ok(0x0080));
    assert_eq!(cpu.get_operand_address(&AddressingMode::ZeroPage_X), Ok(0x0085));
    assert_eq!(cpu.get_operand_address(&AddressingMode::ZeroPage_Y), Ok(0x0087));
    assert_eq!(cpu.get_operand_address(&AddressingMode::Absolute), Ok(0x1280));
    assert_eq!(cpu.get_operand_address(&AddressingMode::Absolute_X), Ok(0x1285));
    assert_eq!(cpu.get_operand_address(&AddressingMode::Absolute_Y), Ok(0x1287));
    assert_eq!(cpu.get_operand_address(&AddressingMode::Indirect_X), Ok(0x4433));
    assert_eq!(cpu.get_operand_address(&AddressingMode::Indirect_Y), Ok(0x2218));
}

#[test]
fn resolver_wraps_within_the_width_of_each_operand() {
    let mut cpu = CPU::new();
    cpu.program_counter = 0x0200;
    cpu.mem_write(0x0200, 0xFF);
    cpu.mem_write(0x0201, 0xFF);
    cpu.register_x = 0x02;
    cpu.register_y = 0x00;
    // zero page: 0xFF + 2 wraps to 0x01
    assert_eq!(cpu.get_operand_address(&AddressingMode::ZeroPage_X), Ok(0x0001));
    // absolute: 0xFFFF + 2 wraps to 0x0001
    assert_eq!(cpu.get_operand_address(&AddressingMode::Absolute_X), Ok(0x0001));
    // the pointer at 0xFF has its high byte at 0x00
    cpu.mem_write(0x00FF, 0xCD);
    cpu.mem_write(0x0000, 0xAB);
    cpu.mem_write(0x0100, 0x99);
    assert_eq!(cpu.get_operand_address(&AddressingMode::Indirect_Y), Ok(0xABCD));
    cpu.register_x = 0x00;
    assert_eq!(cpu.get_operand_address(&AddressingMode::Indirect_X), Ok(0xABCD));
    cpu.register_y = 0x40;
    cpu.mem_write(0x00FF, 0xF0);
    cpu.mem_write(0x0000, 0xFF);
    assert_eq!(cpu.get_operand_address(&AddressingMode::Indirect_Y), Ok(0x0030));
    // an absolute operand at the top of memory has its high byte at 0x0000
    cpu.program_counter = 0xFFFF;
    cpu.mem_write(0xFFFF, 0x21);
    cpu.mem_write(0x0000, 0x43);
    assert_eq!(cpu.get_operand_address(&AddressingMode::Absolute), Ok(0x4321));
}

#[test]
fn resolver_refuses_the_mode_without_an_address() {
    let cpu = CPU::new();
    assert_eq!(
        cpu.get_operand_address(&AddressingMode::NoneAddressing),
        Err(CpuError::UnsupportedAddressingMode(AddressingMode::NoneAddressing))
    );
}

#[test]
fn unknown_opcode_stops_the_run() {
    // LDA #$05; then a byte that the registry does not list
    let mut cpu = CPU::new();
    assert_eq!(
        cpu.load_and_run(vec![0xA9, 0x05, 0xEA, 0x00]),
        Err(CpuError::UnknownOpcode(0xEA))
    );
    assert_eq!(cpu.register_a, 0x05);
    assert_eq!(cpu.program_counter, 0x8003);
}

#[test]
fn execute_names_what_is_not_implemented() {
    let mut cpu = CPU::new();
    cpu.register_a = 0x12;
    cpu.program_counter = 0x0400;
    let nop = OpCode::new(0xEA, "NOP", 1, 2, AddressingMode::NoneAddressing);
    assert_eq!(
        cpu.execute(&nop),
        Err(CpuError::NotImplemented("NOP", 0xEA, AddressingMode::NoneAddressing))
    );
    let jmp = OpCode::new(0x4C, "JMP", 3, 3, AddressingMode::Absolute);
    assert_eq!(
        cpu.execute(&jmp),
        Err(CpuError::NotImplemented("JMP", 0x4C, AddressingMode::Absolute))
    );
    assert_eq!(cpu.register_a, 0x12);
    assert_eq!(cpu.program_counter, 0x0400);
}

#[test]
fn execute_refuses_a_memory_instruction_without_an_address() {
    let mut cpu = CPU::new();
    cpu.register_a = 0x12;
    let lda = OpCode::new(0xA9, "LDA", 2, 2, AddressingMode::NoneAddressing);
    assert_eq!(
        cpu.execute(&lda),
        Err(CpuError::UnsupportedAddressingMode(AddressingMode::NoneAddressing))
    );
    assert_eq!(cpu.register_a, 0x12);
    assert_eq!(
        cpu.sta(&AddressingMode::NoneAddressing),
        Err(CpuError::UnsupportedAddressingMode(AddressingMode::NoneAddressing))
    );
}

#[test]
fn execute_runs_one_described_instruction() {
    let mut cpu = CPU::new();
    cpu.program_counter = 0x0400;
    cpu.mem_write(0x0400, 0x7F);
    let lda = OpCode::lookup(0xA9).unwrap();
    assert_eq!(cpu.execute(&lda), Ok(Progress::Running));
    assert_eq!(cpu.register_a, 0x7F);
    assert_eq!(cpu.program_counter, 0x0400);
    let brk = OpCode::lookup(0x00).unwrap();
    assert_eq!(cpu.execute(&brk), Ok(Progress::Halted));
}

#[test]
fn step_moves_over_the_operand_bytes() {
    // LDA $1234; STA $10; TAX; BRK
    let mut cpu = machine_with(vec![0xAD, 0x34, 0x12, 0x85, 0x10, 0xAA, 0x00]);
    cpu.mem_write(0x1234, 0x77);
    assert_eq!(cpu.step(), Ok(Progress::Running));
    assert_eq!(cpu.program_counter, 0x8003);
    assert_eq!(cpu.register_a, 0x77);
    assert_eq!(cpu.step(), Ok(Progress::Running));
    assert_eq!(cpu.program_counter, 0x8005);
    assert_eq!(cpu.mem_read(0x10), 0x77);
    assert_eq!(cpu.step(), Ok(Progress::Running));
    assert_eq!(cpu.program_counter, 0x8006);
    assert_eq!(cpu.register_x, 0x77);
    assert_eq!(cpu.step(), Ok(Progress::Halted));
    assert_eq!(cpu.program_counter, 0x8007);
}

#[test]
fn program_counter_wraps_at_the_top_of_memory() {
    let mut cpu = CPU::new();
    // INX at 0xFFFF, BRK at 0x0000
    cpu.mem_write(0xFFFF, 0xE8);
    cpu.program_counter = 0xFFFF;
    assert_eq!(cpu.step(), Ok(Progress::Running));
    assert_eq!(cpu.program_counter, 0x0000);
    assert_eq!(cpu.register_x, 1);
    // LDA #imm at 0xFFFE: the operand is at 0xFFFF, the next opcode at 0x0000
    cpu.mem_write(0xFFFE, 0xA9);
    cpu.mem_write(0xFFFF, 0x42);
    cpu.program_counter = 0xFFFE;
    assert_eq!(cpu.run(), Ok(Progress::Halted));
    assert_eq!(cpu.register_a, 0x42);
    assert_eq!(cpu.program_counter, 0x0001);
}

#[test]
fn branch_goes_forward_and_backward_by_a_signed_offset() {
    let mut cpu = CPU::new();
    cpu.program_counter = 0x8010;
    cpu.mem_write(0x8010, 0x05);
    cpu.branch(true);
    assert_eq!(cpu.program_counter, 0x8016);

    cpu.program_counter = 0x8010;
    cpu.mem_write(0x8010, 0xFB);
    cpu.branch(true);
    assert_eq!(cpu.program_counter, 0x800C);

    cpu.program_counter = 0x8010;
    cpu.mem_write(0x8010, 0x80);
    cpu.branch(true);
    assert_eq!(cpu.program_counter, 0x7F91);

    cpu.program_counter = 0x8010;
    cpu.mem_write(0x8010, 0x7F);
    cpu.branch(true);
    assert_eq!(cpu.program_counter, 0x8090);

    cpu.program_counter = 0x8010;
    cpu.branch(false);
    assert_eq!(cpu.program_counter, 0x8010);

    cpu.program_counter = 0x0000;
    cpu.mem_write(0x0000, 0xFC);
    cpu.branch(true);
    assert_eq!(cpu.program_counter, 0xFFFD);

    cpu.program_counter = 0xFFFF;
    cpu.mem_write(0xFFFF, 0x02);
    cpu.branch(true);
    assert_eq!(cpu.program_counter, 0x0002);
}

#[test]
fn a_backward_branch_counts_a_register_down() {
    // LDX #$03; DEX; BNE -3; BRK
    let mut cpu = CPU::new();
    assert_eq!(
        cpu.load_and_run(vec![0xA2, 0x03, 0xCA, 0xD0, 0xFD, 0x00]),
        Ok(Progress::Halted)
    );
    assert_eq!(cpu.register_x, 0);
    assert!(cpu.check_flag(FLAG_ZERO));
    assert_eq!(cpu.program_counter, 0x8006);
}

#[test]
fn a_branch_onto_its_own_offset_byte_moves_on_as_if_not_taken() {
    // BNE -1 lands on its offset byte, where the program counter already
    // stood, so the engine moves it on over the operand; then LDA #$07; BRK
    let mut cpu = CPU::new();
    assert_eq!(
        cpu.load_and_run(vec![0xD0, 0xFF, 0xA9, 0x07, 0x00]),
        Ok(Progress::Halted)
    );
    assert_eq!(cpu.register_a, 0x07);
}

#[test]
fn run_for_stops_when_the_rounds_are_used_up() {
    // BNE -2 branches to itself while Zero is clear
    let mut cpu = machine_with(vec![0xD0, 0xFE, 0x00]);
    assert_eq!(cpu.run_for(1000), Ok(Progress::Running));
    assert_eq!(cpu.program_counter, 0x8000);
    assert_eq!(cpu.run_for(0), Ok(Progress::Running));
    assert_eq!(cpu.program_counter, 0x8000);

    // LDA #$01; TAX; INX; BRK, two rounds at a time
    let mut cpu = machine_with(vec![0xA9, 0x01, 0xAA, 0xE8, 0x00]);
    assert_eq!(cpu.run_for(2), Ok(Progress::Running));
    assert_eq!((cpu.register_a, cpu.register_x), (1, 1));
    assert_eq!(cpu.program_counter, 0x8003);
    assert_eq!(cpu.run_for(2), Ok(Progress::Halted));
    assert_eq!(cpu.register_x, 2);
    assert_eq!(cpu.program_counter, 0x8005);
}

#[test]
fn run_has_rounds_for_any_program_that_ends() {
    assert_eq!(RUN_LIMIT, u64::MAX);
    // LDX #$00; loop: LDY #$00; inner: DEY; BNE inner; DEX; BNE loop; BRK
    let mut cpu = CPU::new();
    assert_eq!(
        cpu.load_and_run(vec![0xA2, 0x00, 0xA0, 0x00, 0x88, 0xD0, 0xFD, 0xCA, 0xD0, 0xF8, 0x00]),
        Ok(Progress::Halted)
    );
    assert_eq!((cpu.register_x, cpu.register_y), (0, 0));
    assert_eq!(cpu.program_counter, 0x800B);
}

#[test]
fn asl_on_the_accumulator_sets_carry_zero_and_negative() {
    let mut cpu = CPU::new();
    cpu.load_and_run(vec![0xA9, 0x80, 0x0A, 0x00]).unwrap();
    assert_eq!(cpu.register_a, 0x00);
    assert!(cpu.check_flag(FLAG_CARRY));
    assert!(cpu.check_flag(FLAG_ZERO));
    assert!(!cpu.check_flag(FLAG_NEGATIVE));

    cpu.load_and_run(vec![0xA9, 0x41, 0x0A, 0x00]).unwrap();
    assert_eq!(cpu.register_a, 0x82);
    assert!(!cpu.check_flag(FLAG_CARRY));
    assert!(!cpu.check_flag(FLAG_ZERO));
    assert!(cpu.check_flag(FLAG_NEGATIVE));
}

#[test]
fn asl_on_memory_leaves_zero_alone() {
    // LDA #$80; STA $10; LDA #$01; ASL $10; BRK
    let mut cpu = CPU::new();
    cpu.load_and_run(vec![0xA9, 0x80, 0x85, 0x10, 0xA9, 0x01, 0x06, 0x10, 0x00]).unwrap();
    assert_eq!(cpu.mem_read(0x10), 0x00);
    assert_eq!(cpu.register_a, 0x01);
    assert!(cpu.check_flag(FLAG_CARRY));
    assert!(!cpu.check_flag(FLAG_ZERO));
    assert!(!cpu.check_flag(FLAG_NEGATIVE));

    // LDA #$41; STA $10; LDA #$00; ASL $10; BRK
    cpu.load_and_run(vec![0xA9, 0x41, 0x85, 0x10, 0xA9, 0x00, 0x06, 0x10, 0x00]).unwrap();
    assert_eq!(cpu.mem_read(0x10), 0x82);
    assert!(!cpu.check_flag(FLAG_CARRY));
    assert!(cpu.check_flag(FLAG_ZERO));
    assert!(cpu.check_flag(FLAG_NEGATIVE));
}

#[test]
fn sta_changes_no_flag() {
    let mut cpu = CPU::new();
    cpu.register_a = 0x00;
    cpu.status = FLAG_CARRY | FLAG_OVERFLOW;
    cpu.program_counter = 0x0200;
    cpu.mem_write(0x0200, 0x34);
    cpu.mem_write(0x0201, 0x12);
    cpu.mem_write(0x1234, 0xFF);
    assert_eq!(cpu.sta(&AddressingMode::Absolute), Ok(()));
    assert_eq!(cpu.mem_read(0x1234), 0x00);
    assert_eq!(cpu.status, FLAG_CARRY | FLAG_OVERFLOW);
}

#[test]
fn and_keeps_the_common_bits() {
    let mut cpu = CPU::new();
    cpu.load_and_run(vec![0xA9, 0xF0, 0x29, 0x0F, 0x00]).unwrap();
    assert_eq!(cpu.register_a, 0x00);
    assert!(cpu.check_flag(FLAG_ZERO));
    assert!(!cpu.check_flag(FLAG_NEGATIVE));
}

#[test]
fn tax_copies_the_accumulator() {
    let mut cpu = machine_with(vec![0xAA, 0x00]);
    cpu.register_a = 0x5C;
    cpu.run().unwrap();
    assert_eq!(cpu.register_x, 0x5C);
    assert_eq!(cpu.register_a, 0x5C);
}

#[test]
fn indexed_loads_and_stores_meet_in_memory() {
    // LDX #$04; LDY #$02; LDA #$AB; STA $20,X; STA $0300,Y; LDA #$00;
    // LDA $24; TAX; LDY $0302; BRK
    let mut cpu = CPU::new();
    let program = vec![
        0xA2, 0x04, 0xA0, 0x02, 0xA9, 0xAB, 0x95, 0x20, 0x99, 0x00, 0x03, 0xA9, 0x00, 0xA5,
        0x24, 0xAA, 0xAC, 0x02, 0x03, 0x00,
    ];
    assert_eq!(cpu.load_and_run(program), Ok(Progress::Halted));
    assert_eq!(cpu.mem_read(0x0024), 0xAB);
    assert_eq!(cpu.mem_read(0x0302), 0xAB);
    assert_eq!(cpu.register_x, 0xAB);
    assert_eq!(cpu.register_y, 0xAB);
}

#[test]
fn registry_describes_each_opcode() {
    let lda = OpCode::lookup(0xA9).unwrap();
    assert_eq!(lda.code, 0xA9);
    assert_eq!(lda.mnemonic, "LDA");
    assert_eq!(lda.len, 2);
    assert_eq!(lda.cycles, 2);
    assert_eq!(lda.mode, AddressingMode::Immediate);
    let asl = OpCode::lookup(0x1E).unwrap();
    assert_eq!(asl, OpCode::new(0x1E, "ASL", 3, 7, AddressingMode::Absolute_X));
    let brk = OpCode::lookup(0x00).unwrap();
    assert_eq!(brk, OpCode::new(0x00, "BRK", 1, 7, AddressingMode::NoneAddressing));
    let bcc = OpCode::lookup(0x90).unwrap();
    assert_eq!(bcc, OpCode::new(0x90, "BCC", 2, 2, AddressingMode::NoneAddressing));
    assert_eq!(OpCode::lookup(0xEA), None);
    assert_eq!(OpCode::lookup(0xFF), None);
}

#[test]
fn registry_and_decoder_list_the_same_opcodes() {
    let mut listed = 0;
    for code in 0..=255u8 {
        let row = OpCode::lookup(code);
        assert_eq!(row.is_some(), Instruction::decode(code).is_some());
        if let Some(op) = row {
            listed += 1;
            assert_eq!(op.code, code);
            assert!(1 <= op.len && op.len <= 3);
        }
    }
    assert_eq!(listed, 75);
    assert_eq!(Instruction::decode(0xC9), Some(Instruction::CompareA));
    assert_eq!(Instruction::decode(0x0A), Some(Instruction::AslAccumulator));
    assert_eq!(Instruction::decode(0x06), Some(Instruction::Asl));
    assert_eq!(Instruction::decode(0x00), Some(Instruction::Brk));
    assert_eq!(Instruction::decode(0xEA), None);
}

#[test]
fn flag_clears_touch_their_own_flag_only() {
    for (code, flag) in [
        (0x18u8, FLAG_CARRY),
        (0xD8, FLAG_DECIMAL_MODE),
        (0x58, FLAG_INTERRUPT_DISABLE),
        (0xB8, FLAG_OVERFLOW),
    ] {
        let mut cpu = machine_with(vec![code, 0x00]);
        cpu.status = 0xFF;
        assert_eq!(cpu.run(), Ok(Progress::Halted));
        assert_eq!(cpu.status, 0xFF & !flag);
    }
}

#[test]
fn setters_describe_the_value_in_the_flags() {
    let mut cpu = CPU::new();
    cpu.set_register_a(0x80);
    assert_eq!((cpu.register_a, cpu.status), (0x80, FLAG_NEGATIVE));
    cpu.set_register_x(0x00);
    assert_eq!((cpu.register_x, cpu.status), (0x00, FLAG_ZERO));
    cpu.set_register_y(0x01);
    assert_eq!((cpu.register_y, cpu.status), (0x01, 0x00));
    cpu.set_program_counter(0xC000);
    assert_eq!(cpu.program_counter, 0xC000);
}
