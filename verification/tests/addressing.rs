use nes_platform::addressing::{AddressingMode, OpCode};
use nes_platform::cpu::CPU;
use nes_platform::error::CpuError;

fn cpu_at(pc: u16) -> CPU {
    let mut cpu = CPU::new();
    cpu.program_counter = pc;
    cpu
}

#[test]
fn immediate_is_the_program_counter() {
    let cpu = cpu_at(0x8001);
    assert_eq!(cpu.get_operand_address(&AddressingMode::Immediate), Ok(0x8001));
}

#[test]
fn zero_page_is_the_operand_byte() {
    let mut cpu = cpu_at(0x0200);
    cpu.memory_write(0x0200, 0xc3);
    assert_eq!(cpu.get_operand_address(&AddressingMode::ZeroPage), Ok(0x00c3));
}

#[test]
fn zero_page_x_stays_in_page_zero() {
    let mut cpu = cpu_at(0x0200);
    cpu.memory_write(0x0200, 0xf0);
    cpu.register_x = 0x20;
    cpu.register_y = 0x01;
    assert_eq!(cpu.get_operand_address(&AddressingMode::ZeroPage_X), Ok(0x0010));
    cpu.register_x = 0x05;
    assert_eq!(cpu.get_operand_address(&AddressingMode::ZeroPage_X), Ok(0x00f5));
}

#[test]
fn zero_page_y_stays_in_page_zero() {
    let mut cpu = cpu_at(0x0200);
    cpu.memory_write(0x0200, 0xff);
    cpu.register_y = 0x02;
    cpu.register_x = 0x40;
    assert_eq!(cpu.get_operand_address(&AddressingMode::ZeroPage_Y), Ok(0x0001));
}

#[test]
fn absolute_is_the_little_endian_word() {
    let mut cpu = cpu_at(0x0200);
    cpu.memory_write(0x0200, 0x34);
    cpu.memory_write(0x0201, 0x12);
    assert_eq!(cpu.get_operand_address(&AddressingMode::Absolute), Ok(0x1234));
}

#[test]
fn absolute_x_wraps_at_sixteen_bits() {
    let mut cpu = cpu_at(0x0200);
    cpu.memory_write_u16(0x0200, 0xfff0);
    cpu.register_x = 0x20;
    assert_eq!(cpu.get_operand_address(&AddressingMode::Absolute_X), Ok(0x0010));
    cpu.register_x = 0x0f;
    assert_eq!(cpu.get_operand_address(&AddressingMode::Absolute_X), Ok(0xffff));
}

#[test]
fn absolute_y_crosses_pages() {
    let mut cpu = cpu_at(0x0200);
    cpu.memory_write_u16(0x0200, 0x12ff);
    cpu.register_y = 0x01;
    cpu.register_x = 0x77;
    assert_eq!(cpu.get_operand_address(&AddressingMode::Absolute_Y), Ok(0x1300));
}

#[test]
fn indirect_x_reads_its_pointer_in_page_zero() {
    let mut cpu = cpu_at(0x0200);
    cpu.memory_write(0x0200, 0x20);
    cpu.register_x = 0x04;
    cpu.memory_write(0x0024, 0x74);
    cpu.memory_write(0x0025, 0x20);
    assert_eq!(cpu.get_operand_address(&AddressingMode::Indirect_X), Ok(0x2074));
}

#[test]
fn indirect_x_wraps_pointer_and_high_byte_fetch() {
    let mut cpu = cpu_at(0x0200);
    cpu.memory_write(0x0200, 0xfe);
    cpu.register_x = 0x01;
    // The pointer is 0xff; its high byte comes from 0x00, not from 0x100.
    cpu.memory_write(0x00ff, 0xcd);
    cpu.memory_write(0x0000, 0xab);
    cpu.memory_write(0x0100, 0x11);
    assert_eq!(cpu.get_operand_address(&AddressingMode::Indirect_X), Ok(0xabcd));
    // Base plus X wraps within the page as well.
    cpu.register_x = 0x03;
    cpu.memory_write(0x0001, 0x22);
    cpu.memory_write(0x0002, 0x33);
    assert_eq!(cpu.get_operand_address(&AddressingMode::Indirect_X), Ok(0x3322));
}

#[test]
fn indirect_y_adds_y_after_the_fetch() {
    let mut cpu = cpu_at(0x0200);
    cpu.memory_write(0x0200, 0x86);
    cpu.memory_write(0x0086, 0x28);
    cpu.memory_write(0x0087, 0x40);
    cpu.register_y = 0x10;
    cpu.register_x = 0x99;
    assert_eq!(cpu.get_operand_address(&AddressingMode::Indirect_Y), Ok(0x4038));
}

#[test]
fn indirect_y_wraps_high_byte_fetch_and_sum() {
    let mut cpu = cpu_at(0x0200);
    cpu.memory_write(0x0200, 0xff);
    cpu.memory_write(0x00ff, 0xf0);
    cpu.memory_write(0x0000, 0xff);
    cpu.memory_write(0x0100, 0x55);
    cpu.register_y = 0x20;
    assert_eq!(cpu.get_operand_address(&AddressingMode::Indirect_Y), Ok(0x0010));
}

#[test]
fn none_addressing_has_no_address() {
    let cpu = cpu_at(0x0200);
    assert_eq!(
        cpu.get_operand_address(&AddressingMode::NoneAddressing),
        Err(CpuError::InvalidAddressingMode { mode: AddressingMode::NoneAddressing })
    );
}

#[test]
fn resolver_leaves_the_processor_alone() {
    let mut cpu = cpu_at(0x0200);
    cpu.memory_write_u16(0x0200, 0x1234);
    cpu.register_x = 3;
    let _ = cpu.get_operand_address(&AddressingMode::Absolute_X);
    assert_eq!(cpu.program_counter, 0x0200);
    assert_eq!(cpu.register_x, 3);
    assert_eq!(cpu.memory_read_u16(0x0200), 0x1234);
}

#[test]
fn absolute_at_the_last_address_takes_its_high_byte_from_the_first() {
    let mut cpu = cpu_at(0xffff);
    cpu.memory_write(0xffff, 0x34);
    cpu.memory_write(0x0000, 0x12);
    assert_eq!(cpu.get_operand_address(&AddressingMode::Absolute), Ok(0x1234));
}

#[test]
fn opcode_record_derives_operand_length() {
    let op = OpCode::new(0xad, "LDA", 3, 4, AddressingMode::Absolute);
    assert_eq!(op.code, 0xad);
    assert_eq!(op.mnemonic, "LDA");
    assert_eq!(op.len, 3);
    assert_eq!(op.operand_len, 2);
    assert_eq!(op.cycles, 4);
    assert_eq!(op.mode, AddressingMode::Absolute);
    let brk = OpCode::new(0x00, "BRK", 1, 7, AddressingMode::NoneAddressing);
    assert_eq!(brk.operand_len, 0);
}
