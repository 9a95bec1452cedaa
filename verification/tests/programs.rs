use nes_platform::cpu::CPU;
use nes_platform::semantics::RunState;

#[test]
fn main_test_lda_immediate_load_data() {
    let mut cpu = CPU::new();
    assert_eq!(cpu.load_and_run(vec![0xa9, 0x05, 0x00]), Ok(RunState::Halted));
    assert_eq!(cpu.register_a, 0x05);
    assert_eq!(cpu.status.bits() & 0b0000_0010, 0b00);
    assert_eq!(cpu.status.bits() & 0b1000_0000, 0);
}

#[test]
fn main_test_lda_zero_flag() {
    let mut cpu = CPU::new();
    assert_eq!(cpu.load_and_run(vec![0xa9, 0x00, 0x00]), Ok(RunState::Halted));
    assert_eq!(cpu.status.bits() & 0b0000_0010, 0b10);
}

#[test]
fn main_test_sta_immediate() {
    let mut cpu = CPU::new();
    assert_eq!(cpu.load_and_run(vec![0xa9, 0x01, 0x85, 0xff, 0x00]), Ok(RunState::Halted));
    assert_eq!(cpu.memory_read(0xff), 0x01);
}

#[test]
fn main_test_sta_absolute_x() {
    let mut cpu = CPU::new();
    assert_eq!(
        cpu.load_and_run(vec![0xa9, 0x10, 0xaa, 0x9d, 0x00, 0xff, 0x00]),
        Ok(RunState::Halted)
    );

    assert_eq!(cpu.memory_read(0xff10), 0x10);
}

#[test]
fn main_test_inx_overflow() {
    let mut cpu = CPU::new();
    let mut program = Vec::new();
    for _ in 0..0xff {
        program.push(0xE8);
    }
    program.push(0xE8);
    program.push(0x00);
    assert_eq!(cpu.load_and_run(program), Ok(RunState::Halted));

    assert_eq!(cpu.register_x, 0);
    // Zero joins the two flags that a reset sets; no other flag is touched.
    assert_eq!(cpu.status.bits(), 0b0010_0110)
}

#[test]
fn main_test_5_ops_working_together() {
    let mut cpu = CPU::new();
    assert_eq!(cpu.load_and_run(vec![0xa9, 0xc0, 0xaa, 0xe8, 0x00]), Ok(RunState::Halted));

    assert_eq!(cpu.register_x, 0xc1)
}

#[test]
fn main_test_write_u16() {
    let mut cpu = CPU::new();
    cpu.memory_write_u16(0xff00, 0x1234);
    assert_eq!(cpu.memory.read(0xff00), 0x34);
    assert_eq!(cpu.memory.read(0xff01), 0x12);
}

#[test]
fn main_test_read_u16() {
    let mut cpu = CPU::new();
    cpu.memory.write(0xff00, 0x34);
    cpu.memory.write(0xff01, 0x12);
    assert_eq!(cpu.memory_read_u16(0xff00), 0x1234);
}
