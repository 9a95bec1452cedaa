use nes_platform::addressing::AddressingMode;
use nes_platform::cpu::{CPU, PROGRAM_START_ADDRESS, RESET_VECTOR, STACK_RESET};
use nes_platform::error::CpuError;
use nes_platform::flags::CPUFlags;
use nes_platform::input::{handle_user_input, InputEvent, Key, INPUT_ADDRESS};
use nes_platform::memory::Memory;
use nes_platform::semantics::RunState;

#[test]
fn new_processor_is_cleared() {
    let cpu = CPU::new();
    assert_eq!((cpu.register_a, cpu.register_x, cpu.register_y), (0, 0, 0));
    assert_eq!(cpu.status.bits(), 0b0010_0100);
    assert_eq!(cpu.stack_pointer, 0xfd);
    assert_eq!(cpu.program_counter, 0);
    assert!(cpu.memory.bytes.iter().all(|b| *b == 0));
    assert_eq!(cpu.memory.bytes.len(), 65536);
}

#[test]
fn memory_reaches_every_address() {
    let mut memory = Memory::default();
    memory.write(0x0000, 1);
    memory.write(0xffff, 2);
    assert_eq!(memory.read(0x0000), 1);
    assert_eq!(memory.read(0xffff), 2);
    assert_eq!(memory.read(0x8000), 0);
}

#[test]
fn memory_load_copies_the_program() {
    let mut memory = Memory::default();
    memory.write(0x0fff, 0xee);
    memory.write(0x1003, 0xee);
    assert_eq!(memory.load_program(0x1000, vec![1, 2, 3]), Ok(()));
    assert_eq!(memory.read(0x0fff), 0xee);
    assert_eq!(memory.read(0x1000), 1);
    assert_eq!(memory.read(0x1001), 2);
    assert_eq!(memory.read(0x1002), 3);
    assert_eq!(memory.read(0x1003), 0xee);
}

#[test]
fn memory_load_may_end_at_the_last_address() {
    let mut memory = Memory::default();
    assert_eq!(memory.load_program(0xfffe, vec![7, 8]), Ok(()));
    assert_eq!(memory.read(0xfffe), 7);
    assert_eq!(memory.read(0xffff), 8);
    assert_eq!(memory.load_program(0xffff, vec![]), Ok(()));
}

#[test]
fn memory_load_past_the_end_is_refused() {
    let mut memory = Memory::default();
    memory.write(0xffff, 0x55);
    assert_eq!(
        memory.load_program(0xffff, vec![7, 8]),
        Err(CpuError::ProgramTooLarge { base: 0xffff, len: 2 })
    );
    assert_eq!(memory.read(0xffff), 0x55);
    assert_eq!(memory.read(0x0000), 0);
}

#[test]
fn load_program_sets_the_reset_vector() {
    let mut cpu = CPU::new();
    assert_eq!(cpu.memory_load_program(vec![0xa9, 0x01, 0x00]), Ok(()));
    assert_eq!(PROGRAM_START_ADDRESS, 0x0600);
    assert_eq!(RESET_VECTOR, 0xfffc);
    assert_eq!(cpu.memory_read(0x0600), 0xa9);
    assert_eq!(cpu.memory_read(0x0601), 0x01);
    assert_eq!(cpu.memory_read(0x0602), 0x00);
    assert_eq!(cpu.memory_read(0xfffc), 0x00);
    assert_eq!(cpu.memory_read(0xfffd), 0x06);
    assert_eq!(cpu.program_counter, 0);
}

#[test]
fn largest_program_fits_and_one_more_byte_does_not() {
    let mut cpu = CPU::new();
    assert_eq!(cpu.memory_load_program(vec![0xe8; 0xfa00]), Ok(()));
    // The reset vector lies inside such a program and is written after it.
    assert_eq!(cpu.memory_read(0xfffb), 0xe8);
    assert_eq!(cpu.memory_read_u16(0xfffc), 0x0600);
    assert_eq!(cpu.memory_read(0xfffe), 0xe8);

    let mut cpu = CPU::new();
    cpu.register_a = 9;
    assert_eq!(
        cpu.load_and_run(vec![0xe8; 0xfa01]),
        Err(CpuError::ProgramTooLarge { base: 0x0600, len: 0xfa01 })
    );
    assert_eq!(cpu.register_a, 9);
    assert_eq!(cpu.memory_read(0x0600), 0);
    assert_eq!(cpu.memory_read_u16(0xfffc), 0);
}

#[test]
fn reset_restores_registers_and_reads_the_vector() {
    let mut cpu = CPU::new();
    cpu.register_a = 1;
    cpu.register_x = 2;
    cpu.register_y = 3;
    cpu.stack_pointer = 0x10;
    cpu.status = CPUFlags::from_bits_truncate(0xff);
    cpu.memory_write_u16(0xfffc, 0x8000);
    cpu.memory_write(0x0042, 0x42);
    cpu.reset();
    assert_eq!((cpu.register_a, cpu.register_x, cpu.register_y), (0, 0, 0));
    assert_eq!(cpu.status.bits(), 0b0010_0100);
    assert_eq!(cpu.stack_pointer, STACK_RESET);
    assert_eq!(cpu.program_counter, 0x8000);
    assert_eq!(cpu.memory_read(0x0042), 0x42);
}

#[test]
fn step_runs_one_instruction() {
    let mut cpu = CPU::new();
    cpu.memory_load_program(vec![0xa9, 0x80, 0xaa, 0x00]).unwrap();
    cpu.reset();
    assert_eq!(cpu.step(), Ok(RunState::Running));
    assert_eq!(cpu.register_a, 0x80);
    assert_eq!(cpu.register_x, 0x00);
    assert_eq!(cpu.program_counter, 0x0602);
    assert_eq!(cpu.step(), Ok(RunState::Running));
    assert_eq!(cpu.register_x, 0x80);
    assert_eq!(cpu.program_counter, 0x0603);
    assert_eq!(cpu.step(), Ok(RunState::Halted));
    assert_eq!(cpu.program_counter, 0x0604);
    assert_eq!(cpu.register_x, 0x80);
}

#[test]
fn step_moves_past_a_three_byte_instruction() {
    let mut cpu = CPU::new();
    cpu.memory_load_program(vec![0xad, 0x34, 0x12, 0x00]).unwrap();
    cpu.memory_write(0x1234, 0x5a);
    cpu.reset();
    assert_eq!(cpu.step(), Ok(RunState::Running));
    assert_eq!(cpu.register_a, 0x5a);
    assert_eq!(cpu.program_counter, 0x0603);
}

#[test]
fn unrecognized_opcode_is_reported_with_its_byte() {
    let mut cpu = CPU::new();
    assert_eq!(
        cpu.load_and_run(vec![0xa9, 0x07, 0x02, 0x00]),
        Err(CpuError::UnrecognizedOpcode { code: 0x02 })
    );
    assert_eq!(cpu.register_a, 0x07);
    assert_eq!(cpu.program_counter, 0x0603);
}

#[test]
fn shift_of_the_accumulator_is_refused_for_its_mode() {
    let mut cpu = CPU::new();
    assert_eq!(
        cpu.load_and_run(vec![0xa9, 0x07, 0x0a, 0x00]),
        Err(CpuError::InvalidAddressingMode { mode: AddressingMode::NoneAddressing })
    );
    assert_eq!(cpu.register_a, 0x07);
    assert_eq!(cpu.program_counter, 0x0603);
    assert!(!cpu.status.contains(CPUFlags::CARRY));
}

#[test]
fn run_for_stops_when_the_budget_is_spent() {
    let mut cpu = CPU::new();
    cpu.memory_load_program(vec![0xe8, 0xe8, 0xe8, 0xe8, 0xe8, 0x00]).unwrap();
    cpu.reset();
    assert_eq!(cpu.run_for(0), Ok(RunState::Running));
    assert_eq!(cpu.register_x, 0);
    assert_eq!(cpu.run_for(3), Ok(RunState::Running));
    assert_eq!(cpu.register_x, 3);
    assert_eq!(cpu.program_counter, 0x0603);
    assert_eq!(cpu.run_for(2), Ok(RunState::Running));
    assert_eq!(cpu.register_x, 5);
    assert_eq!(cpu.run_for(1), Ok(RunState::Halted));
    assert_eq!(cpu.program_counter, 0x0606);
}

#[test]
fn run_for_stops_early_at_brk() {
    let mut cpu = CPU::new();
    cpu.memory_load_program(vec![0xe8, 0x00, 0xe8]).unwrap();
    cpu.reset();
    assert_eq!(cpu.run_for(100), Ok(RunState::Halted));
    assert_eq!(cpu.register_x, 1);
    assert_eq!(cpu.program_counter, 0x0602);
}

#[test]
fn interpret_runs_from_the_program_counter() {
    let mut cpu = CPU::new();
    cpu.memory_write(0x4000, 0xc8);
    cpu.memory_write(0x4001, 0xc8);
    cpu.program_counter = 0x4000;
    assert_eq!(cpu.interpret(), Ok(RunState::Halted));
    assert_eq!(cpu.register_y, 2);
    assert_eq!(cpu.program_counter, 0x4003);
}

#[test]
fn program_counter_wraps_past_the_last_address() {
    let mut cpu = CPU::new();
    cpu.memory_write(0xffff, 0xa9);
    cpu.memory_write(0x0000, 0x33);
    cpu.program_counter = 0xffff;
    assert_eq!(cpu.step(), Ok(RunState::Running));
    assert_eq!(cpu.register_a, 0x33);
    assert_eq!(cpu.program_counter, 0x0001);
}

#[test]
fn callback_sees_the_processor_before_each_step() {
    let mut cpu = CPU::new();
    cpu.memory_load_program(vec![0xe8, 0xe8, 0xa5, 0xff, 0x00]).unwrap();
    cpu.reset();
    let mut seen = Vec::new();
    let outcome = cpu.run_with_callback(|c: &mut CPU| {
        seen.push((c.program_counter, c.register_x));
        c.memory_write(0xff, 0x77);
    });
    assert_eq!(outcome, Ok(RunState::Halted));
    assert_eq!(seen, vec![(0x0600, 0), (0x0601, 1), (0x0602, 2), (0x0604, 2)]);
    assert_eq!(cpu.register_a, 0x77);
}

#[test]
fn callback_run_reports_failures() {
    let mut cpu = CPU::new();
    cpu.memory_load_program(vec![0xe8, 0x03]).unwrap();
    cpu.reset();
    let mut calls = 0;
    assert_eq!(
        cpu.run_with_callback(|_: &mut CPU| calls += 1),
        Err(CpuError::UnrecognizedOpcode { code: 0x03 })
    );
    assert_eq!(calls, 2);
}

#[test]
fn flag_setters_touch_one_flag_each() {
    let mut cpu = CPU::new();
    cpu.set_carry_flag();
    assert_eq!(cpu.status.bits(), 0b0010_0101);
    cpu.set_zero_flag();
    assert_eq!(cpu.status.bits(), 0b0010_0111);
    cpu.set_overflow_flag();
    assert_eq!(cpu.status.bits(), 0b0110_0111);
    cpu.set_negative_flag();
    assert_eq!(cpu.status.bits(), 0b1110_0111);
    cpu.clear_carry_flag();
    assert_eq!(cpu.status.bits(), 0b1110_0110);
    cpu.clear_zero_flag();
    assert_eq!(cpu.status.bits(), 0b1110_0100);
    cpu.clear_overflow_flag();
    assert_eq!(cpu.status.bits(), 0b1010_0100);
    cpu.clear_negative_flag();
    assert_eq!(cpu.status.bits(), 0b0010_0100);
    cpu.clear_negative_flag();
    assert_eq!(cpu.status.bits(), 0b0010_0100);
}

#[test]
fn zero_and_negative_follow_the_result() {
    let mut cpu = CPU::new();
    cpu.set_carry_flag();
    cpu.update_zero_and_negative_flags(0);
    assert_eq!(cpu.status.bits(), 0b0010_0111);
    cpu.update_zero_and_negative_flags(0x80);
    assert_eq!(cpu.status.bits(), 0b1010_0101);
    cpu.update_zero_and_negative_flags(0x7f);
    assert_eq!(cpu.status.bits(), 0b0010_0101);
    cpu.update_zero_and_negative_flags(0xff);
    assert_eq!(cpu.status.bits(), 0b1010_0101);
}

#[test]
fn register_setters_update_the_flags() {
    let mut cpu = CPU::new();
    cpu.set_register_a(0x90);
    assert_eq!(cpu.register_a, 0x90);
    assert!(cpu.status.contains(CPUFlags::NEGATIV));
    cpu.set_register_x(0);
    assert_eq!(cpu.register_x, 0);
    assert!(cpu.status.contains(CPUFlags::ZERO));
    assert!(!cpu.status.contains(CPUFlags::NEGATIV));
    cpu.set_register_y(1);
    assert_eq!(cpu.register_y, 1);
    assert_eq!(cpu.status.bits(), 0b0010_0100);
    assert_eq!(cpu.register_a, 0x90);
}

#[test]
fn status_bits_round_trip() {
    for bits in 0..=255u8 {
        assert_eq!(CPUFlags::from_bits_truncate(bits).bits(), bits);
    }
}

#[test]
fn status_masks_are_single_bits() {
    let masks = [
        CPUFlags::CARRY,
        CPUFlags::ZERO,
        CPUFlags::INTERRUPT_DISABLE,
        CPUFlags::DECIMAL_MODE,
        CPUFlags::BREAK,
        CPUFlags::BREAK2,
        CPUFlags::OVERFLOW,
        CPUFlags::NEGATIV,
    ];
    for (i, mask) in masks.iter().enumerate() {
        assert_eq!(*mask, 1u8 << i);
    }
    assert_eq!(CPUFlags::RESET, CPUFlags::INTERRUPT_DISABLE | CPUFlags::BREAK2);
}

#[test]
fn status_insert_remove_contains() {
    let mut status = CPUFlags::from_bits_truncate(0);
    assert!(status.contains(0));
    assert!(!status.contains(CPUFlags::CARRY));
    status.insert(CPUFlags::CARRY | CPUFlags::NEGATIV);
    assert_eq!(status.bits(), 0b1000_0001);
    assert!(status.contains(CPUFlags::CARRY));
    assert!(status.contains(CPUFlags::CARRY | CPUFlags::NEGATIV));
    assert!(!status.contains(CPUFlags::CARRY | CPUFlags::ZERO));
    status.remove(CPUFlags::CARRY | CPUFlags::ZERO);
    assert_eq!(status.bits(), 0b1000_0000);
}

#[test]
fn direction_keys_leave_their_letter_in_memory() {
    let mut cpu = CPU::new();
    assert_eq!(INPUT_ADDRESS, 0xff);
    assert!(!handle_user_input(&mut cpu, InputEvent::KeyDown(Key::W)));
    assert_eq!(cpu.memory_read(0xff), 0x77);
    assert!(!handle_user_input(&mut cpu, InputEvent::KeyDown(Key::S)));
    assert_eq!(cpu.memory_read(0xff), 0x73);
    assert!(!handle_user_input(&mut cpu, InputEvent::KeyDown(Key::A)));
    assert_eq!(cpu.memory_read(0xff), 0x61);
    assert!(!handle_user_input(&mut cpu, InputEvent::KeyDown(Key::D)));
    assert_eq!(cpu.memory_read(0xff), 0x64);
    assert_eq!(cpu.memory_read(0xff), b'd');
}

#[test]
fn other_events_leave_memory_alone() {
    let mut cpu = CPU::new();
    handle_user_input(&mut cpu, InputEvent::KeyDown(Key::A));
    assert!(!handle_user_input(&mut cpu, InputEvent::KeyDown(Key::Other)));
    assert!(!handle_user_input(&mut cpu, InputEvent::Other));
    assert_eq!(cpu.memory_read(0xff), 0x61);
}

#[test]
fn quit_and_escape_ask_to_end() {
    let mut cpu = CPU::new();
    handle_user_input(&mut cpu, InputEvent::KeyDown(Key::W));
    assert!(handle_user_input(&mut cpu, InputEvent::Quit));
    assert!(handle_user_input(&mut cpu, InputEvent::KeyDown(Key::Escape)));
    assert_eq!(cpu.memory_read(0xff), 0x77);
}

#[test]
fn a_program_can_read_the_last_key() {
    let mut cpu = CPU::new();
    handle_user_input(&mut cpu, InputEvent::KeyDown(Key::S));
    assert_eq!(cpu.load_and_run(vec![0xa5, 0xff, 0xaa, 0x00]), Ok(RunState::Halted));
    assert_eq!(cpu.register_x, 0x73);
}

#[test]
fn watching_callback_ends_as_interpret_does() {
    let program = vec![0xa9, 0x10, 0xaa, 0xe8, 0x9d, 0x00, 0x02, 0x69, 0xf0, 0x00];
    let mut plain = CPU::new();
    assert_eq!(plain.load_and_run(program.clone()), Ok(RunState::Halted));

    let mut watched = CPU::new();
    watched.memory_load_program(program).unwrap();
    watched.reset();
    let mut seen = Vec::new();
    let outcome = watched.run_with_callback(|c: &mut CPU| {
        seen.push((c.program_counter, c.register_a, c.register_x, c.status.bits()));
    });
    assert_eq!(outcome, Ok(RunState::Halted));
    // One call before each of the five instructions and one before BRK, each
    // seeing what the instructions before it have left.
    assert_eq!(
        seen,
        vec![
            (0x0600, 0x00, 0x00, 0b0010_0100),
            (0x0602, 0x10, 0x00, 0b0010_0100),
            (0x0603, 0x10, 0x10, 0b0010_0100),
            (0x0604, 0x10, 0x11, 0b0010_0100),
            (0x0607, 0x10, 0x11, 0b0010_0100),
            (0x0609, 0x00, 0x11, 0b0010_0111),
        ]
    );
    assert_eq!(watched.register_a, plain.register_a);
    assert_eq!(watched.register_x, plain.register_x);
    assert_eq!(watched.register_y, plain.register_y);
    assert_eq!(watched.status.bits(), plain.status.bits());
    assert_eq!(watched.stack_pointer, plain.stack_pointer);
    assert_eq!(watched.program_counter, plain.program_counter);
    assert_eq!(watched.program_counter, 0x060a);
    assert!(watched.memory.bytes == plain.memory.bytes);
    assert_eq!(watched.memory_read(0x0211), 0x10);
}
