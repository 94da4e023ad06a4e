use chip8::{MachineError, ProgramCounter, Quirks, CPU};

const NO_KEYS: [bool; 16] = [false; 16];

fn machine(program: &[u8]) -> CPU {
    CPU::init(program, (64, 32)).unwrap()
}

fn step(cpu: &mut CPU) -> Result<ProgramCounter, MachineError> {
    cpu.tick(&NO_KEYS, None)
}

#[test]
fn load_add_store_program_sets_delay_timer() {
    let mut cpu = machine(&[0x60, 0x05, 0x61, 0x0A, 0x80, 0x14, 0xF0, 0x15]);
    for _ in 0..4 {
        assert_eq!(step(&mut cpu), Ok(ProgramCounter::Next));
    }
    assert_eq!(cpu.delay_timer(), 15);
    assert_eq!(cpu.pc(), 0x200 + 8);
}

#[test]
fn load_add_store_program_wraps_near_boundary() {
    let mut cpu = machine(&[0x60, 0xFB, 0x61, 0x0A, 0x80, 0x14, 0xF0, 0x15]);
    for _ in 0..4 {
        step(&mut cpu).unwrap();
    }
    assert_eq!(cpu.delay_timer(), 5);
    assert_eq!(cpu.pc(), 0x208);
}

#[test]
fn jump_then_return_on_empty_stack_underflows() {
    let mut program = vec![0x12, 0x04, 0x00, 0x00, 0x00, 0xEE];
    program.resize(6, 0);
    let mut cpu = machine(&program);
    assert_eq!(step(&mut cpu), Ok(ProgramCounter::Jump(0x204)));
    assert_eq!(cpu.pc(), 0x204);
    assert_eq!(step(&mut cpu), Err(MachineError::StackUnderflow));
    assert_eq!(cpu.pc(), 0x204);
}

#[test]
fn call_and_return() {
    // 0x200: call 0x206; 0x202: V1 = 2; 0x204: jump 0x204; 0x206: V0 = 1; 0x208: return.
    let mut cpu = machine(&[0x22, 0x06, 0x61, 0x02, 0x12, 0x04, 0x60, 0x01, 0x00, 0xEE]);
    assert_eq!(step(&mut cpu), Ok(ProgramCounter::Call(0x206)));
    assert_eq!(cpu.stack_depth(), 1);
    assert_eq!(cpu.pc(), 0x206);
    step(&mut cpu).unwrap();
    assert_eq!(step(&mut cpu), Ok(ProgramCounter::Jump(0x202)));
    assert_eq!(cpu.stack_depth(), 0);
    step(&mut cpu).unwrap();
    assert_eq!((cpu.register(0), cpu.register(1)), (1, 2));
}

#[test]
fn seventeenth_nested_call_overflows() {
    // 0x200: call 0x200, forever.
    let mut cpu = machine(&[0x22, 0x00]);
    for depth in 1..=16 {
        step(&mut cpu).unwrap();
        assert_eq!(cpu.stack_depth(), depth);
    }
    assert_eq!(step(&mut cpu), Err(MachineError::StackOverflow));
    assert_eq!(cpu.stack_depth(), 16);
}

#[test]
fn skips_compare_registers_and_immediates() {
    let cases: Vec<([u8; 2], ProgramCounter)> = vec![
        ([0x30, 0x07], ProgramCounter::Skip),
        ([0x30, 0x08], ProgramCounter::Next),
        ([0x40, 0x07], ProgramCounter::Next),
        ([0x40, 0x08], ProgramCounter::Skip),
        ([0x50, 0x10], ProgramCounter::Skip),
        ([0x50, 0x20], ProgramCounter::Next),
        ([0x90, 0x10], ProgramCounter::Next),
        ([0x90, 0x20], ProgramCounter::Skip),
    ];
    for (ins, expected) in cases {
        // V0 = 7, V1 = 7, V2 = 9, then the skip.
        let mut cpu = machine(&[0x60, 0x07, 0x61, 0x07, 0x62, 0x09, ins[0], ins[1]]);
        for _ in 0..3 {
            step(&mut cpu).unwrap();
        }
        assert_eq!(step(&mut cpu), Ok(expected));
        let advance = if expected == ProgramCounter::Skip { 4 } else { 2 };
        assert_eq!(cpu.pc(), 0x206 + advance);
    }
}

#[test]
fn jump_with_offset_and_its_quirk() {
    // V0 = 4, V3 = 0x10, then B3 00.
    let program = [0x60, 0x04, 0x63, 0x10, 0xB3, 0x00];
    let mut cpu = machine(&program);
    for _ in 0..2 {
        step(&mut cpu).unwrap();
    }
    assert_eq!(step(&mut cpu), Ok(ProgramCounter::Jump(0x304)));
    assert_eq!(cpu.pc(), 0x304);

    let mut cpu = machine(&program);
    cpu.set_quirks(Quirks { jump_offset_uses_vx: true, ..Quirks::default() });
    for _ in 0..2 {
        step(&mut cpu).unwrap();
    }
    assert_eq!(step(&mut cpu), Ok(ProgramCounter::Jump(0x310)));
}

#[test]
fn fetch_past_memory_is_an_error() {
    let mut cpu = machine(&[0x1F, 0xFF]);
    step(&mut cpu).unwrap();
    assert_eq!(cpu.pc(), 0xFFF);
    assert_eq!(step(&mut cpu), Err(MachineError::OutOfBoundsAccess));
}

#[test]
fn bcd_digits_are_stored_at_index() {
    // V5 = 254; I = 0x300; BCD.
    let mut cpu = machine(&[0x65, 0xFE, 0xA3, 0x00, 0xF5, 0x33]);
    for _ in 0..3 {
        step(&mut cpu).unwrap();
    }
    assert_eq!((cpu.memory(0x300), cpu.memory(0x301), cpu.memory(0x302)), (2, 5, 4));
}

#[test]
fn bcd_beyond_memory_is_an_error() {
    let mut cpu = machine(&[0xAF, 0xFE, 0xF0, 0x33]);
    step(&mut cpu).unwrap();
    assert_eq!(step(&mut cpu), Err(MachineError::OutOfBoundsAccess));
    assert_eq!(cpu.memory(0xFFE), 0);
}

#[test]
fn register_dump_and_load_round_trip() {
    // V0..V3 = 1, 2, 3, 4; V4 = 99; I = 0x400; dump V0..=V3; clear V0..V3; load.
    let mut cpu = machine(&[
        0x60, 0x01, 0x61, 0x02, 0x62, 0x03, 0x63, 0x04, 0x64, 0x63, 0xA4, 0x00, 0xF3, 0x55, 0x60,
        0x00, 0x61, 0x00, 0x62, 0x00, 0x63, 0x00, 0xF3, 0x65,
    ]);
    for _ in 0..7 {
        step(&mut cpu).unwrap();
    }
    let dumped: Vec<u8> = (0x400..0x405).map(|a| cpu.memory(a)).collect();
    assert_eq!(dumped, vec![1, 2, 3, 4, 0]);
    for _ in 0..4 {
        step(&mut cpu).unwrap();
    }
    assert_eq!(cpu.register(0), 0);
    step(&mut cpu).unwrap();
    let regs: Vec<u8> = (0..5).map(|r| cpu.register(r)).collect();
    assert_eq!(regs, vec![1, 2, 3, 4, 99]);
    assert_eq!(cpu.index(), 0x400);
}

#[test]
fn register_dump_beyond_memory_is_an_error() {
    let mut cpu = machine(&[0xAF, 0xFC, 0xF7, 0x55]);
    step(&mut cpu).unwrap();
    assert_eq!(step(&mut cpu), Err(MachineError::OutOfBoundsAccess));
    let mut cpu = machine(&[0xAF, 0xFC, 0xF3, 0x65]);
    step(&mut cpu).unwrap();
    assert_eq!(step(&mut cpu), Ok(ProgramCounter::Next));
}

#[test]
fn timers_copy_and_count_down_to_zero() {
    let mut cpu = machine(&[0x60, 0x02, 0xF0, 0x15, 0xF0, 0x18, 0xF1, 0x07]);
    for _ in 0..3 {
        step(&mut cpu).unwrap();
    }
    assert_eq!((cpu.delay_timer(), cpu.sound_timer()), (2, 2));
    cpu.decrement_timers();
    step(&mut cpu).unwrap();
    assert_eq!(cpu.register(1), 1);
    cpu.decrement_timers();
    cpu.decrement_timers();
    assert_eq!((cpu.delay_timer(), cpu.sound_timer()), (0, 0));
}

#[test]
fn reset_sound_timer_silences() {
    let mut cpu = machine(&[0x60, 0x30, 0xF0, 0x18]);
    for _ in 0..2 {
        step(&mut cpu).unwrap();
    }
    assert_eq!(cpu.sound_timer(), 0x30);
    cpu.reset_sound_timer();
    assert_eq!(cpu.sound_timer(), 0);
}

#[test]
fn program_counter_helpers() {
    let mut cpu = machine(&[]);
    cpu.increment_op();
    assert_eq!(cpu.pc(), 0x202);
    cpu.skip_op();
    assert_eq!(cpu.pc(), 0x206);
    cpu.jump_to_op(0x300);
    assert_eq!(cpu.pc(), 0x300);
    assert_eq!(cpu.call_op(0x400), Ok(()));
    assert_eq!((cpu.pc(), cpu.stack_depth()), (0x400, 1));
    cpu.jump_to_op(0xFFFE);
    cpu.increment_op();
    assert_eq!(cpu.pc(), 0);
}

#[test]
fn execute_op_leaves_the_program_counter() {
    let mut cpu = machine(&[0x60, 0x2A]);
    assert_eq!(cpu.execute_op(&NO_KEYS, None), Ok(ProgramCounter::Next));
    assert_eq!(cpu.pc(), 0x200);
    assert_eq!(cpu.register(0), 0x2A);
}
