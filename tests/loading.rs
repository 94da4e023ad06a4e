use chip8::fonts::fonts;
use chip8::{Emulator, MachineError, Quirks, CPU};

#[test]
fn init_loads_font_program_and_zeros() {
    let cpu = CPU::init(&[0x12, 0x34, 0x56], (64, 32)).unwrap();
    let font = fonts();
    assert_eq!(font.len(), 80);
    for (a, b) in font.iter().enumerate() {
        assert_eq!(cpu.memory(a), *b);
    }
    assert_eq!(cpu.memory(0x50), 0);
    assert_eq!((cpu.memory(0x200), cpu.memory(0x201), cpu.memory(0x202)), (0x12, 0x34, 0x56));
    assert_eq!(cpu.memory(0x203), 0);
    assert_eq!(cpu.memory(4095), 0);
    assert_eq!(cpu.pc(), 0x200);
    assert_eq!(cpu.index(), 0);
    assert_eq!(cpu.stack_depth(), 0);
    assert_eq!((cpu.delay_timer(), cpu.sound_timer()), (0, 0));
    assert!((0..16).all(|r| cpu.register(r) == 0));
    assert_eq!(cpu.window(), (64, 32));
    assert_eq!(cpu.framebuffer().len(), 64 * 32);
    assert!(!cpu.vram_updated());
    assert!(!cpu.is_waiting_for_press());
    assert_eq!(cpu.quirks(), Quirks::default());
}

#[test]
fn font_glyphs_are_the_hex_digits() {
    let font = fonts();
    assert_eq!(&font[0..5], &[0xF0, 0x90, 0x90, 0x90, 0xF0]);
    assert_eq!(&font[75..80], &[0xF0, 0x80, 0xF0, 0x80, 0x80]);
}

#[test]
fn largest_program_fits_and_one_more_byte_does_not() {
    let rom = vec![0xAB; 4096 - 512];
    let cpu = CPU::init(&rom, (64, 32)).unwrap();
    assert_eq!(cpu.memory(4095), 0xAB);
    let rom = vec![0xAB; 4096 - 512 + 1];
    assert_eq!(CPU::init(&rom, (64, 32)).err(), Some(MachineError::ResourceLoad));
}

#[test]
fn reloading_replaces_program_and_clears_the_rest() {
    let mut cpu = CPU::init(&[1, 2, 3, 4], (64, 32)).unwrap();
    assert_eq!(cpu.load_rom(&[9]), Ok(()));
    assert_eq!((cpu.memory(0x200), cpu.memory(0x201)), (9, 0));
    assert_eq!(cpu.memory(0), 0xF0);
    assert_eq!(cpu.load_rom(&vec![0; 4000]), Err(MachineError::ResourceLoad));
    assert_eq!(cpu.memory(0x200), 9);
}

#[test]
fn fonts_must_end_below_program_start() {
    let mut cpu = CPU::init(&[], (64, 32)).unwrap();
    assert_eq!(cpu.load_fonts(&[1, 2, 3]), Ok(()));
    assert_eq!((cpu.memory(0), cpu.memory(2), cpu.memory(3)), (1, 3, 0x90));
    assert_eq!(cpu.load_fonts(&vec![7; 513]), Err(MachineError::ResourceLoad));
    assert_eq!(cpu.memory(0), 1);
}
