use chip8::{MachineError, ProgramCounter, CPU};

const NO_KEYS: [bool; 16] = [false; 16];

fn run(cpu: &mut CPU, steps: usize) {
    for _ in 0..steps {
        cpu.tick(&NO_KEYS, None).unwrap();
    }
}

/// A program that points `I` at a sprite stored after the code and draws it
/// with `Dxyn` at `(V0, V1)`; `code` follows the setup.
fn with_sprite(x: u8, y: u8, code: &[u8], sprite: &[u8]) -> CPU {
    let sprite_at = 0x200 + 6 + code.len();
    let mut program = vec![
        0xA0 | ((sprite_at >> 8) as u8),
        sprite_at as u8,
        0x60,
        x,
        0x61,
        y,
    ];
    program.extend_from_slice(code);
    program.extend_from_slice(sprite);
    CPU::init(&program, (64, 32)).unwrap()
}

fn lit(cpu: &CPU) -> Vec<(u8, u8)> {
    let mut cells = Vec::new();
    for y in 0..32u8 {
        for x in 0..64u8 {
            if cpu.pixel(x, y) {
                cells.push((x, y));
            }
        }
    }
    cells
}

#[test]
fn single_pixel_drawn_twice_restores_and_collides() {
    let mut cpu = with_sprite(10, 5, &[0xD0, 0x11, 0xD0, 0x11], &[0x80]);
    run(&mut cpu, 3);
    let before = cpu.framebuffer().to_vec();
    assert!(before.iter().all(|c| !c));
    run(&mut cpu, 1);
    assert_eq!(lit(&cpu), vec![(10, 5)]);
    assert_eq!(cpu.register(0xF), 0);
    assert!(cpu.vram_updated());
    run(&mut cpu, 1);
    assert_eq!(cpu.framebuffer().to_vec(), before);
    assert_eq!(cpu.register(0xF), 1);
}

#[test]
fn glyph_drawn_twice_restores_framebuffer() {
    // Draw the font glyph "8" at (3, 4), then the same again.
    let mut cpu = CPU::init(&[0x62, 0x08, 0xF2, 0x29, 0x60, 0x03, 0x61, 0x04, 0xD0, 0x15, 0xD0, 0x15], (64, 32)).unwrap();
    run(&mut cpu, 5);
    assert_eq!(cpu.register(0xF), 0);
    let drawn = lit(&cpu);
    // 0xF0, 0x90, 0xF0, 0x90, 0xF0: 4 + 2 + 4 + 2 + 4 cells.
    assert_eq!(drawn.len(), 16);
    assert!(drawn.contains(&(3, 4)) && drawn.contains(&(6, 4)) && drawn.contains(&(4, 6)));
    assert!(!drawn.contains(&(4, 5)));
    run(&mut cpu, 1);
    assert!(lit(&cpu).is_empty());
    assert_eq!(cpu.register(0xF), 1);
}

#[test]
fn collision_only_where_a_lit_cell_is_hit() {
    // Two sprites that do not overlap: no collision; one that overlaps: collision.
    let mut cpu = with_sprite(0, 0, &[0xD0, 0x11, 0x60, 0x08, 0xD0, 0x11, 0x60, 0x07, 0xD0, 0x11], &[0xFF]);
    run(&mut cpu, 4);
    assert_eq!(cpu.register(0xF), 0);
    run(&mut cpu, 2);
    assert_eq!(cpu.register(0xF), 0);
    assert_eq!(lit(&cpu).len(), 16);
    run(&mut cpu, 2);
    assert_eq!(cpu.register(0xF), 1);
    // Cells 7..=14 toggled: 7 and 8..=14 off, 15 stays lit.
    assert_eq!(lit(&cpu), vec![(0, 0), (1, 0), (2, 0), (3, 0), (4, 0), (5, 0), (6, 0), (15, 0)]);
}

#[test]
fn sprite_wraps_around_both_edges() {
    let mut cpu = with_sprite(62, 31, &[0xD0, 0x12], &[0xC0 | 0x20, 0x80]);
    run(&mut cpu, 4);
    assert_eq!(lit(&cpu), vec![(62, 0), (0, 31), (62, 31), (63, 31)]);
}

#[test]
fn coordinates_wrap_modulo_size() {
    let mut cpu = with_sprite(64 + 5, 32 + 2, &[0xD0, 0x11], &[0x80]);
    run(&mut cpu, 4);
    assert_eq!(lit(&cpu), vec![(5, 2)]);
}

#[test]
fn clear_screen_blanks_everything() {
    let mut cpu = with_sprite(1, 1, &[0xD0, 0x11, 0x00, 0xE0], &[0xFF]);
    run(&mut cpu, 4);
    assert_eq!(lit(&cpu).len(), 8);
    assert_eq!(cpu.tick(&NO_KEYS, None), Ok(ProgramCounter::Next));
    assert!(lit(&cpu).is_empty());
    assert!(cpu.vram_updated());
}

#[test]
fn dirty_flag_clears_on_next_step() {
    let mut cpu = with_sprite(1, 1, &[0xD0, 0x11, 0x60, 0x00], &[0xFF]);
    run(&mut cpu, 4);
    assert!(cpu.vram_updated());
    run(&mut cpu, 1);
    assert!(!cpu.vram_updated());
}

#[test]
fn sprite_beyond_memory_is_an_error() {
    // I = 0xFFE, draw 3 rows: bytes 0xFFE..0x1001 are out of range.
    let mut cpu = CPU::init(&[0xAF, 0xFE, 0xD0, 0x13], (64, 32)).unwrap();
    run(&mut cpu, 1);
    assert_eq!(cpu.tick(&NO_KEYS, None), Err(MachineError::OutOfBoundsAccess));
    assert_eq!(cpu.pc(), 0x202);
    assert!(lit(&cpu).is_empty());
}

#[test]
fn narrow_framebuffer_sprite_wraps_onto_itself() {
    // On a 4-wide framebuffer the 8 pixels of 0xFF cover each column twice.
    let mut cpu = CPU::init(&[0xA2, 0x04, 0xD0, 0x11, 0xFF], (4, 2)).unwrap();
    run(&mut cpu, 2);
    assert!(cpu.framebuffer().iter().all(|c| !c));
    assert_eq!(cpu.register(0xF), 1);
}
