use chip8::keyboard::create;
use chip8::{map_scancode, MachineError, PhysicalKey, ProgramCounter, CPU};

const NO_KEYS: [bool; 16] = [false; 16];

#[test]
fn key_wait_waits_until_a_press_then_advances_once() {
    // 0x200: wait for a key into V3; 0x202: V0 = 1.
    let mut cpu = CPU::init(&[0xF3, 0x0A, 0x60, 0x01], (64, 32)).unwrap();
    assert_eq!(cpu.tick(&NO_KEYS, Some(7)), Ok(ProgramCounter::Wait));
    assert!(cpu.is_waiting_for_press());
    assert_eq!(cpu.pc(), 0x200);
    for _ in 0..5 {
        assert_eq!(cpu.tick(&NO_KEYS, None), Ok(ProgramCounter::Wait));
        assert_eq!(cpu.pc(), 0x200);
    }
    assert_eq!(cpu.tick(&NO_KEYS, Some(0xB)), Ok(ProgramCounter::Next));
    assert_eq!(cpu.register(3), 0xB);
    assert_eq!(cpu.pc(), 0x202);
    assert!(!cpu.is_waiting_for_press());
    assert_eq!(cpu.tick(&NO_KEYS, Some(0xB)), Ok(ProgramCounter::Next));
    assert_eq!(cpu.register(0), 1);
}

#[test]
fn skip_if_key_pressed_or_not() {
    let mut keys = [false; 16];
    keys[5] = true;
    for (low, pressed, expected) in [
        (0x9Eu8, &keys, ProgramCounter::Skip),
        (0x9E, &NO_KEYS, ProgramCounter::Next),
        (0xA1, &keys, ProgramCounter::Next),
        (0xA1, &NO_KEYS, ProgramCounter::Skip),
    ] {
        let mut cpu = CPU::init(&[0x62, 0x05, 0xE2, low], (64, 32)).unwrap();
        cpu.tick(&NO_KEYS, None).unwrap();
        assert_eq!(cpu.tick(pressed, None), Ok(expected));
    }
}

#[test]
fn skip_on_key_beyond_keypad_is_an_error() {
    let mut cpu = CPU::init(&[0x62, 0x10, 0xE2, 0x9E], (64, 32)).unwrap();
    cpu.tick(&NO_KEYS, None).unwrap();
    assert_eq!(cpu.tick(&NO_KEYS, None), Err(MachineError::OutOfBoundsAccess));
}

#[test]
fn physical_keys_map_to_the_keypad_layout() {
    let layout = [
        (PhysicalKey::Num1, 0x1),
        (PhysicalKey::Num2, 0x2),
        (PhysicalKey::Num3, 0x3),
        (PhysicalKey::Num4, 0xC),
        (PhysicalKey::Q, 0x4),
        (PhysicalKey::W, 0x5),
        (PhysicalKey::E, 0x6),
        (PhysicalKey::R, 0xD),
        (PhysicalKey::A, 0x7),
        (PhysicalKey::S, 0x8),
        (PhysicalKey::D, 0x9),
        (PhysicalKey::F, 0xE),
        (PhysicalKey::Z, 0xA),
        (PhysicalKey::X, 0x0),
        (PhysicalKey::C, 0xB),
        (PhysicalKey::V, 0xF),
    ];
    let mut seen = [false; 16];
    for (key, index) in layout {
        assert_eq!(map_scancode(key), index);
        seen[index as usize] = true;
    }
    assert!(seen.iter().all(|s| *s));
}

#[test]
fn keyboard_tracks_presses_and_releases() {
    let mut kb = create();
    assert_eq!(kb.get_recently_pressed_key(), None);
    assert!(kb.key_down(4));
    assert!(!kb.key_down(4));
    assert!(kb.is_key_down(4));
    assert_eq!(kb.get_recently_pressed_key(), Some(4));
    assert!(kb.key_down(9));
    assert_eq!(kb.get_recently_pressed_key(), Some(9));
    assert!(kb.key_up(4));
    assert_eq!(kb.get_recently_pressed_key(), Some(9));
    assert!(kb.key_up(9));
    assert_eq!(kb.get_recently_pressed_key(), None);
    assert!(!kb.key_up(9));
    assert!(!kb.is_key_down(4));
    assert_eq!(kb.keypad(), [false; 16]);
}

#[test]
fn keyboard_wait_and_take() {
    let mut kb = create();
    kb.key_down(2);
    assert!(kb.wait_for_press());
    assert!(kb.is_waiting_for_press());
    assert_eq!(kb.get_recently_pressed_key(), None);
    assert!(kb.is_key_down(2));
    kb.key_down(0xA);
    assert!(!kb.is_waiting_for_press());
    assert_eq!(kb.take_press(), Some(0xA));
    assert_eq!(kb.take_press(), None);
    let mut expected = [false; 16];
    expected[2] = true;
    expected[0xA] = true;
    assert_eq!(kb.keypad(), expected);
}
