//! The physical keys that stand for the sixteen keypad keys, and which keypad
//! key each of them stands for.
use vstd::prelude::*;

verus! {

/// The keys of the left-hand block of a QWERTY keyboard that make up the
/// keypad: the rows `1 2 3 4`, `Q W E R`, `A S D F` and `Z X C V`.
#[derive(Debug, Clone, Copy, PartialEq, Eq, Structural)]
pub enum PhysicalKey {
    Num1,
    Num2,
    Num3,
    Num4,
    Q,
    W,
    E,
    R,
    A,
    S,
    D,
    F,
    Z,
    X,
    C,
    V,
}

/// The keypad key that a physical key stands for. The keypad's layout is
/// `1 2 3 C`, `4 5 6 D`, `7 8 9 E`, `A 0 B F`.
pub open spec fn keypad_index(code: PhysicalKey) -> u8 {
    match code {
        PhysicalKey::Num1 => 0x1,
        PhysicalKey::Num2 => 0x2,
        PhysicalKey::Num3 => 0x3,
        PhysicalKey::Num4 => 0xC,
        PhysicalKey::Q => 0x4,
        PhysicalKey::W => 0x5,
        PhysicalKey::E => 0x6,
        PhysicalKey::R => 0xD,
        PhysicalKey::A => 0x7,
        PhysicalKey::S => 0x8,
        PhysicalKey::D => 0x9,
        PhysicalKey::F => 0xE,
        PhysicalKey::Z => 0xA,
        PhysicalKey::X => 0x0,
        PhysicalKey::C => 0xB,
        PhysicalKey::V => 0xF,
    }
}

/// Two distinct physical keys stand for distinct keypad keys, so every keypad
/// key has exactly one physical key.
pub proof fn lemma_keypad_index_injective(a: PhysicalKey, b: PhysicalKey)
    ensures
        keypad_index(a) < 16,
        keypad_index(a) == keypad_index(b) ==> a == b,
{
}

/// The keypad key that `code` stands for.
pub fn map_scancode(code: PhysicalKey) -> (r: u8)
    ensures
        r == keypad_index(code),
        r < 16,
{
    match code {
        PhysicalKey::Num1 => 1,
        PhysicalKey::Num2 => 2,
        PhysicalKey::Num3 => 3,
        PhysicalKey::Num4 => 12,
        PhysicalKey::Q => 4,
        PhysicalKey::W => 5,
        PhysicalKey::E => 6,
        PhysicalKey::R => 13,
        PhysicalKey::A => 7,
        PhysicalKey::S => 8,
        PhysicalKey::D => 9,
        PhysicalKey::F => 14,
        PhysicalKey::Z => 10,
        PhysicalKey::X => 0,
        PhysicalKey::C => 11,
        PhysicalKey::V => 15,
    }
}

} // verus!
