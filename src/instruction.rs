//! The instruction set: the fields of a two-byte instruction word and the
//! total classification of every word into an instruction kind.
use vstd::prelude::*;

verus! {

/// One decoded instruction. Register operands are nibbles (`0..16`), addresses
/// are twelve bits wide, and `Unknown` keeps the whole word.
#[derive(Debug, Clone, Copy, PartialEq, Eq, Structural)]
pub enum Instruction {
    /// `00E0`: clear the framebuffer.
    ClearScreen,
    /// `00EE`: return from a subroutine.
    Return,
    /// `1nnn`: jump to `nnn`.
    Jump(u16),
    /// `2nnn`: call the subroutine at `nnn`.
    Call(u16),
    /// `3xkk`: skip the next instruction if `Vx == kk`.
    SkipEqImm(u8, u8),
    /// `4xkk`: skip the next instruction if `Vx != kk`.
    SkipNeImm(u8, u8),
    /// `5xy0`: skip the next instruction if `Vx == Vy`.
    SkipEqReg(u8, u8),
    /// `6xkk`: `Vx = kk`.
    LoadImm(u8, u8),
    /// `7xkk`: `Vx = Vx + kk`, wrapping, flags untouched.
    AddImm(u8, u8),
    /// `8xy0`: `Vx = Vy`.
    LoadReg(u8, u8),
    /// `8xy1`: `Vx = Vx | Vy`.
    Or(u8, u8),
    /// `8xy2`: `Vx = Vx & Vy`.
    And(u8, u8),
    /// `8xy3`: `Vx = Vx ^ Vy`.
    Xor(u8, u8),
    /// `8xy4`: `Vx = Vx + Vy`, `VF` = carry.
    AddReg(u8, u8),
    /// `8xy5`: `Vx = Vx - Vy`, `VF` = no borrow.
    Sub(u8, u8),
    /// `8xy6`: shift right by one, `VF` = the bit shifted out.
    ShiftRight(u8, u8),
    /// `8xy7`: `Vx = Vy - Vx`, `VF` = no borrow.
    SubReverse(u8, u8),
    /// `8xyE`: shift left by one, `VF` = the bit shifted out.
    ShiftLeft(u8, u8),
    /// `9xy0`: skip the next instruction if `Vx != Vy`.
    SkipNeReg(u8, u8),
    /// `Annn`: `I = nnn`.
    LoadIndex(u16),
    /// `Bnnn`: jump to `nnn` plus an offset register; the `x` nibble is kept.
    JumpOffset(u8, u16),
    /// `Cxkk`: `Vx = random byte & kk`.
    Random(u8, u8),
    /// `Dxyn`: draw an `n`-row sprite at `(Vx, Vy)`.
    Draw(u8, u8, u8),
    /// `Ex9E`: skip the next instruction if the key `Vx` is down.
    SkipKey(u8),
    /// `ExA1`: skip the next instruction if the key `Vx` is up.
    SkipNotKey(u8),
    /// `Fx07`: `Vx = delay timer`.
    LoadDelay(u8),
    /// `Fx0A`: wait for a key press and store its index in `Vx`.
    WaitKey(u8),
    /// `Fx15`: `delay timer = Vx`.
    SetDelay(u8),
    /// `Fx18`: `sound timer = Vx`.
    SetSound(u8),
    /// `Fx1E`: `I = I + Vx`, wrapping at sixteen bits.
    AddIndex(u8),
    /// `Fx29`: `I` = address of the font glyph for the digit `Vx`.
    LoadFont(u8),
    /// `Fx33`: store the decimal digits of `Vx` at `I`, `I+1`, `I+2`.
    StoreBcd(u8),
    /// `Fx55`: store `V0..=Vx` at `I..`.
    StoreRegs(u8),
    /// `Fx65`: load `V0..=Vx` from `I..`.
    LoadRegs(u8),
    /// Any word that names no instruction.
    Unknown(u16),
}

/// Top nibble of the word.
pub open spec fn op_of(high: u8) -> u8 {
    high / 16
}

/// Second nibble: usually a register index.
pub open spec fn x_of(high: u8) -> u8 {
    high % 16
}

/// Third nibble: usually a register index.
pub open spec fn y_of(low: u8) -> u8 {
    low / 16
}

/// Bottom nibble: a four-bit immediate.
pub open spec fn n_of(low: u8) -> u8 {
    low % 16
}

/// Bottom twelve bits: an address.
pub open spec fn nnn_of(high: u8, low: u8) -> u16 {
    ((high % 16) * 256 + low) as u16
}

/// The whole big-endian word.
pub open spec fn word_of(high: u8, low: u8) -> u16 {
    (high * 256 + low) as u16
}

/// The classification of an instruction word given as its two bytes, the
/// high byte first. Every one of the 65536 words has exactly one result.
pub open spec fn decode(high: u8, low: u8) -> Instruction {
    let (op, x, y, n) = (op_of(high), x_of(high), y_of(low), n_of(low));
    let nn = low;
    let nnn = nnn_of(high, low);
    if op == 0 && x == 0 && y == 0xE && n == 0 {
        Instruction::ClearScreen
    } else if op == 0 && x == 0 && y == 0xE && n == 0xE {
        Instruction::Return
    } else if op == 1 {
        Instruction::Jump(nnn)
    } else if op == 2 {
        Instruction::Call(nnn)
    } else if op == 3 {
        Instruction::SkipEqImm(x, nn)
    } else if op == 4 {
        Instruction::SkipNeImm(x, nn)
    } else if op == 5 && n == 0 {
        Instruction::SkipEqReg(x, y)
    } else if op == 6 {
        Instruction::LoadImm(x, nn)
    } else if op == 7 {
        Instruction::AddImm(x, nn)
    } else if op == 8 && n == 0 {
        Instruction::LoadReg(x, y)
    } else if op == 8 && n == 1 {
        Instruction::Or(x, y)
    } else if op == 8 && n == 2 {
        Instruction::And(x, y)
    } else if op == 8 && n == 3 {
        Instruction::Xor(x, y)
    } else if op == 8 && n == 4 {
        Instruction::AddReg(x, y)
    } else if op == 8 && n == 5 {
        Instruction::Sub(x, y)
    } else if op == 8 && n == 6 {
        Instruction::ShiftRight(x, y)
    } else if op == 8 && n == 7 {
        Instruction::SubReverse(x, y)
    } else if op == 8 && n == 0xE {
        Instruction::ShiftLeft(x, y)
    } else if op == 9 && n == 0 {
        Instruction::SkipNeReg(x, y)
    } else if op == 0xA {
        Instruction::LoadIndex(nnn)
    } else if op == 0xB {
        Instruction::JumpOffset(x, nnn)
    } else if op == 0xC {
        Instruction::Random(x, nn)
    } else if op == 0xD {
        Instruction::Draw(x, y, n)
    } else if op == 0xE && nn == 0x9E {
        Instruction::SkipKey(x)
    } else if op == 0xE && nn == 0xA1 {
        Instruction::SkipNotKey(x)
    } else if op == 0xF && nn == 0x07 {
        Instruction::LoadDelay(x)
    } else if op == 0xF && nn == 0x0A {
        Instruction::WaitKey(x)
    } else if op == 0xF && nn == 0x15 {
        Instruction::SetDelay(x)
    } else if op == 0xF && nn == 0x18 {
        Instruction::SetSound(x)
    } else if op == 0xF && nn == 0x1E {
        Instruction::AddIndex(x)
    } else if op == 0xF && nn == 0x29 {
        Instruction::LoadFont(x)
    } else if op == 0xF && nn == 0x33 {
        Instruction::StoreBcd(x)
    } else if op == 0xF && nn == 0x55 {
        Instruction::StoreRegs(x)
    } else if op == 0xF && nn == 0x65 {
        Instruction::LoadRegs(x)
    } else {
        Instruction::Unknown(word_of(high, low))
    }
}

impl Instruction {
    /// Operands are in the ranges that a decoded word gives: registers and
    /// the row count are nibbles, addresses are twelve bits.
    pub open spec fn wf(self) -> bool {
        match self {
            Instruction::Jump(a) | Instruction::Call(a) | Instruction::LoadIndex(a) => a < 0x1000,
            Instruction::JumpOffset(x, a) => x < 16 && a < 0x1000,
            Instruction::SkipEqImm(x, _) | Instruction::SkipNeImm(x, _)
            | Instruction::LoadImm(x, _) | Instruction::AddImm(x, _)
            | Instruction::Random(x, _) => x < 16,
            Instruction::SkipEqReg(x, y) | Instruction::LoadReg(x, y) | Instruction::Or(x, y)
            | Instruction::And(x, y) | Instruction::Xor(x, y) | Instruction::AddReg(x, y)
            | Instruction::Sub(x, y) | Instruction::ShiftRight(x, y)
            | Instruction::SubReverse(x, y) | Instruction::ShiftLeft(x, y)
            | Instruction::SkipNeReg(x, y) => x < 16 && y < 16,
            Instruction::Draw(x, y, n) => x < 16 && y < 16 && n < 16,
            Instruction::SkipKey(x) | Instruction::SkipNotKey(x) | Instruction::LoadDelay(x)
            | Instruction::WaitKey(x) | Instruction::SetDelay(x) | Instruction::SetSound(x)
            | Instruction::AddIndex(x) | Instruction::LoadFont(x) | Instruction::StoreBcd(x)
            | Instruction::StoreRegs(x) | Instruction::LoadRegs(x) => x < 16,
            Instruction::ClearScreen | Instruction::Return | Instruction::Unknown(_) => true,
        }
    }
}

/// Every decoded instruction has its operands in range.
pub proof fn lemma_decode_wf(high: u8, low: u8)
    ensures
        decode(high, low).wf(),
{
    assert(nnn_of(high, low) < 0x1000) by (nonlinear_arith);
}

/// Splits the word `high, low` into its fields and classifies it.
pub fn parse_instruction(high: u8, low: u8) -> (r: Instruction)
    ensures
        r == decode(high, low),
        r.wf(),
{
    proof {
        lemma_decode_wf(high, low);
    }
    let op = high >> 4;
    let x = high & 0x0F;
    let y = low >> 4;
    let n = low & 0x0F;
    let nn = low;
    let nnn: u16 = ((x as u16) << 8) | (low as u16);
    let word: u16 = ((high as u16) << 8) | (low as u16);
    assert(op == op_of(high) && x == x_of(high)) by (bit_vector)
        requires
            op == high >> 4,
            x == high & 0x0F,
    ;
    assert(y == y_of(low) && n == n_of(low)) by (bit_vector)
        requires
            y == low >> 4,
            n == low & 0x0F,
    ;
    assert(nnn == nnn_of(high, low) && word == word_of(high, low)) by (bit_vector)
        requires
            x == high & 0x0F,
            nnn == ((x as u16) << 8) | (low as u16),
            word == ((high as u16) << 8) | (low as u16),
    ;
    match (op, x, y, n) {
        (0x0, 0x0, 0xE, 0x0) => Instruction::ClearScreen,
        (0x0, 0x0, 0xE, 0xE) => Instruction::Return,
        (0x1, _, _, _) => Instruction::Jump(nnn),
        (0x2, _, _, _) => Instruction::Call(nnn),
        (0x3, _, _, _) => Instruction::SkipEqImm(x, nn),
        (0x4, _, _, _) => Instruction::SkipNeImm(x, nn),
        (0x5, _, _, 0x0) => Instruction::SkipEqReg(x, y),
        (0x6, _, _, _) => Instruction::LoadImm(x, nn),
        (0x7, _, _, _) => Instruction::AddImm(x, nn),
        (0x8, _, _, 0x0) => Instruction::LoadReg(x, y),
        (0x8, _, _, 0x1) => Instruction::Or(x, y),
        (0x8, _, _, 0x2) => Instruction::And(x, y),
        (0x8, _, _, 0x3) => Instruction::Xor(x, y),
        (0x8, _, _, 0x4) => Instruction::AddReg(x, y),
        (0x8, _, _, 0x5) => Instruction::Sub(x, y),
        (0x8, _, _, 0x6) => Instruction::ShiftRight(x, y),
        (0x8, _, _, 0x7) => Instruction::SubReverse(x, y),
        (0x8, _, _, 0xE) => Instruction::ShiftLeft(x, y),
        (0x9, _, _, 0x0) => Instruction::SkipNeReg(x, y),
        (0xA, _, _, _) => Instruction::LoadIndex(nnn),
        (0xB, _, _, _) => Instruction::JumpOffset(x, nnn),
        (0xC, _, _, _) => Instruction::Random(x, nn),
        (0xD, _, _, _) => Instruction::Draw(x, y, n),
        (0xE, _, 0x9, 0xE) => Instruction::SkipKey(x),
        (0xE, _, 0xA, 0x1) => Instruction::SkipNotKey(x),
        (0xF, _, 0x0, 0x7) => Instruction::LoadDelay(x),
        (0xF, _, 0x0, 0xA) => Instruction::WaitKey(x),
        (0xF, _, 0x1, 0x5) => Instruction::SetDelay(x),
        (0xF, _, 0x1, 0x8) => Instruction::SetSound(x),
        (0xF, _, 0x1, 0xE) => Instruction::AddIndex(x),
        (0xF, _, 0x2, 0x9) => Instruction::LoadFont(x),
        (0xF, _, 0x3, 0x3) => Instruction::StoreBcd(x),
        (0xF, _, 0x5, 0x5) => Instruction::StoreRegs(x),
        (0xF, _, 0x6, 0x5) => Instruction::LoadRegs(x),
        _ => Instruction::Unknown(word),
    }
}

} // verus!
