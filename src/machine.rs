//! The abstract machine: its state as mathematical values and the effect of
//! each instruction and of one full fetch-decode-execute step on it.
use vstd::prelude::*;

use crate::fonts::GLYPH_BYTES;
use crate::framebuffer::{collides, drawn};
use crate::instruction::{decode, Instruction};

verus! {

/// Bytes of memory.
pub const RAM_SIZE: usize = 4096;

/// Address at which programs are loaded and execution starts.
pub const PROGRAM_START: usize = 0x200;

/// Most return addresses the call stack holds.
pub const STACK_CAPACITY: usize = 16;

/// Number of data registers; the last one, `VF`, doubles as the flag register.
pub const REGISTER_COUNT: usize = 16;

/// Number of keys on the keypad.
pub const KEY_COUNT: usize = 16;

/// Index of the flag register `VF`.
pub const FLAG: u8 = 0xF;

/// Choices between the behaviours that implementations of this instruction set
/// historically disagree on.
#[derive(Debug, Clone, Copy, PartialEq, Eq, Structural)]
pub struct Quirks {
    /// The shift instructions read `Vy` (instead of `Vx`) as their operand.
    pub shift_uses_vy: bool,
    /// The bitwise OR, AND and XOR instructions set `VF` to zero.
    pub logic_resets_vf: bool,
    /// `Bxnn` jumps to `xnn + Vx` (instead of `nnn + V0`).
    pub jump_offset_uses_vx: bool,
    /// An unknown instruction word stops execution with an error (instead of
    /// being skipped over).
    pub unknown_is_fatal: bool,
}

impl Quirks {
    /// The defaults: shifts operate on `Vx`, bitwise operations clear `VF`,
    /// offset jumps add `V0`, and unknown instruction words are errors.
    pub open spec fn standard() -> Quirks {
        Quirks {
            shift_uses_vy: false,
            logic_resets_vf: true,
            jump_offset_uses_vx: false,
            unknown_is_fatal: true,
        }
    }
}

impl Default for Quirks {
    fn default() -> (q: Quirks)
        ensures
            q == Quirks::standard(),
    {
        Quirks {
            shift_uses_vy: false,
            logic_resets_vf: true,
            jump_offset_uses_vx: false,
            unknown_is_fatal: true,
        }
    }
}

/// Why a step could not be carried out. All of them end an emulation session.
#[derive(Debug, Clone, Copy, PartialEq, Eq, Structural)]
pub enum MachineError {
    /// A memory or keypad access outside its bounds.
    OutOfBoundsAccess,
    /// A return with an empty call stack.
    StackUnderflow,
    /// A call with a full call stack.
    StackOverflow,
    /// The word, fetched where an instruction was expected, names none.
    UnknownInstruction(u16),
    /// A program or font that does not fit where it must be loaded.
    ResourceLoad,
}

/// The control-flow effect of one instruction.
#[derive(Debug, Clone, Copy, PartialEq, Eq, Structural)]
pub enum ProgramCounter {
    /// Fall through to the next instruction.
    Next,
    /// Push the return address and continue at the address.
    Call(u16),
    /// Continue at the address.
    Jump(u16),
    /// Skip the next instruction.
    Skip,
    /// Stay on this instruction: it waits for a key press.
    Wait,
    /// The instruction word was not recognised and is passed over.
    Unknown,
}

/// Whether the machine runs or sits in a key-wait instruction.
#[derive(Debug, Clone, Copy, PartialEq, Eq, Structural)]
pub enum RunState {
    Running,
    AwaitingKey,
}

/// The whole machine state as values.
pub struct Machine {
    pub ram: Seq<u8>,
    pub v: Seq<u8>,
    pub i: u16,
    pub pc: u16,
    pub stack: Seq<u16>,
    pub delay_timer: u8,
    pub sound_timer: u8,
    /// Row-major, `width * height` cells.
    pub fb: Seq<bool>,
    /// Set by the instructions that change the framebuffer.
    pub fb_dirty: bool,
    pub state: RunState,
    pub width: u8,
    pub height: u8,
    pub quirks: Quirks,
}

/// A state and the outcome of the instruction that led to it.
pub type Outcome = (Machine, Result<ProgramCounter, MachineError>);

/// `1` for true, `0` for false.
pub open spec fn flag(b: bool) -> u8 {
    if b {
        1
    } else {
        0
    }
}

impl Machine {
    pub open spec fn wf(self) -> bool {
        &&& self.ram.len() == RAM_SIZE
        &&& self.v.len() == REGISTER_COUNT
        &&& self.stack.len() <= STACK_CAPACITY
        &&& self.width > 0
        &&& self.height > 0
        &&& self.fb.len() == self.width * self.height
    }

    pub open spec fn reg(self, x: u8) -> u8 {
        self.v[x as int]
    }

    pub open spec fn with_reg(self, x: u8, val: u8) -> Machine {
        Machine { v: self.v.update(x as int, val), ..self }
    }

    /// Writes the flag register; it is written after the result register, so
    /// that it wins where the two are the same.
    pub open spec fn with_flag(self, b: bool) -> Machine {
        self.with_reg(FLAG, flag(b))
    }

    /// The instruction falls through, having changed `self` into `m`.
    pub open spec fn next(m: Machine) -> Outcome {
        (m, Ok(ProgramCounter::Next))
    }

    pub open spec fn skip_if(self, cond: bool) -> Outcome {
        (self, Ok(if cond { ProgramCounter::Skip } else { ProgramCounter::Next }))
    }

    pub open spec fn fail(self, e: MachineError) -> Outcome {
        (self, Err(e))
    }

    /// The operand of the shift instructions.
    pub open spec fn shift_source(self, x: u8, y: u8) -> u8 {
        if self.quirks.shift_uses_vy {
            self.reg(y)
        } else {
            self.reg(x)
        }
    }

    /// The flag rule of the bitwise instructions.
    pub open spec fn after_logic(self) -> Machine {
        if self.quirks.logic_resets_vf {
            self.with_flag(false)
        } else {
            self
        }
    }

    /// The `n` bytes of memory from `I` on.
    pub open spec fn sprite_rows(self, n: u8) -> Seq<u8> {
        self.ram.subrange(self.i as int, self.i + n)
    }

    /// The memory after `V0..=Vx` were stored from `I` on.
    pub open spec fn stored_regs(self, x: u8) -> Seq<u8> {
        Seq::new(
            self.ram.len(),
            |a: int|
                if self.i <= a <= self.i + x {
                    self.v[a - self.i]
                } else {
                    self.ram[a]
                },
        )
    }

    /// The registers after `V0..=Vx` were loaded from `I` on.
    pub open spec fn loaded_regs(self, x: u8) -> Seq<u8> {
        Seq::new(
            self.v.len(),
            |r: int|
                if r <= x {
                    self.ram[self.i + r]
                } else {
                    self.v[r]
                },
        )
    }

    /// The memory after the decimal digits of `val` were stored from `I` on.
    pub open spec fn stored_bcd(self, val: u8) -> Seq<u8> {
        self.ram.update(self.i as int, val / 100).update(self.i + 1, (val / 10) % 10).update(
            self.i + 2,
            val % 10,
        )
    }
}

/// What one instruction does to the machine, apart from moving the program
/// counter, which its control-flow effect decides. `keys` holds which keys are
/// down, `key` the key press reported since the last step, and `rnd` the
/// random byte drawn for the random instruction. On an error the machine is
/// left as it was.
pub open spec fn apply(
    m: Machine,
    ins: Instruction,
    keys: Seq<bool>,
    key: Option<u8>,
    rnd: u8,
) -> Outcome {
    match ins {
        Instruction::ClearScreen => Machine::next(
            Machine { fb: Seq::new(m.fb.len(), |c: int| false), fb_dirty: true, ..m },
        ),
        Instruction::Return => if m.stack.len() == 0 {
            m.fail(MachineError::StackUnderflow)
        } else {
            (
                Machine { stack: m.stack.drop_last(), ..m },
                Ok(ProgramCounter::Jump(m.stack.last())),
            )
        },
        Instruction::Jump(a) => (m, Ok(ProgramCounter::Jump(a))),
        Instruction::Call(a) => (m, Ok(ProgramCounter::Call(a))),
        Instruction::SkipEqImm(x, nn) => m.skip_if(m.reg(x) == nn),
        Instruction::SkipNeImm(x, nn) => m.skip_if(m.reg(x) != nn),
        Instruction::SkipEqReg(x, y) => m.skip_if(m.reg(x) == m.reg(y)),
        Instruction::LoadImm(x, nn) => Machine::next(m.with_reg(x, nn)),
        Instruction::AddImm(x, nn) => Machine::next(m.with_reg(x, ((m.reg(x) + nn) % 256) as u8)),
        Instruction::LoadReg(x, y) => Machine::next(m.with_reg(x, m.reg(y))),
        Instruction::Or(x, y) => Machine::next(m.with_reg(x, m.reg(x) | m.reg(y)).after_logic()),
        Instruction::And(x, y) => Machine::next(m.with_reg(x, m.reg(x) & m.reg(y)).after_logic()),
        Instruction::Xor(x, y) => Machine::next(m.with_reg(x, m.reg(x) ^ m.reg(y)).after_logic()),
        Instruction::AddReg(x, y) => {
            let sum = m.reg(x) + m.reg(y);
            Machine::next(m.with_reg(x, (sum % 256) as u8).with_flag(sum >= 256))
        },
        Instruction::Sub(x, y) => {
            let (a, b) = (m.reg(x), m.reg(y));
            Machine::next(m.with_reg(x, ((a - b) % 256) as u8).with_flag(a >= b))
        },
        Instruction::SubReverse(x, y) => {
            let (a, b) = (m.reg(x), m.reg(y));
            Machine::next(m.with_reg(x, ((b - a) % 256) as u8).with_flag(b >= a))
        },
        Instruction::ShiftRight(x, y) => {
            let src = m.shift_source(x, y);
            Machine::next(m.with_reg(x, src / 2).with_flag(src % 2 == 1))
        },
        Instruction::ShiftLeft(x, y) => {
            let src = m.shift_source(x, y);
            Machine::next(m.with_reg(x, ((src * 2) % 256) as u8).with_flag(src >= 128))
        },
        Instruction::SkipNeReg(x, y) => m.skip_if(m.reg(x) != m.reg(y)),
        Instruction::LoadIndex(a) => Machine::next(Machine { i: a, ..m }),
        Instruction::JumpOffset(x, a) => {
            let offset = if m.quirks.jump_offset_uses_vx {
                m.reg(x)
            } else {
                m.reg(0)
            };
            (m, Ok(ProgramCounter::Jump((a + offset) as u16)))
        },
        Instruction::Random(x, nn) => Machine::next(m.with_reg(x, rnd & nn)),
        Instruction::Draw(x, y, n) => if m.i + n > RAM_SIZE {
            m.fail(MachineError::OutOfBoundsAccess)
        } else {
            let (px, py, rows) = (m.reg(x), m.reg(y), m.sprite_rows(n));
            Machine::next(
                Machine {
                    fb: drawn(m.fb, m.width, m.height, px, py, rows),
                    fb_dirty: true,
                    ..m
                }.with_flag(collides(m.fb, m.width, m.height, px, py, rows)),
            )
        },
        Instruction::SkipKey(x) => if m.reg(x) >= KEY_COUNT {
            m.fail(MachineError::OutOfBoundsAccess)
        } else {
            m.skip_if(keys[m.reg(x) as int])
        },
        Instruction::SkipNotKey(x) => if m.reg(x) >= KEY_COUNT {
            m.fail(MachineError::OutOfBoundsAccess)
        } else {
            m.skip_if(!keys[m.reg(x) as int])
        },
        Instruction::LoadDelay(x) => Machine::next(m.with_reg(x, m.delay_timer)),
        Instruction::WaitKey(x) => match (m.state, key) {
            (RunState::AwaitingKey, Some(k)) => Machine::next(
                Machine { state: RunState::Running, ..m.with_reg(x, k) },
            ),
            (RunState::AwaitingKey, None) => (m, Ok(ProgramCounter::Wait)),
            (RunState::Running, _) => (
                Machine { state: RunState::AwaitingKey, ..m },
                Ok(ProgramCounter::Wait),
            ),
        },
        Instruction::SetDelay(x) => Machine::next(Machine { delay_timer: m.reg(x), ..m }),
        Instruction::SetSound(x) => Machine::next(Machine { sound_timer: m.reg(x), ..m }),
        Instruction::AddIndex(x) => Machine::next(
            Machine { i: ((m.i + m.reg(x)) % 0x1_0000) as u16, ..m },
        ),
        Instruction::LoadFont(x) => Machine::next(
            Machine { i: (m.reg(x) * GLYPH_BYTES) as u16, ..m },
        ),
        Instruction::StoreBcd(x) => if m.i + 3 > RAM_SIZE {
            m.fail(MachineError::OutOfBoundsAccess)
        } else {
            Machine::next(Machine { ram: m.stored_bcd(m.reg(x)), ..m })
        },
        Instruction::StoreRegs(x) => if m.i + x + 1 > RAM_SIZE {
            m.fail(MachineError::OutOfBoundsAccess)
        } else {
            Machine::next(Machine { ram: m.stored_regs(x), ..m })
        },
        Instruction::LoadRegs(x) => if m.i + x + 1 > RAM_SIZE {
            m.fail(MachineError::OutOfBoundsAccess)
        } else {
            Machine::next(Machine { v: m.loaded_regs(x), ..m })
        },
        Instruction::Unknown(w) => if m.quirks.unknown_is_fatal {
            m.fail(MachineError::UnknownInstruction(w))
        } else {
            (m, Ok(ProgramCounter::Unknown))
        },
    }
}

/// Whether the instruction word at the program counter lies inside memory.
pub open spec fn can_fetch(m: Machine) -> bool {
    m.pc + 1 < RAM_SIZE
}

/// The instruction at the program counter.
pub open spec fn fetched(m: Machine) -> Instruction {
    decode(m.ram[m.pc as int], m.ram[m.pc + 1])
}

/// Fetching, decoding and applying the instruction at the program counter,
/// which stays where it was.
pub open spec fn execute(m: Machine, keys: Seq<bool>, key: Option<u8>, rnd: u8) -> Outcome {
    if !can_fetch(m) {
        m.fail(MachineError::OutOfBoundsAccess)
    } else {
        apply(m, fetched(m), keys, key, rnd)
    }
}

/// The program counter and call stack after an instruction at `pc` had the
/// control-flow effect `eff`.
pub open spec fn advance(m: Machine, pc: u16, eff: ProgramCounter) -> Outcome {
    match eff {
        ProgramCounter::Next | ProgramCounter::Unknown => (
            Machine { pc: (pc + 2) as u16, ..m },
            Ok(eff),
        ),
        ProgramCounter::Skip => (Machine { pc: (pc + 4) as u16, ..m }, Ok(eff)),
        ProgramCounter::Jump(a) => (Machine { pc: a, ..m }, Ok(eff)),
        ProgramCounter::Call(a) => if m.stack.len() >= STACK_CAPACITY {
            m.fail(MachineError::StackOverflow)
        } else {
            (Machine { pc: a, stack: m.stack.push((pc + 2) as u16), ..m }, Ok(eff))
        },
        ProgramCounter::Wait => (m, Ok(eff)),
    }
}

/// One whole step: the framebuffer's dirty flag is cleared, the instruction at
/// the program counter is executed, and the program counter moves by its
/// effect.
pub open spec fn step(m: Machine, keys: Seq<bool>, key: Option<u8>, rnd: u8) -> Outcome {
    let m0 = Machine { fb_dirty: false, ..m };
    let (m1, r) = execute(m0, keys, key, rnd);
    match r {
        Err(e) => (m1, Err(e)),
        Ok(eff) => advance(m1, m.pc, eff),
    }
}

} // verus!
