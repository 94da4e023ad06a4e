//! Properties of the instruction semantics that hold for every machine state.
use vstd::prelude::*;

use crate::framebuffer::{
    collides, lemma_collision_iff_lit_target, lemma_draw_twice, pixel_set, target_cell,
};
use crate::instruction::{decode, Instruction};
use crate::machine::{
    apply, flag, step, Machine, MachineError, ProgramCounter, RunState, FLAG, RAM_SIZE,
    REGISTER_COUNT,
};

verus! {

/// Adding `Vy` to `Vx` leaves `(a + b) mod 256` in `Vx` and sets `VF` to one
/// exactly when `a + b` reaches 256, for every pair of registers and every
/// pair of values `a = Vx`, `b = Vy`. Where `x` is `VF` itself the flag
/// overwrites the sum.
pub proof fn lemma_add_sets_carry(
    m: Machine,
    x: u8,
    y: u8,
    keys: Seq<bool>,
    key: Option<u8>,
    rnd: u8,
)
    requires
        m.wf(),
        x < REGISTER_COUNT,
        y < REGISTER_COUNT,
    ensures
        ({
            let (a, b) = (m.reg(x), m.reg(y));
            let (m2, r) = apply(m, Instruction::AddReg(x, y), keys, key, rnd);
            &&& r == Ok::<ProgramCounter, MachineError>(ProgramCounter::Next)
            &&& m2.reg(FLAG) == 1 <==> a + b >= 256
            &&& m2.reg(FLAG) == 0 <==> a + b < 256
            &&& x != FLAG ==> m2.reg(x) == (a + b) % 256
        }),
{
}

/// Subtracting `Vy` from `Vx` leaves `(a - b) mod 256` in `Vx` and sets `VF`
/// to one exactly when `a >= b` (no borrow), for all values `a = Vx`,
/// `b = Vy`. Where `x` is `VF` itself the flag overwrites the difference.
pub proof fn lemma_sub_sets_no_borrow(
    m: Machine,
    x: u8,
    y: u8,
    keys: Seq<bool>,
    key: Option<u8>,
    rnd: u8,
)
    requires
        m.wf(),
        x < REGISTER_COUNT,
        y < REGISTER_COUNT,
    ensures
        ({
            let (a, b) = (m.reg(x), m.reg(y));
            let (m2, r) = apply(m, Instruction::Sub(x, y), keys, key, rnd);
            &&& r == Ok::<ProgramCounter, MachineError>(ProgramCounter::Next)
            &&& m2.reg(FLAG) == 1 <==> a >= b
            &&& m2.reg(FLAG) == 0 <==> a < b
            &&& x != FLAG ==> m2.reg(x) == (a - b) % 256
        }),
{
}

/// Shifting right leaves `input >> 1` in `Vx` and bit 0 of the input in `VF`,
/// for all 256 inputs; the input is `Vx` or `Vy` as the quirk settings say.
/// Where `x` is `VF` itself the flag overwrites the result.
pub proof fn lemma_shift_right(
    m: Machine,
    x: u8,
    y: u8,
    keys: Seq<bool>,
    key: Option<u8>,
    rnd: u8,
)
    requires
        m.wf(),
        x < REGISTER_COUNT,
        y < REGISTER_COUNT,
    ensures
        ({
            let src = m.shift_source(x, y);
            let (m2, r) = apply(m, Instruction::ShiftRight(x, y), keys, key, rnd);
            &&& r == Ok::<ProgramCounter, MachineError>(ProgramCounter::Next)
            &&& m2.reg(FLAG) == src & 1
            &&& x != FLAG ==> m2.reg(x) == src >> 1
        }),
{
    let src = m.shift_source(x, y);
    assert(src & 1 == flag(src % 2 == 1) && src >> 1 == src / 2) by (bit_vector)
        requires
            flag(src % 2 == 1) == if src % 2 == 1 {
                1u8
            } else {
                0u8
            },
    ;
}

/// Drawing the same sprite at the same place twice gives back the framebuffer
/// that was there before. The place stays the same where neither coordinate
/// register is `VF`, which the first draw overwrites.
pub proof fn lemma_draw_twice_restores(
    m: Machine,
    x: u8,
    y: u8,
    n: u8,
    keys: Seq<bool>,
    key: Option<u8>,
    rnd: u8,
)
    requires
        m.wf(),
        x < REGISTER_COUNT,
        y < REGISTER_COUNT,
        x != FLAG,
        y != FLAG,
        m.i + n <= RAM_SIZE,
    ensures
        ({
            let ins = Instruction::Draw(x, y, n);
            let (m1, r1) = apply(m, ins, keys, key, rnd);
            let (m2, r2) = apply(m1, ins, keys, key, rnd);
            &&& r1 == Ok::<ProgramCounter, MachineError>(ProgramCounter::Next)
            &&& r2 == Ok::<ProgramCounter, MachineError>(ProgramCounter::Next)
            &&& m2.fb == m.fb
        }),
{
    let ins = Instruction::Draw(x, y, n);
    let (m1, r1) = apply(m, ins, keys, key, rnd);
    assert(m1.reg(x) == m.reg(x) && m1.reg(y) == m.reg(y));
    assert(m1.sprite_rows(n) == m.sprite_rows(n));
    lemma_draw_twice(m.fb, m.width, m.height, m.reg(x), m.reg(y), m.sprite_rows(n));
}

/// A draw sets `VF` to one exactly when some set pixel of the sprite met a
/// lit cell just before it toggled it, and to zero otherwise. Where the sprite
/// cannot wrap onto itself (the framebuffer is at least eight cells wide and
/// as tall as the sprite), that is exactly when some set pixel lands on a cell
/// that was lit before the draw.
pub proof fn lemma_draw_collision_flag(
    m: Machine,
    x: u8,
    y: u8,
    n: u8,
    keys: Seq<bool>,
    key: Option<u8>,
    rnd: u8,
)
    requires
        m.wf(),
        x < REGISTER_COUNT,
        y < REGISTER_COUNT,
        m.i + n <= RAM_SIZE,
    ensures
        ({
            let (px, py, rows) = (m.reg(x), m.reg(y), m.sprite_rows(n));
            let (m1, r) = apply(m, Instruction::Draw(x, y, n), keys, key, rnd);
            &&& r == Ok::<ProgramCounter, MachineError>(ProgramCounter::Next)
            &&& m1.reg(FLAG) == 1 <==> collides(m.fb, m.width, m.height, px, py, rows)
            &&& m1.reg(FLAG) == 0 <==> !collides(m.fb, m.width, m.height, px, py, rows)
            &&& (m.width >= 8 && m.height >= n) ==> (m1.reg(FLAG) == 1 <==> exists|k: int|
                0 <= k < 8 * n && #[trigger] pixel_set(rows, k) && m.fb[target_cell(
                    m.width,
                    m.height,
                    px,
                    py,
                    k,
                )])
        }),
{
    let (px, py, rows) = (m.reg(x), m.reg(y), m.sprite_rows(n));
    assert(rows.len() == n);
    if m.width >= 8 && m.height >= n {
        lemma_collision_iff_lit_target(m.fb, m.width, m.height, px, py, rows);
    }
}

/// A jump followed by a return with an empty call stack is an error: the
/// return fails with `StackUnderflow` and is never passed over.
pub proof fn lemma_jump_then_return_underflows(
    m: Machine,
    target: u16,
    keys: Seq<bool>,
    key: Option<u8>,
    rnd: u8,
)
    requires
        m.wf(),
        m.stack.len() == 0,
        m.pc + 1 < RAM_SIZE,
        decode(m.ram[m.pc as int], m.ram[m.pc + 1]) == Instruction::Jump(target),
        target + 1 < RAM_SIZE,
        decode(m.ram[target as int], m.ram[target + 1]) == Instruction::Return,
    ensures
        ({
            let (m1, r1) = step(m, keys, key, rnd);
            let (m2, r2) = step(m1, keys, key, rnd);
            &&& r1 == Ok::<ProgramCounter, MachineError>(ProgramCounter::Jump(target))
            &&& m1.pc == target
            &&& r2 == Err::<ProgramCounter, MachineError>(MachineError::StackUnderflow)
        }),
{
}

/// The key-wait instruction at the program counter of a running machine
/// answers `Wait` and leaves the program counter where it is, whatever key is
/// reported; the machine then awaits a key.
pub proof fn lemma_key_wait_begins(m: Machine, x: u8, keys: Seq<bool>, key: Option<u8>, rnd: u8)
    requires
        m.wf(),
        m.state == RunState::Running,
        m.pc + 1 < RAM_SIZE,
        decode(m.ram[m.pc as int], m.ram[m.pc + 1]) == Instruction::WaitKey(x),
    ensures
        ({
            let (m1, r) = step(m, keys, key, rnd);
            &&& r == Ok::<ProgramCounter, MachineError>(ProgramCounter::Wait)
            &&& m1 == (Machine { state: RunState::AwaitingKey, fb_dirty: false, ..m })
        }),
{
}

/// While the machine awaits a key and none is reported, every step answers
/// `Wait` and changes nothing but the framebuffer's dirty flag.
pub proof fn lemma_key_wait_holds(m: Machine, x: u8, keys: Seq<bool>, rnd: u8)
    requires
        m.wf(),
        m.state == RunState::AwaitingKey,
        m.pc + 1 < RAM_SIZE,
        decode(m.ram[m.pc as int], m.ram[m.pc + 1]) == Instruction::WaitKey(x),
    ensures
        ({
            let (m1, r) = step(m, keys, None, rnd);
            &&& r == Ok::<ProgramCounter, MachineError>(ProgramCounter::Wait)
            &&& m1 == (Machine { fb_dirty: false, ..m })
        }),
{
}

/// Once a key press `k` is reported to a machine that awaits a key, the step
/// answers `Next`: `k` is stored in `Vx`, the machine runs again, and the
/// program counter moves past the instruction.
pub proof fn lemma_key_wait_ends(m: Machine, x: u8, k: u8, keys: Seq<bool>, rnd: u8)
    requires
        m.wf(),
        m.state == RunState::AwaitingKey,
        m.pc + 1 < RAM_SIZE,
        decode(m.ram[m.pc as int], m.ram[m.pc + 1]) == Instruction::WaitKey(x),
    ensures
        ({
            let (m1, r) = step(m, keys, Some(k), rnd);
            &&& r == Ok::<ProgramCounter, MachineError>(ProgramCounter::Next)
            &&& m1 == (Machine {
                state: RunState::Running,
                fb_dirty: false,
                pc: (m.pc + 2) as u16,
                ..m.with_reg(x, k)
            })
        }),
{
}

} // verus!
