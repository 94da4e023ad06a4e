//! The execution engine: memory, registers, stack, timers and framebuffer of
//! one machine, and the fetch-decode-execute step over them.
use vstd::prelude::*;
use vstd::arithmetic::div_mod::lemma_mod_multiples_vanish;

use crate::fonts::{font_data, fonts, GLYPH_BYTES};
use crate::framebuffer::draw_sprite;
use crate::instruction::{parse_instruction, Instruction};
use crate::machine::{
    advance, apply, can_fetch, execute, fetched, step, Machine, MachineError, ProgramCounter, Quirks, RunState, FLAG,
    KEY_COUNT, PROGRAM_START, RAM_SIZE, REGISTER_COUNT, STACK_CAPACITY,
};

verus! {

/// One machine. Memory is always `RAM_SIZE` bytes, there are always sixteen
/// registers, the stack never holds more than `STACK_CAPACITY` addresses, and
/// the framebuffer always has `width * height` cells.
pub struct CPU {
    ram: Vec<u8>,
    vram: Vec<bool>,
    vram_updated: bool,
    i: u16,
    delay_timer: u8,
    sound_timer: u8,
    pc: u16,
    v: Vec<u8>,
    stack: Vec<u16>,
    state: RunState,
    window: (u8, u8),
    quirks: Quirks,
}

impl View for CPU {
    type V = Machine;

    closed spec fn view(&self) -> Machine {
        Machine {
            ram: self.ram@,
            v: self.v@,
            i: self.i,
            pc: self.pc,
            stack: self.stack@,
            delay_timer: self.delay_timer,
            sound_timer: self.sound_timer,
            fb: self.vram@,
            fb_dirty: self.vram_updated,
            state: self.state,
            width: self.window.0,
            height: self.window.1,
            quirks: self.quirks,
        }
    }
}

/// Memory right after loading: the font from address zero, the program from
/// `PROGRAM_START`, zeros elsewhere.
pub open spec fn initial_ram(rom: Seq<u8>) -> Seq<u8> {
    Seq::new(
        RAM_SIZE as nat,
        |a: int|
            if a < font_data().len() {
                font_data()[a]
            } else if PROGRAM_START <= a < PROGRAM_START + rom.len() {
                rom[a - PROGRAM_START]
            } else {
                0u8
            },
    )
}

/// A machine that was just loaded with `rom` and has a `w` by `h` framebuffer.
pub open spec fn initial_machine(rom: Seq<u8>, w: u8, h: u8) -> Machine {
    Machine {
        ram: initial_ram(rom),
        v: Seq::new(REGISTER_COUNT as nat, |r: int| 0u8),
        i: 0,
        pc: PROGRAM_START as u16,
        stack: Seq::empty(),
        delay_timer: 0,
        sound_timer: 0,
        fb: Seq::new((w * h) as nat, |c: int| false),
        fb_dirty: false,
        state: RunState::Running,
        width: w,
        height: h,
        quirks: Quirks::standard(),
    }
}

/// Largest program that fits in memory.
pub open spec fn max_rom_len() -> nat {
    (RAM_SIZE - PROGRAM_START) as nat
}

/// Memory with `src` written from address `at` on.
pub open spec fn overwritten(ram: Seq<u8>, at: int, src: Seq<u8>) -> Seq<u8> {
    Seq::new(
        ram.len(),
        |a: int|
            if at <= a < at + src.len() {
                src[a - at]
            } else {
                ram[a]
            },
    )
}

/// Loading a font and a program into a machine.
pub trait Emulator {
    /// The machine's memory and registers are laid out as loading needs.
    spec fn well_formed(&self) -> bool;

    /// Copies the font to the bottom of memory.
    fn load_fonts(&mut self, fonts: &[u8]) -> (r: Result<(), MachineError>)
        requires
            old(self).well_formed(),
        ensures
            final(self).well_formed(),
    ;

    /// Copies the program to memory from `PROGRAM_START` on and clears the
    /// memory after it.
    fn load_rom(&mut self, rom: &[u8]) -> (r: Result<(), MachineError>)
        requires
            old(self).well_formed(),
        ensures
            final(self).well_formed(),
    ;
}

/// Relies on `rand::random::<u8>`: a byte from the thread-local generator.
/// Nothing is known of its value.
#[verifier::external_body]
fn random_byte() -> u8 {
    rand::random::<u8>()
}

/// Writes `src` into `ram` from `at` on.
fn copy_into(ram: &mut Vec<u8>, at: usize, src: &[u8])
    requires
        at + src.len() <= old(ram).len(),
    ensures
        final(ram)@ == overwritten(old(ram)@, at as int, src@),
{
    let ghost ram0 = ram@;
    let mut k: usize = 0;
    while k < src.len()
        invariant
            at + src.len() <= ram0.len(),
            ram0.len() == old(ram)@.len(),
            old(ram).len() <= usize::MAX,
            k <= src@.len(),
            ram@ == overwritten(ram0, at as int, src@.subrange(0, k as int)),
        decreases src@.len() - k,
    {
        ram.set(at + k, src[k]);
        k = k + 1;
        assert(ram@ =~= overwritten(ram0, at as int, src@.subrange(0, k as int)));
    }
    assert(src@.subrange(0, k as int) =~= src@);
}

/// Sets every byte of `ram` from `from` on to zero.
fn clear_from(ram: &mut Vec<u8>, from: usize)
    ensures
        final(ram)@ == Seq::new(old(ram)@.len(), |a: int| if a < from { old(ram)@[a] } else { 0u8 }),
{
    let ghost ram0 = ram@;
    let mut a: usize = from;
    while a < ram.len()
        invariant
            from <= a,
            ram@.len() == ram0.len(),
            forall|b: int|
                0 <= b < ram0.len() ==> #[trigger] ram@[b] == if from <= b < a {
                    0u8
                } else {
                    ram0[b]
                },
        decreases ram0.len() - a,
    {
        ram.set(a, 0);
        a = a + 1;
    }
    assert(ram@ =~= Seq::new(ram0.len(), |a: int| if a < from { ram0[a] } else { 0u8 }));
}

impl CPU {
    /// A machine with a `w` by `h` framebuffer, the font and `rom` in memory,
    /// every register and timer zero, an empty stack, and the program counter
    /// at `PROGRAM_START`. A program longer than `max_rom_len()` bytes does
    /// not fit.
    pub fn init(rom: &[u8], window: (u8, u8)) -> (r: Result<CPU, MachineError>)
        requires
            window.0 > 0,
            window.1 > 0,
        ensures
            r is Ok <==> rom@.len() <= max_rom_len(),
            r matches Ok(cpu) ==> cpu@ == initial_machine(rom@, window.0, window.1) && cpu@.wf(),
            r matches Err(e) ==> e == MachineError::ResourceLoad,
    {
        let (w, h) = window;
        assert((w as usize) * (h as usize) <= 255 * 255) by (nonlinear_arith)
            requires
                w <= 255,
                h <= 255,
        ;
        let cells = (w as usize) * (h as usize);
        let mut cpu = CPU {
            ram: vec![0u8; RAM_SIZE],
            vram: vec![false; cells],
            vram_updated: false,
            i: 0,
            delay_timer: 0,
            sound_timer: 0,
            pc: PROGRAM_START as u16,
            v: vec![0u8; REGISTER_COUNT],
            stack: Vec::new(),
            state: RunState::Running,
            window,
            quirks: Quirks::default(),
        };
        let font = fonts();
        let loaded = cpu.load_fonts(font.as_slice());
        assert(loaded is Ok);
        match cpu.load_rom(rom) {
            Ok(()) => {
                assert(cpu@.ram =~= initial_ram(rom@));
                assert(cpu@.v =~= Seq::new(REGISTER_COUNT as nat, |r: int| 0u8));
                assert(cpu@.fb =~= Seq::new((w * h) as nat, |c: int| false));
                Ok(cpu)
            },
            Err(e) => Err(e),
        }
    }

    /// Replaces the quirk settings.
    pub fn set_quirks(&mut self, quirks: Quirks)
        requires
            old(self)@.wf(),
        ensures
            final(self)@.wf(),
            final(self)@ == (Machine { quirks, ..old(self)@ }),
    {
        self.quirks = quirks;
    }
}

impl Emulator for CPU {
    open spec fn well_formed(&self) -> bool {
        self@.wf()
    }

    /// Fails with `ResourceLoad`, changing nothing, where the font would reach
    /// `PROGRAM_START`.
    fn load_fonts(&mut self, fonts: &[u8]) -> (r: Result<(), MachineError>)
        ensures
            r is Ok <==> fonts@.len() <= PROGRAM_START,
            r is Ok ==> final(self)@ == (Machine {
                ram: overwritten(old(self)@.ram, 0, fonts@),
                ..old(self)@
            }),
            r matches Err(e) ==> e == MachineError::ResourceLoad && final(self)@ == old(self)@,
    {
        if fonts.len() > PROGRAM_START {
            return Err(MachineError::ResourceLoad);
        }
        copy_into(&mut self.ram, 0, fonts);
        Ok(())
    }

    /// Fails with `ResourceLoad`, changing nothing, where the program is longer
    /// than `max_rom_len()` bytes.
    fn load_rom(&mut self, rom: &[u8]) -> (r: Result<(), MachineError>)
        ensures
            r is Ok <==> rom@.len() <= max_rom_len(),
            r is Ok ==> final(self)@ == (Machine {
                ram: Seq::new(
                    RAM_SIZE as nat,
                    |a: int|
                        if a < PROGRAM_START {
                            old(self)@.ram[a]
                        } else if a < PROGRAM_START + rom@.len() {
                            rom@[a - PROGRAM_START]
                        } else {
                            0u8
                        },
                ),
                ..old(self)@
            }),
            r matches Err(e) ==> e == MachineError::ResourceLoad && final(self)@ == old(self)@,
    {
        if rom.len() > RAM_SIZE - PROGRAM_START {
            return Err(MachineError::ResourceLoad);
        }
        let ghost ram0 = self.ram@;
        clear_from(&mut self.ram, PROGRAM_START + rom.len());
        copy_into(&mut self.ram, PROGRAM_START, rom);
        assert(self.ram@ =~= Seq::new(
            RAM_SIZE as nat,
            |a: int|
                if a < PROGRAM_START {
                    ram0[a]
                } else if a < PROGRAM_START + rom@.len() {
                    rom@[a - PROGRAM_START]
                } else {
                    0u8
                },
        ));
        Ok(())
    }
}


impl CPU {
    fn set_reg(&mut self, x: u8, val: u8)
        requires
            old(self)@.wf(),
            x < REGISTER_COUNT,
        ensures
            final(self)@ == old(self)@.with_reg(x, val),
            final(self)@.wf(),
    {
        self.v.set(x as usize, val);
    }

    fn set_flag(&mut self, b: bool)
        requires
            old(self)@.wf(),
        ensures
            final(self)@ == old(self)@.with_flag(b),
            final(self)@.wf(),
    {
        self.set_reg(FLAG, if b { 1 } else { 0 });
    }

    fn op_cls(&mut self) -> (r: ProgramCounter)
        requires
            old(self)@.wf(),
        ensures
            final(self)@ == (Machine {
                fb: Seq::new(old(self)@.fb.len(), |c: int| false),
                fb_dirty: true,
                ..old(self)@
            }),
            r == ProgramCounter::Next,
    {
        self.vram = vec![false; self.vram.len()];
        assert(self.vram@ =~= Seq::new(old(self)@.fb.len(), |c: int| false));
        self.vram_updated = true;
        ProgramCounter::Next
    }

    fn op_ret(&mut self) -> (r: Result<ProgramCounter, MachineError>)
        requires
            old(self)@.wf(),
        ensures
            old(self)@.stack.len() == 0 ==> r == Err::<ProgramCounter, MachineError>(
                MachineError::StackUnderflow,
            ) && final(self)@ == old(self)@,
            old(self)@.stack.len() > 0 ==> r == Ok::<ProgramCounter, MachineError>(
                ProgramCounter::Jump(old(self)@.stack.last()),
            ) && final(self)@ == (Machine { stack: old(self)@.stack.drop_last(), ..old(self)@ }),
    {
        match self.stack.pop() {
            Some(addr) => Ok(ProgramCounter::Jump(addr)),
            None => Err(MachineError::StackUnderflow),
        }
    }

    fn op_call_addr(&self, nnn: u16) -> (r: ProgramCounter)
        ensures
            r == ProgramCounter::Call(nnn),
    {
        ProgramCounter::Call(nnn)
    }

    fn op_jp_addr(&self, nnn: u16) -> (r: ProgramCounter)
        ensures
            r == ProgramCounter::Jump(nnn),
    {
        ProgramCounter::Jump(nnn)
    }

    fn op_3xkk(&self, x: u8, nn: u8) -> (r: ProgramCounter)
        requires
            self@.wf(),
            x < REGISTER_COUNT,
        ensures
            (self@, Ok::<ProgramCounter, MachineError>(r)) == self@.skip_if(self@.reg(x) == nn),
    {
        if self.v[x as usize] == nn {
            ProgramCounter::Skip
        } else {
            ProgramCounter::Next
        }
    }

    fn op_4xkk(&self, x: u8, nn: u8) -> (r: ProgramCounter)
        requires
            self@.wf(),
            x < REGISTER_COUNT,
        ensures
            (self@, Ok::<ProgramCounter, MachineError>(r)) == self@.skip_if(self@.reg(x) != nn),
    {
        if self.v[x as usize] != nn {
            ProgramCounter::Skip
        } else {
            ProgramCounter::Next
        }
    }

    fn op_5xy0(&self, x: u8, y: u8) -> (r: ProgramCounter)
        requires
            self@.wf(),
            x < REGISTER_COUNT,
            y < REGISTER_COUNT,
        ensures
            (self@, Ok::<ProgramCounter, MachineError>(r)) == self@.skip_if(
                self@.reg(x) == self@.reg(y),
            ),
    {
        if self.v[x as usize] == self.v[y as usize] {
            ProgramCounter::Skip
        } else {
            ProgramCounter::Next
        }
    }

    fn op_6xkk(&mut self, x: u8, nn: u8) -> (r: ProgramCounter)
        requires
            old(self)@.wf(),
            x < REGISTER_COUNT,
        ensures
            final(self)@ == old(self)@.with_reg(x, nn),
            r == ProgramCounter::Next,
    {
        self.set_reg(x, nn);
        ProgramCounter::Next
    }

    fn op_7xkk(&mut self, x: u8, nn: u8) -> (r: ProgramCounter)
        requires
            old(self)@.wf(),
            x < REGISTER_COUNT,
        ensures
            final(self)@ == old(self)@.with_reg(x, ((old(self)@.reg(x) + nn) % 256) as u8),
            r == ProgramCounter::Next,
    {
        let sum = self.v[x as usize] as u16 + nn as u16;
        self.set_reg(x, (sum % 256) as u8);
        ProgramCounter::Next
    }

    fn op_8xy0(&mut self, x: u8, y: u8) -> (r: ProgramCounter)
        requires
            old(self)@.wf(),
            x < REGISTER_COUNT,
            y < REGISTER_COUNT,
        ensures
            final(self)@ == old(self)@.with_reg(x, old(self)@.reg(y)),
            r == ProgramCounter::Next,
    {
        let val = self.v[y as usize];
        self.set_reg(x, val);
        ProgramCounter::Next
    }

    /// The flag rule of the bitwise instructions.
    fn logic_flag(&mut self)
        requires
            old(self)@.wf(),
        ensures
            final(self)@ == old(self)@.after_logic(),
            final(self)@.wf(),
    {
        if self.quirks.logic_resets_vf {
            self.set_flag(false);
        }
    }

    fn op_8xy1(&mut self, x: u8, y: u8) -> (r: ProgramCounter)
        requires
            old(self)@.wf(),
            x < REGISTER_COUNT,
            y < REGISTER_COUNT,
        ensures
            final(self)@ == old(self)@.with_reg(
                x,
                old(self)@.reg(x) | old(self)@.reg(y),
            ).after_logic(),
            r == ProgramCounter::Next,
    {
        let val = self.v[x as usize] | self.v[y as usize];
        self.set_reg(x, val);
        self.logic_flag();
        ProgramCounter::Next
    }

    fn op_8xy2(&mut self, x: u8, y: u8) -> (r: ProgramCounter)
        requires
            old(self)@.wf(),
            x < REGISTER_COUNT,
            y < REGISTER_COUNT,
        ensures
            final(self)@ == old(self)@.with_reg(
                x,
                old(self)@.reg(x) & old(self)@.reg(y),
            ).after_logic(),
            r == ProgramCounter::Next,
    {
        let val = self.v[x as usize] & self.v[y as usize];
        self.set_reg(x, val);
        self.logic_flag();
        ProgramCounter::Next
    }

    fn op_8xy3(&mut self, x: u8, y: u8) -> (r: ProgramCounter)
        requires
            old(self)@.wf(),
            x < REGISTER_COUNT,
            y < REGISTER_COUNT,
        ensures
            final(self)@ == old(self)@.with_reg(
                x,
                old(self)@.reg(x) ^ old(self)@.reg(y),
            ).after_logic(),
            r == ProgramCounter::Next,
    {
        let val = self.v[x as usize] ^ self.v[y as usize];
        self.set_reg(x, val);
        self.logic_flag();
        ProgramCounter::Next
    }

    fn op_8xy4(&mut self, x: u8, y: u8) -> (r: ProgramCounter)
        requires
            old(self)@.wf(),
            x < REGISTER_COUNT,
            y < REGISTER_COUNT,
        ensures
            ({
                let sum = old(self)@.reg(x) + old(self)@.reg(y);
                final(self)@ == old(self)@.with_reg(x, (sum % 256) as u8).with_flag(sum >= 256)
            }),
            r == ProgramCounter::Next,
    {
        let sum = self.v[x as usize] as u16 + self.v[y as usize] as u16;
        self.set_reg(x, (sum % 256) as u8);
        self.set_flag(sum >= 256);
        ProgramCounter::Next
    }

    /// `a - b` modulo 256.
    fn wrapped_difference(a: u8, b: u8) -> (r: u8)
        ensures
            r == ((a - b) % 256) as u8,
    {
        proof {
            lemma_mod_multiples_vanish(1, a - b, 256);
        }
        ((a as u16 + 256 - b as u16) % 256) as u8
    }

    fn op_8xy5(&mut self, x: u8, y: u8) -> (r: ProgramCounter)
        requires
            old(self)@.wf(),
            x < REGISTER_COUNT,
            y < REGISTER_COUNT,
        ensures
            ({
                let (a, b) = (old(self)@.reg(x), old(self)@.reg(y));
                final(self)@ == old(self)@.with_reg(x, ((a - b) % 256) as u8).with_flag(a >= b)
            }),
            r == ProgramCounter::Next,
    {
        let (a, b) = (self.v[x as usize], self.v[y as usize]);
        self.set_reg(x, Self::wrapped_difference(a, b));
        self.set_flag(a >= b);
        ProgramCounter::Next
    }

    fn op_8xy7(&mut self, x: u8, y: u8) -> (r: ProgramCounter)
        requires
            old(self)@.wf(),
            x < REGISTER_COUNT,
            y < REGISTER_COUNT,
        ensures
            ({
                let (a, b) = (old(self)@.reg(x), old(self)@.reg(y));
                final(self)@ == old(self)@.with_reg(x, ((b - a) % 256) as u8).with_flag(b >= a)
            }),
            r == ProgramCounter::Next,
    {
        let (a, b) = (self.v[x as usize], self.v[y as usize]);
        self.set_reg(x, Self::wrapped_difference(b, a));
        self.set_flag(b >= a);
        ProgramCounter::Next
    }

    fn shift_source(&self, x: u8, y: u8) -> (r: u8)
        requires
            self@.wf(),
            x < REGISTER_COUNT,
            y < REGISTER_COUNT,
        ensures
            r == self@.shift_source(x, y),
    {
        if self.quirks.shift_uses_vy {
            self.v[y as usize]
        } else {
            self.v[x as usize]
        }
    }

    fn op_8xy6(&mut self, x: u8, y: u8) -> (r: ProgramCounter)
        requires
            old(self)@.wf(),
            x < REGISTER_COUNT,
            y < REGISTER_COUNT,
        ensures
            ({
                let src = old(self)@.shift_source(x, y);
                final(self)@ == old(self)@.with_reg(x, src / 2).with_flag(src % 2 == 1)
            }),
            r == ProgramCounter::Next,
    {
        let src = self.shift_source(x, y);
        let out = src & 1 == 1;
        assert(src >> 1 == src / 2 && (src & 1 == 1) == (src % 2 == 1)) by (bit_vector);
        self.set_reg(x, src >> 1);
        self.set_flag(out);
        ProgramCounter::Next
    }

    fn op_8xye(&mut self, x: u8, y: u8) -> (r: ProgramCounter)
        requires
            old(self)@.wf(),
            x < REGISTER_COUNT,
            y < REGISTER_COUNT,
        ensures
            ({
                let src = old(self)@.shift_source(x, y);
                final(self)@ == old(self)@.with_reg(x, ((src * 2) % 256) as u8).with_flag(
                    src >= 128,
                )
            }),
            r == ProgramCounter::Next,
    {
        let src = self.shift_source(x, y);
        let out = (src >> 7) & 1 == 1;
        let shifted: u8 = src << 1;
        assert(shifted == ((src * 2) % 256) as u8 && out == (src >= 128)) by (bit_vector)
            requires
                shifted == src << 1,
                out == ((src >> 7) & 1 == 1),
        ;
        self.set_reg(x, shifted);
        self.set_flag(out);
        ProgramCounter::Next
    }

    fn op_9xy0(&self, x: u8, y: u8) -> (r: ProgramCounter)
        requires
            self@.wf(),
            x < REGISTER_COUNT,
            y < REGISTER_COUNT,
        ensures
            (self@, Ok::<ProgramCounter, MachineError>(r)) == self@.skip_if(
                self@.reg(x) != self@.reg(y),
            ),
    {
        if self.v[x as usize] != self.v[y as usize] {
            ProgramCounter::Skip
        } else {
            ProgramCounter::Next
        }
    }

    fn op_annn(&mut self, nnn: u16) -> (r: ProgramCounter)
        requires
            old(self)@.wf(),
        ensures
            final(self)@ == (Machine { i: nnn, ..old(self)@ }),
            r == ProgramCounter::Next,
    {
        self.i = nnn;
        ProgramCounter::Next
    }

    fn op_bnnn(&self, x: u8, nnn: u16) -> (r: ProgramCounter)
        requires
            self@.wf(),
            x < REGISTER_COUNT,
            nnn < 0x1000,
        ensures
            r == ProgramCounter::Jump(
                (nnn + if self@.quirks.jump_offset_uses_vx {
                    self@.reg(x)
                } else {
                    self@.reg(0)
                }) as u16,
            ),
    {
        let offset = if self.quirks.jump_offset_uses_vx {
            self.v[x as usize]
        } else {
            self.v[0]
        };
        ProgramCounter::Jump(nnn + offset as u16)
    }

    fn op_cxkk(&mut self, x: u8, nn: u8, rnd: u8) -> (r: ProgramCounter)
        requires
            old(self)@.wf(),
            x < REGISTER_COUNT,
        ensures
            final(self)@ == old(self)@.with_reg(x, rnd & nn),
            r == ProgramCounter::Next,
    {
        self.set_reg(x, rnd & nn);
        ProgramCounter::Next
    }

    /// `apply` reads neither the keypad nor the random byte for this
    /// instruction, so any stand in for them in the contract.
    fn op_dxyn(&mut self, x: u8, y: u8, n: u8) -> (r: Result<ProgramCounter, MachineError>)
        requires
            old(self)@.wf(),
            x < REGISTER_COUNT,
            y < REGISTER_COUNT,
        ensures
            (final(self)@, r) == apply(
                old(self)@,
                Instruction::Draw(x, y, n),
                Seq::empty(),
                None,
                0,
            ),
            final(self)@.wf(),
    {
        if self.i as usize + n as usize > RAM_SIZE {
            return Err(MachineError::OutOfBoundsAccess);
        }
        let (px, py) = (self.v[x as usize], self.v[y as usize]);
        let (w, h) = self.window;
        let collided = draw_sprite(&mut self.vram, w, h, px, py, &self.ram, self.i as usize, n);
        self.vram_updated = true;
        self.set_flag(collided);
        Ok(ProgramCounter::Next)
    }

    /// `apply` reads neither the key press nor the random byte for this
    /// instruction, only the keypad.
    fn op_ex9e(&self, x: u8, keypad: &[bool; 16]) -> (r: Result<ProgramCounter, MachineError>)
        requires
            self@.wf(),
            x < REGISTER_COUNT,
        ensures
            (self@, r) == apply(self@, Instruction::SkipKey(x), keypad@, None, 0),
    {
        let k = self.v[x as usize];
        if k as usize >= KEY_COUNT {
            Err(MachineError::OutOfBoundsAccess)
        } else if keypad[k as usize] {
            Ok(ProgramCounter::Skip)
        } else {
            Ok(ProgramCounter::Next)
        }
    }

    /// `apply` reads neither the key press nor the random byte for this
    /// instruction, only the keypad.
    fn op_exa1(&self, x: u8, keypad: &[bool; 16]) -> (r: Result<ProgramCounter, MachineError>)
        requires
            self@.wf(),
            x < REGISTER_COUNT,
        ensures
            (self@, r) == apply(self@, Instruction::SkipNotKey(x), keypad@, None, 0),
    {
        let k = self.v[x as usize];
        if k as usize >= KEY_COUNT {
            Err(MachineError::OutOfBoundsAccess)
        } else if keypad[k as usize] {
            Ok(ProgramCounter::Next)
        } else {
            Ok(ProgramCounter::Skip)
        }
    }

    fn op_fx07(&mut self, x: u8) -> (r: ProgramCounter)
        requires
            old(self)@.wf(),
            x < REGISTER_COUNT,
        ensures
            final(self)@ == old(self)@.with_reg(x, old(self)@.delay_timer),
            r == ProgramCounter::Next,
    {
        let val = self.delay_timer;
        self.set_reg(x, val);
        ProgramCounter::Next
    }

    /// `apply` reads neither the keypad nor the random byte for this
    /// instruction, only the reported key press.
    fn op_fx0a(&mut self, x: u8, key: Option<u8>) -> (r: ProgramCounter)
        requires
            old(self)@.wf(),
            x < REGISTER_COUNT,
        ensures
            (final(self)@, Ok::<ProgramCounter, MachineError>(r)) == apply(
                old(self)@,
                Instruction::WaitKey(x),
                Seq::empty(),
                key,
                0,
            ),
            final(self)@.wf(),
    {
        match (self.state, key) {
            (RunState::AwaitingKey, Some(k)) => {
                self.set_reg(x, k);
                self.state = RunState::Running;
                ProgramCounter::Next
            },
            (RunState::AwaitingKey, None) => ProgramCounter::Wait,
            (RunState::Running, _) => {
                self.state = RunState::AwaitingKey;
                ProgramCounter::Wait
            },
        }
    }

    fn op_fx15(&mut self, x: u8) -> (r: ProgramCounter)
        requires
            old(self)@.wf(),
            x < REGISTER_COUNT,
        ensures
            final(self)@ == (Machine { delay_timer: old(self)@.reg(x), ..old(self)@ }),
            r == ProgramCounter::Next,
    {
        self.delay_timer = self.v[x as usize];
        ProgramCounter::Next
    }

    fn op_fx18(&mut self, x: u8) -> (r: ProgramCounter)
        requires
            old(self)@.wf(),
            x < REGISTER_COUNT,
        ensures
            final(self)@ == (Machine { sound_timer: old(self)@.reg(x), ..old(self)@ }),
            r == ProgramCounter::Next,
    {
        self.sound_timer = self.v[x as usize];
        ProgramCounter::Next
    }

    fn op_fx1e(&mut self, x: u8) -> (r: ProgramCounter)
        requires
            old(self)@.wf(),
            x < REGISTER_COUNT,
        ensures
            final(self)@ == (Machine {
                i: ((old(self)@.i + old(self)@.reg(x)) % 0x1_0000) as u16,
                ..old(self)@
            }),
            r == ProgramCounter::Next,
    {
        self.i = ((self.i as u32 + self.v[x as usize] as u32) % 0x1_0000) as u16;
        ProgramCounter::Next
    }

    fn op_fx29(&mut self, x: u8) -> (r: ProgramCounter)
        requires
            old(self)@.wf(),
            x < REGISTER_COUNT,
        ensures
            final(self)@ == (Machine { i: (old(self)@.reg(x) * GLYPH_BYTES) as u16, ..old(self)@ }),
            r == ProgramCounter::Next,
    {
        self.i = self.v[x as usize] as u16 * GLYPH_BYTES;
        ProgramCounter::Next
    }

    /// `apply` reads neither the keypad nor the random byte for this
    /// instruction, so any stand in for them in the contract.
    fn op_fx33(&mut self, x: u8) -> (r: Result<ProgramCounter, MachineError>)
        requires
            old(self)@.wf(),
            x < REGISTER_COUNT,
        ensures
            (final(self)@, r) == apply(
                old(self)@,
                Instruction::StoreBcd(x),
                Seq::empty(),
                None,
                0,
            ),
            final(self)@.wf(),
    {
        let i = self.i as usize;
        if i + 3 > RAM_SIZE {
            return Err(MachineError::OutOfBoundsAccess);
        }
        let val = self.v[x as usize];
        self.ram.set(i, val / 100);
        self.ram.set(i + 1, (val / 10) % 10);
        self.ram.set(i + 2, val % 10);
        Ok(ProgramCounter::Next)
    }

    /// `apply` reads neither the keypad nor the random byte for this
    /// instruction, so any stand in for them in the contract.
    fn op_fx55(&mut self, x: u8) -> (r: Result<ProgramCounter, MachineError>)
        requires
            old(self)@.wf(),
            x < REGISTER_COUNT,
        ensures
            (final(self)@, r) == apply(
                old(self)@,
                Instruction::StoreRegs(x),
                Seq::empty(),
                None,
                0,
            ),
            final(self)@.wf(),
    {
        let i = self.i as usize;
        if i + x as usize + 1 > RAM_SIZE {
            return Err(MachineError::OutOfBoundsAccess);
        }
        let ghost m0 = self@;
        let mut pos: usize = 0;
        assert(m0.ram =~= Seq::new(
            m0.ram.len(),
            |a: int|
                if i <= a < i + pos {
                    m0.v[a - i]
                } else {
                    m0.ram[a]
                },
        ));
        while pos <= x as usize
            invariant
                m0.wf(),
                x < REGISTER_COUNT,
                i == m0.i,
                i + x + 1 <= RAM_SIZE,
                pos <= x + 1,
                self@ == (Machine {
                    ram: Seq::new(
                        m0.ram.len(),
                        |a: int|
                            if i <= a < i + pos {
                                m0.v[a - i]
                            } else {
                                m0.ram[a]
                            },
                    ),
                    ..m0
                }),
            decreases x + 1 - pos,
        {
            let val = self.v[pos];
            self.ram.set(i + pos, val);
            pos = pos + 1;
            assert(self.ram@ =~= Seq::new(
                m0.ram.len(),
                |a: int|
                    if i <= a < i + pos {
                        m0.v[a - i]
                    } else {
                        m0.ram[a]
                    },
            ));
        }
        assert(self.ram@ =~= m0.stored_regs(x));
        Ok(ProgramCounter::Next)
    }

    /// `apply` reads neither the keypad nor the random byte for this
    /// instruction, so any stand in for them in the contract.
    fn op_fx65(&mut self, x: u8) -> (r: Result<ProgramCounter, MachineError>)
        requires
            old(self)@.wf(),
            x < REGISTER_COUNT,
        ensures
            (final(self)@, r) == apply(
                old(self)@,
                Instruction::LoadRegs(x),
                Seq::empty(),
                None,
                0,
            ),
            final(self)@.wf(),
    {
        let i = self.i as usize;
        if i + x as usize + 1 > RAM_SIZE {
            return Err(MachineError::OutOfBoundsAccess);
        }
        let ghost m0 = self@;
        let mut pos: usize = 0;
        assert(m0.v =~= Seq::new(
            m0.v.len(),
            |r: int|
                if r < pos {
                    m0.ram[i + r]
                } else {
                    m0.v[r]
                },
        ));
        while pos <= x as usize
            invariant
                m0.wf(),
                x < REGISTER_COUNT,
                i == m0.i,
                i + x + 1 <= RAM_SIZE,
                pos <= x + 1,
                self@ == (Machine {
                    v: Seq::new(
                        m0.v.len(),
                        |r: int|
                            if r < pos {
                                m0.ram[i + r]
                            } else {
                                m0.v[r]
                            },
                    ),
                    ..m0
                }),
            decreases x + 1 - pos,
        {
            let val = self.ram[i + pos];
            self.v.set(pos, val);
            pos = pos + 1;
            assert(self.v@ =~= Seq::new(
                m0.v.len(),
                |r: int|
                    if r < pos {
                        m0.ram[i + r]
                    } else {
                        m0.v[r]
                    },
            ));
        }
        assert(self.v@ =~= m0.loaded_regs(x));
        Ok(ProgramCounter::Next)
    }
}


impl CPU {
    /// Applies one decoded instruction, leaving the program counter where it
    /// is; `rnd` is the byte that the random instruction uses.
    pub fn execute_instruction(
        &mut self,
        ins: Instruction,
        keypad: &[bool; 16],
        key: Option<u8>,
        rnd: u8,
    ) -> (r: Result<ProgramCounter, MachineError>)
        requires
            old(self)@.wf(),
            ins.wf(),
        ensures
            (final(self)@, r) == apply(old(self)@, ins, keypad@, key, rnd),
            final(self)@.wf(),
    {
        match ins {
            Instruction::ClearScreen => Ok(self.op_cls()),
            Instruction::Return => self.op_ret(),
            Instruction::Jump(a) => Ok(self.op_jp_addr(a)),
            Instruction::Call(a) => Ok(self.op_call_addr(a)),
            Instruction::SkipEqImm(x, nn) => Ok(self.op_3xkk(x, nn)),
            Instruction::SkipNeImm(x, nn) => Ok(self.op_4xkk(x, nn)),
            Instruction::SkipEqReg(x, y) => Ok(self.op_5xy0(x, y)),
            Instruction::LoadImm(x, nn) => Ok(self.op_6xkk(x, nn)),
            Instruction::AddImm(x, nn) => Ok(self.op_7xkk(x, nn)),
            Instruction::LoadReg(x, y) => Ok(self.op_8xy0(x, y)),
            Instruction::Or(x, y) => Ok(self.op_8xy1(x, y)),
            Instruction::And(x, y) => Ok(self.op_8xy2(x, y)),
            Instruction::Xor(x, y) => Ok(self.op_8xy3(x, y)),
            Instruction::AddReg(x, y) => Ok(self.op_8xy4(x, y)),
            Instruction::Sub(x, y) => Ok(self.op_8xy5(x, y)),
            Instruction::ShiftRight(x, y) => Ok(self.op_8xy6(x, y)),
            Instruction::SubReverse(x, y) => Ok(self.op_8xy7(x, y)),
            Instruction::ShiftLeft(x, y) => Ok(self.op_8xye(x, y)),
            Instruction::SkipNeReg(x, y) => Ok(self.op_9xy0(x, y)),
            Instruction::LoadIndex(a) => Ok(self.op_annn(a)),
            Instruction::JumpOffset(x, a) => Ok(self.op_bnnn(x, a)),
            Instruction::Random(x, nn) => Ok(self.op_cxkk(x, nn, rnd)),
            Instruction::Draw(x, y, n) => self.op_dxyn(x, y, n),
            Instruction::SkipKey(x) => self.op_ex9e(x, keypad),
            Instruction::SkipNotKey(x) => self.op_exa1(x, keypad),
            Instruction::LoadDelay(x) => Ok(self.op_fx07(x)),
            Instruction::WaitKey(x) => Ok(self.op_fx0a(x, key)),
            Instruction::SetDelay(x) => Ok(self.op_fx15(x)),
            Instruction::SetSound(x) => Ok(self.op_fx18(x)),
            Instruction::AddIndex(x) => Ok(self.op_fx1e(x)),
            Instruction::LoadFont(x) => Ok(self.op_fx29(x)),
            Instruction::StoreBcd(x) => self.op_fx33(x),
            Instruction::StoreRegs(x) => self.op_fx55(x),
            Instruction::LoadRegs(x) => self.op_fx65(x),
            Instruction::Unknown(w) => if self.quirks.unknown_is_fatal {
                Err(MachineError::UnknownInstruction(w))
            } else {
                Ok(ProgramCounter::Unknown)
            },
        }
    }

    /// Reads and decodes the instruction word at the program counter.
    fn fetch(&self) -> (r: Result<Instruction, MachineError>)
        requires
            self@.wf(),
        ensures
            r is Ok <==> can_fetch(self@),
            r matches Ok(ins) ==> ins == fetched(self@) && ins.wf(),
            r matches Err(e) ==> e == MachineError::OutOfBoundsAccess,
    {
        let pc = self.pc as usize;
        if pc + 1 >= RAM_SIZE {
            return Err(MachineError::OutOfBoundsAccess);
        }
        Ok(parse_instruction(self.ram[pc], self.ram[pc + 1]))
    }

    /// Fetches, decodes and applies the instruction at the program counter,
    /// with `rnd` as the random instruction's byte. The program counter stays.
    pub fn execute_with(&mut self, keypad: &[bool; 16], key: Option<u8>, rnd: u8) -> (r: Result<
        ProgramCounter,
        MachineError,
    >)
        requires
            old(self)@.wf(),
        ensures
            (final(self)@, r) == execute(old(self)@, keypad@, key, rnd),
            final(self)@.wf(),
    {
        match self.fetch() {
            Ok(ins) => self.execute_instruction(ins, keypad, key, rnd),
            Err(e) => Err(e),
        }
    }

    /// Fetches, decodes and applies the instruction at the program counter;
    /// the random instruction draws its byte from the thread's generator.
    /// The program counter stays.
    pub fn execute_op(&mut self, keypad: &[bool; 16], key: Option<u8>) -> (r: Result<
        ProgramCounter,
        MachineError,
    >)
        requires
            old(self)@.wf(),
        ensures
            exists|rnd: u8| #[trigger] execute(old(self)@, keypad@, key, rnd) == (final(self)@, r),
            final(self)@.wf(),
    {
        match self.fetch() {
            Ok(ins) => {
                let rnd = match ins {
                    Instruction::Random(_, _) => random_byte(),
                    _ => 0,
                };
                let r = self.execute_instruction(ins, keypad, key, rnd);
                assert(execute(old(self)@, keypad@, key, rnd) == (self@, r));
                r
            },
            Err(e) => {
                assert(execute(old(self)@, keypad@, key, 0) == (self@, Err::<ProgramCounter, MachineError>(e)));
                Err(e)
            },
        }
    }

    /// Moves the program counter to the next instruction, wrapping at sixteen
    /// bits.
    pub fn increment_op(&mut self)
        requires
            old(self)@.wf(),
        ensures
            final(self)@ == (Machine { pc: ((old(self)@.pc + 2) % 0x1_0000) as u16, ..old(self)@ }),
    {
        self.pc = ((self.pc as u32 + 2) % 0x1_0000) as u16;
    }

    /// Continues at `op`.
    pub fn jump_to_op(&mut self, op: u16)
        requires
            old(self)@.wf(),
        ensures
            final(self)@ == (Machine { pc: op, ..old(self)@ }),
    {
        self.pc = op;
    }

    /// Skips the next instruction, wrapping at sixteen bits.
    pub fn skip_op(&mut self)
        requires
            old(self)@.wf(),
        ensures
            final(self)@ == (Machine { pc: ((old(self)@.pc + 4) % 0x1_0000) as u16, ..old(self)@ }),
    {
        self.increment_op();
        self.increment_op();
    }

    /// Pushes the address of the next instruction and continues at `op`; fails
    /// with `StackOverflow`, changing nothing, where the stack is full.
    pub fn call_op(&mut self, op: u16) -> (r: Result<(), MachineError>)
        requires
            old(self)@.wf(),
        ensures
            r is Ok <==> old(self)@.stack.len() < STACK_CAPACITY,
            r is Ok ==> final(self)@ == (Machine {
                pc: op,
                stack: old(self)@.stack.push(((old(self)@.pc + 2) % 0x1_0000) as u16),
                ..old(self)@
            }),
            r matches Err(e) ==> e == MachineError::StackOverflow && final(self)@ == old(self)@,
            final(self)@.wf(),
    {
        if self.stack.len() >= STACK_CAPACITY {
            return Err(MachineError::StackOverflow);
        }
        self.increment_op();
        self.stack.push(self.pc);
        self.pc = op;
        Ok(())
    }

    /// Moves the program counter by the effect `eff` of the instruction at
    /// `pc`.
    fn move_pc(&mut self, pc: u16, eff: ProgramCounter) -> (r: Result<ProgramCounter, MachineError>)
        requires
            old(self)@.wf(),
            old(self)@.pc == pc,
            pc + 1 < RAM_SIZE,
        ensures
            (final(self)@, r) == advance(old(self)@, pc, eff),
            final(self)@.wf(),
    {
        match eff {
            ProgramCounter::Next | ProgramCounter::Unknown => self.increment_op(),
            ProgramCounter::Skip => self.skip_op(),
            ProgramCounter::Jump(a) => self.jump_to_op(a),
            ProgramCounter::Call(a) => {
                if let Err(e) = self.call_op(a) {
                    return Err(e);
                }
            },
            ProgramCounter::Wait => {},
        }
        Ok(eff)
    }

    /// One step with `rnd` as the random instruction's byte: clears the
    /// framebuffer's dirty flag, executes the instruction at the program
    /// counter, and moves the program counter by its effect, which is
    /// returned.
    pub fn tick_with_random(&mut self, keypad: &[bool; 16], key: Option<u8>, rnd: u8) -> (r: Result<
        ProgramCounter,
        MachineError,
    >)
        requires
            old(self)@.wf(),
        ensures
            (final(self)@, r) == step(old(self)@, keypad@, key, rnd),
            final(self)@.wf(),
    {
        let pc = self.pc;
        self.vram_updated = false;
        match self.execute_with(keypad, key, rnd) {
            Ok(eff) => self.move_pc(pc, eff),
            Err(e) => Err(e),
        }
    }

    /// One step: clears the framebuffer's dirty flag, executes the instruction
    /// at the program counter (the random instruction draws its byte from the
    /// thread's generator), and moves the program counter by its effect,
    /// which is returned.
    pub fn tick(&mut self, keypad: &[bool; 16], key: Option<u8>) -> (r: Result<
        ProgramCounter,
        MachineError,
    >)
        requires
            old(self)@.wf(),
        ensures
            exists|rnd: u8| #[trigger] step(old(self)@, keypad@, key, rnd) == (final(self)@, r),
            final(self)@.wf(),
    {
        let pc = self.pc;
        self.vram_updated = false;
        let ghost m0 = self@;
        match self.execute_op(keypad, key) {
            Ok(eff) => {
                let ghost m1 = self@;
                let r = self.move_pc(pc, eff);
                proof {
                    let rnd = choose|rnd: u8| #[trigger] execute(m0, keypad@, key, rnd) == (m1, Ok::<ProgramCounter, MachineError>(eff));
                    assert(step(old(self)@, keypad@, key, rnd) == (self@, r));
                }
                r
            },
            Err(e) => {
                proof {
                    let rnd = choose|rnd: u8| #[trigger] execute(m0, keypad@, key, rnd) == (self@, Err::<ProgramCounter, MachineError>(e));
                    assert(step(old(self)@, keypad@, key, rnd) == (self@, Err::<ProgramCounter, MachineError>(e)));
                }
                Err(e)
            },
        }
    }

    /// One tick of the 60 Hz timer: both timers count down by one and stop at
    /// zero.
    pub fn decrement_timers(&mut self)
        requires
            old(self)@.wf(),
        ensures
            final(self)@ == (Machine {
                delay_timer: if old(self)@.delay_timer > 0 {
                    (old(self)@.delay_timer - 1) as u8
                } else {
                    0
                },
                sound_timer: if old(self)@.sound_timer > 0 {
                    (old(self)@.sound_timer - 1) as u8
                } else {
                    0
                },
                ..old(self)@
            }),
    {
        if self.delay_timer > 0 {
            self.delay_timer = self.delay_timer - 1;
        }
        if self.sound_timer > 0 {
            self.sound_timer = self.sound_timer - 1;
        }
    }

    /// Silences the machine: the sound timer drops to zero.
    pub fn reset_sound_timer(&mut self)
        requires
            old(self)@.wf(),
        ensures
            final(self)@ == (Machine { sound_timer: 0, ..old(self)@ }),
    {
        self.sound_timer = 0;
    }
}


impl CPU {
    /// The program counter.
    pub fn pc(&self) -> (r: u16)
        ensures
            r == self@.pc,
    {
        self.pc
    }

    /// The value of register `Vx`.
    pub fn register(&self, x: u8) -> (r: u8)
        requires
            self@.wf(),
            x < REGISTER_COUNT,
        ensures
            r == self@.reg(x),
    {
        self.v[x as usize]
    }

    /// The index register `I`.
    pub fn index(&self) -> (r: u16)
        ensures
            r == self@.i,
    {
        self.i
    }

    /// The byte at `addr`.
    pub fn memory(&self, addr: usize) -> (r: u8)
        requires
            self@.wf(),
            addr < RAM_SIZE,
        ensures
            r == self@.ram[addr as int],
    {
        self.ram[addr]
    }

    /// How many return addresses the call stack holds.
    pub fn stack_depth(&self) -> (r: usize)
        ensures
            r == self@.stack.len(),
    {
        self.stack.len()
    }

    pub fn delay_timer(&self) -> (r: u8)
        ensures
            r == self@.delay_timer,
    {
        self.delay_timer
    }

    pub fn sound_timer(&self) -> (r: u8)
        ensures
            r == self@.sound_timer,
    {
        self.sound_timer
    }

    /// Whether the last step changed the framebuffer.
    pub fn vram_updated(&self) -> (r: bool)
        ensures
            r == self@.fb_dirty,
    {
        self.vram_updated
    }

    /// Whether the machine sits in a key-wait instruction.
    pub fn is_waiting_for_press(&self) -> (r: bool)
        ensures
            r == (self@.state == RunState::AwaitingKey),
    {
        match self.state {
            RunState::AwaitingKey => true,
            RunState::Running => false,
        }
    }

    /// The framebuffer's width and height.
    pub fn window(&self) -> (r: (u8, u8))
        ensures
            r == (self@.width, self@.height),
    {
        self.window
    }

    /// The framebuffer, row by row.
    pub fn framebuffer(&self) -> (r: &[bool])
        ensures
            r@ == self@.fb,
    {
        self.vram.as_slice()
    }

    /// Whether the cell in column `x` of row `y` is lit.
    pub fn pixel(&self, x: u8, y: u8) -> (r: bool)
        requires
            self@.wf(),
            x < self@.width,
            y < self@.height,
        ensures
            r == self@.fb[y * self@.width + x],
    {
        let w = self.window.0 as usize;
        assert(y * w + x < self@.width * self@.height <= 255 * 255) by (nonlinear_arith)
            requires
                x < w,
                y < self@.height,
                w == self@.width,
                self@.width <= 255,
                self@.height <= 255,
        ;
        self.vram[(y as usize) * w + (x as usize)]
    }

    pub fn quirks(&self) -> (r: Quirks)
        ensures
            r == self@.quirks,
    {
        self.quirks
    }
}

} // verus!
