//! The interpreter engine: owns the machine state and advances it one
//! instruction at a time.

use vstd::prelude::*;
use crate::instr::{Instr, spec_parse, parse, lemma_parse_bounds};
use crate::state::{
    State, StepOutcome, initial_state, font_sprites, overlay, spec_pixel, blank_vbuf, instr_effect,
    step_effect, step_deterministic, opcode_at, record_opcode, draw_effect, draw_rows,
    draw_row_count, store_regs_ram, load_regs_regs, sum_low, sum_carry, diff_low,
    diff_no_borrow, index_add, RAM_SIZE, PROGRAM_START, VBUF_SIZE, STACK_LIMIT,
    HISTORY_LIMIT,
};

verus! {

/// Relies on `rand::random`: one byte from the thread-local generator.
/// Nothing is assumed of its value.
#[verifier::external_body]
fn random_byte() -> u8 {
    rand::random::<u8>()
}

/// The CHIP-8 machine: memory, registers, timers, call stack, display
/// bitmap and execution log. Its view is the [`State`] model; every public
/// operation is specified against it.
pub struct CPU {
    ram: Vec<u8>,
    pc: u16,
    ir: u16,
    dt: u8,
    st: u8,
    stack: Vec<u16>,
    regs: Vec<u8>,
    vbuf: Vec<u8>,
    history: Vec<u16>,
}

impl View for CPU {
    type V = State;

    closed spec fn view(&self) -> State {
        State {
            ram: self.ram@,
            pc: self.pc,
            ir: self.ir,
            dt: self.dt,
            st: self.st,
            stack: self.stack@,
            regs: self.regs@,
            vbuf: self.vbuf@,
            history: self.history@,
        }
    }
}

/// A vector of `n` zero bytes.
fn zero_bytes(n: usize) -> (v: Vec<u8>)
    ensures
        v@ == Seq::new(n as nat, |i: int| 0u8),
{
    let mut v: Vec<u8> = Vec::new();
    let mut k: usize = 0;
    while k < n
        invariant
            k <= n,
            v@ =~= Seq::new(k as nat, |i: int| 0u8),
        decreases n - k,
    {
        v.push(0);
        k = k + 1;
        proof {
            assert(v@ =~= Seq::new(k as nat, |i: int| 0u8));
        }
    }
    v
}

/// The font sprite table as bytes, matching [`font_sprites`].
fn font_table() -> (v: Vec<u8>)
    ensures
        v@ == font_sprites(),
        v@.len() == 80,
{
    let v: Vec<u8> = vec![
        0xF0u8, 0x90, 0x90, 0x90, 0xF0, // 0
        0x20, 0x60, 0x20, 0x20, 0x70, // 1
        0xF0, 0x10, 0xF0, 0x80, 0xF0, // 2
        0xF0, 0x10, 0xF0, 0x10, 0xF0, // 3
        0x90, 0x90, 0xF0, 0x10, 0x10, // 4
        0xF0, 0x80, 0xF0, 0x10, 0xF0, // 5
        0xF0, 0x80, 0xF0, 0x90, 0xF0, // 6
        0xF0, 0x10, 0x20, 0x40, 0x40, // 7
        0xF0, 0x90, 0xF0, 0x90, 0xF0, // 8
        0xF0, 0x90, 0xF0, 0x10, 0xF0, // 9
        0xF0, 0x90, 0xF0, 0x90, 0x90, // A
        0xE0, 0x90, 0xE0, 0x90, 0xE0, // B
        0xF0, 0x80, 0x80, 0x80, 0xF0, // C
        0xE0, 0x90, 0x90, 0x90, 0xE0, // D
        0xF0, 0x80, 0xF0, 0x80, 0xF0, // E
        0xF0, 0x80, 0xF0, 0x80, 0x80, // F
    ];
    proof {
        assert(v@ =~= font_sprites());
    }
    v
}

impl Default for CPU {
    /// A fresh machine, identical to [`CPU::new`].
    fn default() -> (c: CPU)
        ensures
            c@ == initial_state(),
            c@.wf(),
    {
        CPU::new()
    }
}

impl CPU {
    /// A fresh machine: zeroed registers and display, the program counter
    /// at the program start, and the font sprites preloaded into the
    /// reserved low region of memory.
    pub fn new() -> (c: CPU)
        ensures
            c@ == initial_state(),
            c@.wf(),
    {
        let mut ram = zero_bytes(RAM_SIZE);
        let font = font_table();
        let mut k: usize = 0;
        while k < 80
            invariant
                k <= 80,
                ram@.len() == RAM_SIZE,
                font@ == font_sprites(),
                font@.len() == 80,
                forall|i: int|
                    0 <= i < RAM_SIZE ==> ram@[i] == if i < k {
                        font_sprites()[i]
                    } else {
                        0u8
                    },
            decreases 80 - k,
        {
            ram[k] = font[k];
            k = k + 1;
        }
        let c = CPU {
            ram,
            pc: PROGRAM_START,
            ir: 0,
            dt: 0,
            st: 0,
            stack: Vec::new(),
            regs: zero_bytes(16),
            vbuf: zero_bytes(VBUF_SIZE),
            history: Vec::new(),
        };
        proof {
            assert(c@.ram =~= initial_state().ram);
            assert(c@.regs =~= initial_state().regs);
            assert(c@.vbuf =~= initial_state().vbuf);
            assert(c@ =~= initial_state());
        }
        c
    }

    /// The sixteen general-purpose registers V0..VF.
    pub fn get_registers(&self) -> (r: &Vec<u8>)
        ensures
            r@ == self@.regs,
    {
        &self.regs
    }

    /// All of addressable memory.
    pub fn get_memory(&self) -> (r: &Vec<u8>)
        ensures
            r@ == self@.ram,
    {
        &self.ram
    }

    /// The opcodes executed so far, oldest first.
    pub fn get_history(&self) -> (r: &Vec<u16>)
        ensures
            r@ == self@.history,
    {
        &self.history
    }

    /// The program counter.
    pub fn get_pc(&self) -> (r: u16)
        ensures
            r == self@.pc,
    {
        self.pc
    }

    /// The index register.
    pub fn get_ir(&self) -> (r: u16)
        ensures
            r == self@.ir,
    {
        self.ir
    }

    /// The call-stack depth.
    pub fn get_sp(&self) -> (r: u8)
        requires
            self@.wf(),
        ensures
            r == self@.stack.len(),
    {
        self.stack.len() as u8
    }

    /// The delay timer; the driver decrements it on its own cadence.
    pub fn get_delay_timer(&self) -> (r: u8)
        ensures
            r == self@.dt,
    {
        self.dt
    }

    /// Set the delay timer.
    pub fn set_delay_timer(&mut self, v: u8)
        ensures
            final(self)@ == (State { dt: v, ..old(self)@ }),
    {
        self.dt = v;
    }

    /// The sound timer; the driver decrements it on its own cadence.
    pub fn get_sound_timer(&self) -> (r: u8)
        ensures
            r == self@.st,
    {
        self.st
    }

    /// Set the sound timer.
    pub fn set_sound_timer(&mut self, v: u8)
        ensures
            final(self)@ == (State { st: v, ..old(self)@ }),
    {
        self.st = v;
    }

    /// Whether the logical pixel `(x, y)` of the display is lit.
    pub fn read_vbuf(&self, x: u8, y: u8) -> (lit: bool)
        requires
            self@.wf(),
            x < 64,
            y < 32,
        ensures
            lit == spec_pixel(self@.vbuf, x, y),
    {
        let element: usize = (x / 8) as usize + 8 * (y as usize);
        self.vbuf[element] & (0x80u8 >> (x % 8)) != 0
    }

    /// Copy a program image into memory. In override mode the image is
    /// pasted from address 0 (over the reserved font region); otherwise it
    /// is pasted from the program start. An image that does not fit in the
    /// remaining memory is rejected and the machine is left untouched.
    pub fn load_bin(&mut self, binary: Vec<u8>, override_ram: bool) -> (ok: bool)
        requires
            old(self)@.wf(),
        ensures
            final(self)@.wf(),
            ok == (binary@.len() + (if override_ram {
                0int
            } else {
                PROGRAM_START as int
            }) <= RAM_SIZE),
            ok ==> final(self)@ == (State {
                ram: overlay(
                    old(self)@.ram,
                    binary@,
                    if override_ram {
                        0int
                    } else {
                        PROGRAM_START as int
                    },
                ),
                ..old(self)@
            }),
            !ok ==> final(self)@ == old(self)@,
    {
        let start: usize = if override_ram {
            0
        } else {
            PROGRAM_START as usize
        };
        if binary.len() > RAM_SIZE - start {
            return false;
        }
        let mut k: usize = 0;
        while k < binary.len()
            invariant
                old(self)@.wf(),
                start + binary@.len() <= RAM_SIZE,
                k <= binary@.len(),
                self@ == (State { ram: self@.ram, ..old(self)@ }),
                self@.ram.len() == RAM_SIZE,
                forall|i: int|
                    0 <= i < RAM_SIZE ==> self@.ram[i] == if start <= i < start + k {
                        binary@[i - start]
                    } else {
                        old(self)@.ram[i]
                    },
            decreases binary@.len() - k,
        {
            self.ram[start + k] = binary[k];
            k = k + 1;
        }
        proof {
            assert(self@.ram =~= overlay(
                old(self)@.ram,
                binary@,
                if override_ram {
                    0int
                } else {
                    PROGRAM_START as int
                },
            ));
        }
        true
    }

    /// `00E0`: clear the display buffer.
    fn clear_display(&mut self)
        requires
            old(self)@.wf(),
        ensures
            final(self)@ == (State { vbuf: blank_vbuf(), ..old(self)@ }),
    {
        self.vbuf = zero_bytes(VBUF_SIZE);
    }

    /// `00EE`: return from a subroutine; with nothing to return from, the
    /// machine reports a halt instead.
    fn retsub(&mut self) -> (out: StepOutcome)
        requires
            old(self)@.wf(),
        ensures
            old(self)@.stack.len() == 0 ==> final(self)@ == old(self)@ && out
                == StepOutcome::Halted,
            old(self)@.stack.len() > 0 ==> final(self)@ == (State {
                pc: old(self)@.stack.last(),
                stack: old(self)@.stack.drop_last(),
                ..old(self)@
            }) && out == StepOutcome::Continuing,
    {
        match self.stack.pop() {
            None => StepOutcome::Halted,
            Some(addr) => {
                self.pc = addr;
                StepOutcome::Continuing
            },
        }
    }

    /// `1nnn`: jump.
    fn goto(&mut self, nnn: u16)
        ensures
            final(self)@ == (State { pc: nnn, ..old(self)@ }),
    {
        self.pc = nnn;
    }

    /// `2nnn`: call a subroutine, saving the return address; one more
    /// nested call than `STACK_LIMIT` is a fault.
    fn call(&mut self, nnn: u16) -> (out: StepOutcome)
        requires
            old(self)@.wf(),
        ensures
            old(self)@.stack.len() >= STACK_LIMIT ==> final(self)@ == old(self)@ && out
                == StepOutcome::Fault,
            old(self)@.stack.len() < STACK_LIMIT ==> final(self)@ == (State {
                pc: nnn,
                stack: old(self)@.stack.push(old(self)@.pc),
                ..old(self)@
            }) && out == StepOutcome::Continuing,
    {
        if self.stack.len() >= STACK_LIMIT {
            return StepOutcome::Fault;
        }
        self.stack.push(self.pc);
        self.pc = nnn;
        StepOutcome::Continuing
    }

    /// `3xkk`: skip the next instruction if `Vx == kk`.
    fn se(&mut self, x: u8, kk: u8)
        requires
            old(self)@.wf(),
            x < 16,
            old(self)@.pc <= 4096,
        ensures
            final(self)@ == (if old(self)@.regs[x as int] == kk {
                State { pc: (old(self)@.pc + 2) as u16, ..old(self)@ }
            } else {
                old(self)@
            }),
    {
        if self.regs[x as usize] == kk {
            self.pc = self.pc + 2;
        }
    }

    /// `4xkk`: skip the next instruction if `Vx != kk`.
    fn sne(&mut self, x: u8, kk: u8)
        requires
            old(self)@.wf(),
            x < 16,
            old(self)@.pc <= 4096,
        ensures
            final(self)@ == (if old(self)@.regs[x as int] != kk {
                State { pc: (old(self)@.pc + 2) as u16, ..old(self)@ }
            } else {
                old(self)@
            }),
    {
        if self.regs[x as usize] != kk {
            self.pc = self.pc + 2;
        }
    }

    /// `5xy0`: skip the next instruction if `Vx == Vy`.
    fn sre(&mut self, x: u8, y: u8)
        requires
            old(self)@.wf(),
            x < 16,
            y < 16,
            old(self)@.pc <= 4096,
        ensures
            final(self)@ == (if old(self)@.regs[x as int] == old(self)@.regs[y as int] {
                State { pc: (old(self)@.pc + 2) as u16, ..old(self)@ }
            } else {
                old(self)@
            }),
    {
        if self.regs[x as usize] == self.regs[y as usize] {
            self.pc = self.pc + 2;
        }
    }

    /// `9xy0`: skip the next instruction if `Vx != Vy`.
    fn snereg(&mut self, x: u8, y: u8)
        requires
            old(self)@.wf(),
            x < 16,
            y < 16,
            old(self)@.pc <= 4096,
        ensures
            final(self)@ == (if old(self)@.regs[x as int] != old(self)@.regs[y as int] {
                State { pc: (old(self)@.pc + 2) as u16, ..old(self)@ }
            } else {
                old(self)@
            }),
    {
        if self.regs[x as usize] != self.regs[y as usize] {
            self.pc = self.pc + 2;
        }
    }

    /// `6xkk`: `Vx := kk`.
    fn setreg(&mut self, x: u8, kk: u8)
        requires
            old(self)@.wf(),
            x < 16,
        ensures
            final(self)@ == (State { regs: old(self)@.regs.update(x as int, kk), ..old(self)@ }),
    {
        self.regs[x as usize] = kk;
    }

    /// `7xkk`: `Vx := Vx + kk`, wrapping, without touching the flag.
    fn addc(&mut self, x: u8, kk: u8)
        requires
            old(self)@.wf(),
            x < 16,
        ensures
            final(self)@ == (State {
                regs: old(self)@.regs.update(x as int, sum_low(old(self)@.regs[x as int], kk)),
                ..old(self)@
            }),
    {
        let s: u16 = self.regs[x as usize] as u16 + kk as u16;
        self.regs[x as usize] = if s > 255 {
            (s - 256) as u8
        } else {
            s as u8
        };
    }

    /// `8xy0`: `Vx := Vy`.
    fn assignreg(&mut self, x: u8, y: u8)
        requires
            old(self)@.wf(),
            x < 16,
            y < 16,
        ensures
            final(self)@ == (State {
                regs: old(self)@.regs.update(x as int, old(self)@.regs[y as int]),
                ..old(self)@
            }),
    {
        self.regs[x as usize] = self.regs[y as usize];
    }

    /// `8xy1`: `Vx := Vx | Vy`.
    fn bitor(&mut self, x: u8, y: u8)
        requires
            old(self)@.wf(),
            x < 16,
            y < 16,
        ensures
            final(self)@ == (State {
                regs: old(self)@.regs.update(
                    x as int,
                    old(self)@.regs[x as int] | old(self)@.regs[y as int],
                ),
                ..old(self)@
            }),
    {
        self.regs[x as usize] = self.regs[x as usize] | self.regs[y as usize];
    }

    /// `8xy2`: `Vx := Vx & Vy`.
    fn bitand(&mut self, x: u8, y: u8)
        requires
            old(self)@.wf(),
            x < 16,
            y < 16,
        ensures
            final(self)@ == (State {
                regs: old(self)@.regs.update(
                    x as int,
                    old(self)@.regs[x as int] & old(self)@.regs[y as int],
                ),
                ..old(self)@
            }),
    {
        self.regs[x as usize] = self.regs[x as usize] & self.regs[y as usize];
    }

    /// `8xy3`: `Vx := Vx ^ Vy`.
    fn bitxor(&mut self, x: u8, y: u8)
        requires
            old(self)@.wf(),
            x < 16,
            y < 16,
        ensures
            final(self)@ == (State {
                regs: old(self)@.regs.update(
                    x as int,
                    old(self)@.regs[x as int] ^ old(self)@.regs[y as int],
                ),
                ..old(self)@
            }),
    {
        self.regs[x as usize] = self.regs[x as usize] ^ self.regs[y as usize];
    }

    /// `8xy4`: `Vx := Vx + Vy`; `VF` becomes 1 exactly when the true sum
    /// exceeds 255. The sum is taken in 16 bits so the carry is detected
    /// rather than lost to truncation.
    fn addreg(&mut self, x: u8, y: u8)
        requires
            old(self)@.wf(),
            x < 16,
            y < 16,
        ensures
            final(self)@ == (State {
                regs: old(self)@.regs.update(
                    x as int,
                    sum_low(old(self)@.regs[x as int], old(self)@.regs[y as int]),
                ).update(15, sum_carry(old(self)@.regs[x as int], old(self)@.regs[y as int])),
                ..old(self)@
            }),
    {
        let s: u16 = self.regs[x as usize] as u16 + self.regs[y as usize] as u16;
        self.regs[x as usize] = if s > 255 {
            (s - 256) as u8
        } else {
            s as u8
        };
        self.regs[15] = if s > 255 {
            1
        } else {
            0
        };
    }

    /// `8xy5`: `Vx := Vx - Vy`; `VF` becomes the no-borrow flag, 1 exactly
    /// when `Vx >= Vy`, as the 16-bit difference shows it.
    fn subreg(&mut self, x: u8, y: u8)
        requires
            old(self)@.wf(),
            x < 16,
            y < 16,
        ensures
            final(self)@ == (State {
                regs: old(self)@.regs.update(
                    x as int,
                    diff_low(old(self)@.regs[x as int], old(self)@.regs[y as int]),
                ).update(15, diff_no_borrow(old(self)@.regs[x as int], old(self)@.regs[y as int])),
                ..old(self)@
            }),
    {
        let a = self.regs[x as usize];
        let b = self.regs[y as usize];
        self.regs[x as usize] = if a >= b {
            a - b
        } else {
            (a as u16 + 256 - b as u16) as u8
        };
        self.regs[15] = if a >= b {
            1
        } else {
            0
        };
    }

    /// `8xy7`: `Vx := Vy - Vx`; `VF` becomes the no-borrow flag, 1 exactly
    /// when `Vy >= Vx`.
    fn subregrev(&mut self, x: u8, y: u8)
        requires
            old(self)@.wf(),
            x < 16,
            y < 16,
        ensures
            final(self)@ == (State {
                regs: old(self)@.regs.update(
                    x as int,
                    diff_low(old(self)@.regs[y as int], old(self)@.regs[x as int]),
                ).update(15, diff_no_borrow(old(self)@.regs[y as int], old(self)@.regs[x as int])),
                ..old(self)@
            }),
    {
        let a = self.regs[x as usize];
        let b = self.regs[y as usize];
        self.regs[x as usize] = if b >= a {
            b - a
        } else {
            (b as u16 + 256 - a as u16) as u8
        };
        self.regs[15] = if b >= a {
            1
        } else {
            0
        };
    }

    /// `8xy6`: the low bit of `Vx` moves into `VF`, then `Vx` shifts right
    /// by one. `VF` receives its bit before the shift, so shifting `VF`
    /// itself shifts the value just stored there.
    fn rshiftreg(&mut self, x: u8)
        requires
            old(self)@.wf(),
            x < 16,
        ensures
            final(self)@ == ({
                let flagged = old(self)@.regs.update(15, old(self)@.regs[x as int] & 1);
                State { regs: flagged.update(x as int, flagged[x as int] >> 1u8), ..old(self)@ }
            }),
    {
        self.regs[15] = self.regs[x as usize] & 1;
        let cur = self.regs[x as usize];
        self.regs[x as usize] = cur >> 1u8;
    }

    /// `8xyE`: the high bit of `Vx` moves into `VF` (as 0 or 1), then `Vx`
    /// shifts left by one, dropping that bit.
    fn lshiftreg(&mut self, x: u8)
        requires
            old(self)@.wf(),
            x < 16,
        ensures
            final(self)@ == ({
                let flagged = old(self)@.regs.update(15, old(self)@.regs[x as int] >> 7u8);
                State { regs: flagged.update(x as int, flagged[x as int] << 1u8), ..old(self)@ }
            }),
    {
        self.regs[15] = self.regs[x as usize] >> 7u8;
        let cur = self.regs[x as usize];
        self.regs[x as usize] = cur << 1u8;
    }

    /// `Annn`: `I := nnn`.
    fn seti(&mut self, nnn: u16)
        ensures
            final(self)@ == (State { ir: nnn, ..old(self)@ }),
    {
        self.ir = nnn;
    }

    /// `Bnnn`: jump to `V0 + nnn`.
    fn gotoreg(&mut self, nnn: u16)
        requires
            old(self)@.wf(),
            nnn < 4096,
        ensures
            final(self)@ == (State { pc: (old(self)@.regs[0] + nnn) as u16, ..old(self)@ }),
    {
        self.pc = self.regs[0] as u16 + nnn;
    }

    /// `Cxkk`: `Vx := random byte & kk`. The byte comes from the process
    /// random source, so only its masked shape is promised.
    fn rand(&mut self, x: u8, kk: u8)
        requires
            old(self)@.wf(),
            x < 16,
        ensures
            exists|b: u8|
                final(self)@ == (State {
                    regs: old(self)@.regs.update(x as int, #[trigger] (b & kk)),
                    ..old(self)@
                }),
    {
        let b = random_byte();
        self.regs[x as usize] = b & kk;
        proof {
            assert(self@ == (State {
                regs: old(self)@.regs.update(x as int, b & kk),
                ..old(self)@
            }));
        }
    }

    /// `Ex9E`: skip if the key named by `Vx` is pressed. Key state belongs
    /// to an external collaborator; without one this is a no-op.
    fn skp(&mut self, _x: u8)
        ensures
            final(self)@ == old(self)@,
    {
    }

    /// `ExA1`: skip if the key named by `Vx` is not pressed. Key state
    /// belongs to an external collaborator; without one this is a no-op.
    fn sknp(&mut self, _x: u8)
        ensures
            final(self)@ == old(self)@,
    {
    }

    /// `Fx07`: `Vx := delay timer`.
    fn getdt(&mut self, x: u8)
        requires
            old(self)@.wf(),
            x < 16,
        ensures
            final(self)@ == (State {
                regs: old(self)@.regs.update(x as int, old(self)@.dt),
                ..old(self)@
            }),
    {
        self.regs[x as usize] = self.dt;
    }

    /// `Fx0A`: wait for a key press. Input belongs to an external
    /// collaborator; without one this is a no-op.
    fn waitkp(&mut self, _x: u8)
        ensures
            final(self)@ == old(self)@,
    {
    }

    /// `Fx15`: `delay timer := Vx`.
    fn setdt(&mut self, x: u8)
        requires
            old(self)@.wf(),
            x < 16,
        ensures
            final(self)@ == (State { dt: old(self)@.regs[x as int], ..old(self)@ }),
    {
        self.dt = self.regs[x as usize];
    }

    /// `Fx18`: `sound timer := Vx`.
    fn setst(&mut self, x: u8)
        requires
            old(self)@.wf(),
            x < 16,
        ensures
            final(self)@ == (State { st: old(self)@.regs[x as int], ..old(self)@ }),
    {
        self.st = self.regs[x as usize];
    }

    /// `Fx1E`: `I := I + Vx`, wrapping at 16 bits.
    fn addi(&mut self, x: u8)
        requires
            old(self)@.wf(),
            x < 16,
        ensures
            final(self)@ == (State {
                ir: index_add(old(self)@.ir, old(self)@.regs[x as int]),
                ..old(self)@
            }),
    {
        let s: u32 = self.ir as u32 + self.regs[x as usize] as u32;
        self.ir = if s > 0xffff {
            (s - 0x10000) as u16
        } else {
            s as u16
        };
    }

    /// `Fx29`: point `I` at the font sprite for digit `Vx`. A defined
    /// no-op here; callers should not depend on it.
    fn setisprite(&mut self, _x: u8)
        ensures
            final(self)@ == old(self)@,
    {
    }

    /// `Fx33`: store the hundreds, tens and ones digits of `Vx` at `I`,
    /// `I+1`, `I+2`, as the numeric digit values 0 through 9. Reaching
    /// outside memory is a fault that leaves the machine untouched.
    fn setbcd(&mut self, x: u8) -> (out: StepOutcome)
        requires
            old(self)@.wf(),
            x < 16,
        ensures
            old(self)@.ir + 2 >= RAM_SIZE ==> final(self)@ == old(self)@ && out
                == StepOutcome::Fault,
            old(self)@.ir + 2 < RAM_SIZE ==> final(self)@ == ({
                let v = old(self)@.regs[x as int];
                State {
                    ram: old(self)@.ram.update(old(self)@.ir as int, v / 100).update(
                        old(self)@.ir + 1,
                        (v / 10) % 10,
                    ).update(old(self)@.ir + 2, v % 10),
                    ..old(self)@
                }
            }) && out == StepOutcome::Continuing,
    {
        if self.ir as usize + 2 >= RAM_SIZE {
            return StepOutcome::Fault;
        }
        let v = self.regs[x as usize];
        let base = self.ir as usize;
        self.ram[base] = v / 100;
        self.ram[base + 1] = (v / 10) % 10;
        self.ram[base + 2] = v % 10;
        StepOutcome::Continuing
    }

    /// `Fx55`: store `V0..=Vx` to memory at `I..=I+x`. Reaching outside
    /// memory is a fault that leaves the machine untouched.
    fn regsstore(&mut self, x: u8) -> (out: StepOutcome)
        requires
            old(self)@.wf(),
            x < 16,
        ensures
            old(self)@.ir + x >= RAM_SIZE ==> final(self)@ == old(self)@ && out
                == StepOutcome::Fault,
            old(self)@.ir + x < RAM_SIZE ==> final(self)@ == (State {
                ram: store_regs_ram(old(self)@.ram, old(self)@.regs, old(self)@.ir as int, x),
                ..old(self)@
            }) && out == StepOutcome::Continuing,
    {
        if self.ir as usize + x as usize >= RAM_SIZE {
            return StepOutcome::Fault;
        }
        let base = self.ir as usize;
        let mut r: usize = 0;
        while r <= x as usize
            invariant
                old(self)@.wf(),
                x < 16,
                base == old(self)@.ir as int,
                base + x < RAM_SIZE,
                r <= x + 1,
                self@ == (State { ram: self@.ram, ..old(self)@ }),
                self@.ram.len() == RAM_SIZE,
                forall|i: int|
                    0 <= i < RAM_SIZE ==> self@.ram[i] == if base <= i < base + r {
                        old(self)@.regs[i - base]
                    } else {
                        old(self)@.ram[i]
                    },
            decreases x as int + 1 - r,
        {
            self.ram[base + r] = self.regs[r];
            r = r + 1;
        }
        proof {
            assert(self@.ram =~= store_regs_ram(
                old(self)@.ram,
                old(self)@.regs,
                old(self)@.ir as int,
                x,
            ));
        }
        StepOutcome::Continuing
    }

    /// `Fx65`: load `V0..=Vx` from memory at `I..=I+x`. Reaching outside
    /// memory is a fault that leaves the machine untouched.
    fn regsload(&mut self, x: u8) -> (out: StepOutcome)
        requires
            old(self)@.wf(),
            x < 16,
        ensures
            old(self)@.ir + x >= RAM_SIZE ==> final(self)@ == old(self)@ && out
                == StepOutcome::Fault,
            old(self)@.ir + x < RAM_SIZE ==> final(self)@ == (State {
                regs: load_regs_regs(old(self)@.ram, old(self)@.regs, old(self)@.ir as int, x),
                ..old(self)@
            }) && out == StepOutcome::Continuing,
    {
        if self.ir as usize + x as usize >= RAM_SIZE {
            return StepOutcome::Fault;
        }
        let base = self.ir as usize;
        let mut r: usize = 0;
        while r <= x as usize
            invariant
                old(self)@.wf(),
                x < 16,
                base == old(self)@.ir as int,
                base + x < RAM_SIZE,
                r <= x + 1,
                self@ == (State { regs: self@.regs, ..old(self)@ }),
                self@.regs.len() == 16,
                forall|i: int|
                    0 <= i < 16 ==> self@.regs[i] == if 0 <= i < r {
                        old(self)@.ram[base + i]
                    } else {
                        old(self)@.regs[i]
                    },
            decreases x as int + 1 - r,
        {
            self.regs[r] = self.ram[base + r];
            r = r + 1;
        }
        proof {
            assert(self@.regs =~= load_regs_regs(
                old(self)@.ram,
                old(self)@.regs,
                old(self)@.ir as int,
                x,
            ));
        }
        StepOutcome::Continuing
    }

    /// `Dxyn`: draw the `n`-row sprite at `I` with its top-left corner at
    /// pixel `(Vx, Vy)`, XOR-compositing each row into the bitmap. A start
    /// in a byte column right of the display skips the draw; rows below
    /// the display are cut off; rows straddling a byte boundary spill into
    /// the following byte unless the sprite sits in the last byte column
    /// (no horizontal wrap). `VF` is cleared first and becomes 1 exactly
    /// when a lit pixel went dark. Reading a sprite row from outside
    /// memory is a fault that leaves the machine untouched.
    fn draw(&mut self, x: u8, y: u8, n: u8) -> (out: StepOutcome)
        requires
            old(self)@.wf(),
            x < 16,
            y < 16,
            n < 16,
        ensures
            final(self)@.wf(),
            (final(self)@, out) == draw_effect(old(self)@, x, y, n),
    {
        let px = self.regs[x as usize];
        let py = self.regs[y as usize];
        if px >= 64 {
            return StepOutcome::Continuing;
        }
        let rows: usize = if py >= 32 {
            0
        } else if py as usize + n as usize > 32 {
            32 - py as usize
        } else {
            n as usize
        };
        proof {
            assert(rows == draw_row_count(py, n));
        }
        if rows > 0 && self.ir as usize + (rows - 1) >= RAM_SIZE {
            return StepOutcome::Fault;
        }
        let bx = (px / 8) as usize;
        let off = px % 8;
        let mut hit = false;
        let mut line: usize = 0;
        while line < rows
            invariant
                old(self)@.wf(),
                px == old(self)@.regs[x as int],
                py == old(self)@.regs[y as int],
                px < 64,
                py < 32 || rows == 0,
                rows == draw_row_count(py, n),
                rows > 0 ==> old(self)@.ir + rows - 1 < RAM_SIZE,
                bx == px as int / 8,
                bx < 8,
                off == px % 8,
                line <= rows,
                rows == 0 || rows <= 32 - py,
                self@ == (State { vbuf: self@.vbuf, ..old(self)@ }),
                self@.vbuf.len() == VBUF_SIZE,
                (self@.vbuf, hit) == draw_rows(
                    old(self)@.vbuf,
                    old(self)@.ram,
                    old(self)@.ir,
                    bx as int,
                    off,
                    py as int,
                    line as nat,
                ),
            decreases rows - line,
        {
            let sprite = self.ram[self.ir as usize + line];
            let element = bx + 8 * (py as usize + line);
            let b1 = self.vbuf[element];
            let n1 = b1 ^ (sprite >> off);
            self.vbuf[element] = n1;
            if b1 & n1 != b1 {
                hit = true;
            }
            if off > 0 && bx < 7 {
                let b2 = self.vbuf[element + 1];
                let n2 = b2 ^ (sprite << (8 - off));
                self.vbuf[element + 1] = n2;
                if b2 & n2 != b2 {
                    hit = true;
                }
            }
            line = line + 1;
            proof {
                assert((self@.vbuf, hit) == draw_rows(
                    old(self)@.vbuf,
                    old(self)@.ram,
                    old(self)@.ir,
                    bx as int,
                    off,
                    py as int,
                    line as nat,
                ));
            }
        }
        self.regs[15] = if hit {
            1
        } else {
            0
        };
        StepOutcome::Continuing
    }

    /// Decode and execute one instruction word. The program counter must
    /// already point past the word, as [`Self::step`] leaves it. The
    /// outcome, and the whole new state but for the byte a `Cxkk` draws
    /// from the random source, are pinned by [`instr_effect`].
    pub fn execute(&mut self, ins: u16) -> (out: StepOutcome)
        requires
            old(self)@.wf(),
            old(self)@.pc <= 4096,
        ensures
            final(self)@.wf(),
            exists|b: u8| (final(self)@, out) == instr_effect(old(self)@, spec_parse(ins), b),
            !(spec_parse(ins) is Random) ==> (final(self)@, out) == instr_effect(
                old(self)@,
                spec_parse(ins),
                0,
            ),
    {
        proof {
            lemma_parse_bounds(ins);
        }
        let i = parse(ins);
        let out = match i {
            Instr::Cls => {
                self.clear_display();
                StepOutcome::Continuing
            },
            Instr::Ret => self.retsub(),
            Instr::Jump { nnn } => {
                self.goto(nnn);
                StepOutcome::Continuing
            },
            Instr::Call { nnn } => self.call(nnn),
            Instr::SkipEqImm { x, kk } => {
                self.se(x, kk);
                StepOutcome::Continuing
            },
            Instr::SkipNeImm { x, kk } => {
                self.sne(x, kk);
                StepOutcome::Continuing
            },
            Instr::SkipEqReg { x, y } => {
                self.sre(x, y);
                StepOutcome::Continuing
            },
            Instr::SkipNeReg { x, y } => {
                self.snereg(x, y);
                StepOutcome::Continuing
            },
            Instr::LoadImm { x, kk } => {
                self.setreg(x, kk);
                StepOutcome::Continuing
            },
            Instr::AddImm { x, kk } => {
                self.addc(x, kk);
                StepOutcome::Continuing
            },
            Instr::Assign { x, y } => {
                self.assignreg(x, y);
                StepOutcome::Continuing
            },
            Instr::Or { x, y } => {
                self.bitor(x, y);
                StepOutcome::Continuing
            },
            Instr::And { x, y } => {
                self.bitand(x, y);
                StepOutcome::Continuing
            },
            Instr::Xor { x, y } => {
                self.bitxor(x, y);
                StepOutcome::Continuing
            },
            Instr::Add { x, y } => {
                self.addreg(x, y);
                StepOutcome::Continuing
            },
            Instr::Sub { x, y } => {
                self.subreg(x, y);
                StepOutcome::Continuing
            },
            Instr::SubRev { x, y } => {
                self.subregrev(x, y);
                StepOutcome::Continuing
            },
            Instr::ShiftRight { x } => {
                self.rshiftreg(x);
                StepOutcome::Continuing
            },
            Instr::ShiftLeft { x } => {
                self.lshiftreg(x);
                StepOutcome::Continuing
            },
            Instr::LoadIndex { nnn } => {
                self.seti(nnn);
                StepOutcome::Continuing
            },
            Instr::JumpPlus { nnn } => {
                self.gotoreg(nnn);
                StepOutcome::Continuing
            },
            Instr::Random { x, kk } => {
                self.rand(x, kk);
                proof {
                    let b = choose|b: u8|
                        self@ == (State {
                            regs: old(self)@.regs.update(x as int, #[trigger] (b & kk)),
                            ..old(self)@
                        });
                    assert((self@, StepOutcome::Continuing) == instr_effect(
                        old(self)@,
                        spec_parse(ins),
                        b,
                    ));
                }
                StepOutcome::Continuing
            },
            Instr::Draw { x, y, n } => self.draw(x, y, n),
            Instr::SkipKey { x } => {
                self.skp(x);
                StepOutcome::Continuing
            },
            Instr::SkipNoKey { x } => {
                self.sknp(x);
                StepOutcome::Continuing
            },
            Instr::GetDelay { x } => {
                self.getdt(x);
                StepOutcome::Continuing
            },
            Instr::WaitKey { x } => {
                self.waitkp(x);
                StepOutcome::Continuing
            },
            Instr::SetDelay { x } => {
                self.setdt(x);
                StepOutcome::Continuing
            },
            Instr::SetSound { x } => {
                self.setst(x);
                StepOutcome::Continuing
            },
            Instr::AddIndex { x } => {
                self.addi(x);
                StepOutcome::Continuing
            },
            Instr::FontSprite { x } => {
                self.setisprite(x);
                StepOutcome::Continuing
            },
            Instr::Bcd { x } => self.setbcd(x),
            Instr::StoreRegs { x } => self.regsstore(x),
            Instr::LoadRegs { x } => self.regsload(x),
            Instr::Unknown => StepOutcome::Continuing,
        };
        proof {
            if !(spec_parse(ins) is Random) {
                assert((self@, out) == instr_effect(old(self)@, spec_parse(ins), 0));
            }
            assert(self@.wf());
        }
        out
    }

    /// Read the big-endian opcode at the program counter and advance the
    /// counter past it.
    fn fetch(&mut self) -> (ins: u16)
        requires
            old(self)@.wf(),
            old(self)@.pc < RAM_SIZE - 1,
        ensures
            final(self)@ == (State { pc: (old(self)@.pc + 2) as u16, ..old(self)@ }),
            ins == opcode_at(old(self)@.ram, old(self)@.pc as int),
    {
        let hi = self.ram[self.pc as usize];
        let lo = self.ram[self.pc as usize + 1];
        self.pc = self.pc + 2;
        ((hi as u16) << 8u16) | (lo as u16)
    }

    /// The opcode about to execute, read without moving the program
    /// counter; for tracing and disassembly display.
    pub fn fetch_no_increment(&self) -> (ins: u16)
        requires
            self@.wf(),
            self@.pc < RAM_SIZE - 1,
        ensures
            ins == opcode_at(self@.ram, self@.pc as int),
    {
        let hi = self.ram[self.pc as usize];
        let lo = self.ram[self.pc as usize + 1];
        ((hi as u16) << 8u16) | (lo as u16)
    }

    /// One whole cycle: halt if the program counter has run past the top
    /// of memory; otherwise fetch, decode, execute and record the opcode
    /// in the execution log. The new state and the outcome are pinned by
    /// [`step_effect`], up to the byte a `Cxkk` draws from the random
    /// source.
    pub fn step(&mut self) -> (out: StepOutcome)
        requires
            old(self)@.wf(),
        ensures
            final(self)@.wf(),
            exists|b: u8| (final(self)@, out) == step_effect(old(self)@, b),
            step_deterministic(old(self)@) ==> (final(self)@, out) == step_effect(old(self)@, 0),
    {
        if self.pc >= (RAM_SIZE - 1) as u16 {
            proof {
                assert((self@, StepOutcome::Halted) == step_effect(old(self)@, 0));
            }
            return StepOutcome::Halted;
        }
        let ins = self.fetch();
        let ghost fetched = self@;
        let out = self.execute(ins);
        let ghost mid = self@;
        if self.history.len() < HISTORY_LIMIT {
            self.history.push(ins);
        }
        proof {
            assert(self@.history == record_opcode(mid.history, ins));
            if spec_parse(ins) is Random {
                let b = choose|b: u8| (mid, out) == instr_effect(fetched, spec_parse(ins), b);
                assert((self@, out) == step_effect(old(self)@, b));
            } else {
                assert((self@, out) == step_effect(old(self)@, 0));
            }
        }
        out
    }

    /// One cycle for a driver loop: 0 while the machine is continuing,
    /// -1 once it has halted or faulted.
    pub fn next_cycle(&mut self) -> (r: i32)
        requires
            old(self)@.wf(),
        ensures
            final(self)@.wf(),
            exists|b: u8|
                {
                    let done = #[trigger] step_effect(old(self)@, b);
                    final(self)@ == done.0 && r == (if done.1 is Continuing {
                        0i32
                    } else {
                        -1i32
                    })
                },
            step_deterministic(old(self)@) ==> final(self)@ == step_effect(old(self)@, 0).0 && r
                == (if step_effect(old(self)@, 0).1 is Continuing {
                0i32
            } else {
                -1i32
            }),
    {
        let out = self.step();
        match out {
            StepOutcome::Continuing => 0,
            _ => -1,
        }
    }

}

} // verus!
