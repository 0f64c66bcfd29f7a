//! The mathematical model of the machine.
//!
//! [`State`] mirrors the interpreter's data: 4096 bytes of memory, sixteen
//! 8-bit registers, the 16-bit index register and program counter, the two
//! timers, the call stack, the packed 64x32 display bitmap and the log of
//! executed opcodes. [`instr_effect`] gives the exact effect of one decoded
//! instruction, and [`step_effect`] one whole fetch-decode-execute cycle.

use vstd::prelude::*;
use crate::instr::Instr;
use crate::instr::spec_parse;

verus! {

/// Bytes of addressable memory.
pub const RAM_SIZE: usize = 4096;

/// Address at which user programs are loaded.
pub const PROGRAM_START: u16 = 0x200;

/// Display width in pixels.
pub const DISPLAY_WIDTH: usize = 64;

/// Display height in pixels.
pub const DISPLAY_HEIGHT: usize = 32;

/// Bytes in the packed display bitmap: 64 * 32 pixels, 8 per byte.
pub const VBUF_SIZE: usize = 256;

/// Deepest call nesting the machine accepts; a further `2nnn` is a fault.
/// This is the classic sixteen-level limit.
pub const STACK_LIMIT: usize = 16;

/// Most opcodes the execution log keeps; once full it stops growing.
pub const HISTORY_LIMIT: usize = 1024;

/// What one cycle reports back to the driver.
#[derive(Clone, Copy, Debug, PartialEq, Eq, Structural)]
pub enum StepOutcome {
    /// The machine can take another cycle.
    Continuing,
    /// Execution has ended: the program counter ran past the top of memory,
    /// or a return was executed with an empty call stack.
    Halted,
    /// The instruction would have reached outside addressable memory or
    /// overflowed the call stack; the machine state is left as it was
    /// after the fetch.
    Fault,
}

/// The machine state, as the contracts speak of it.
#[verifier::ext_equal]
pub ghost struct State {
    /// Main memory, always `RAM_SIZE` bytes.
    pub ram: Seq<u8>,
    /// Program counter.
    pub pc: u16,
    /// Index register.
    pub ir: u16,
    /// Delay timer.
    pub dt: u8,
    /// Sound timer.
    pub st: u8,
    /// Saved return addresses, innermost last; at most `STACK_LIMIT` deep.
    pub stack: Seq<u16>,
    /// General-purpose registers V0..VF, always 16 of them.
    pub regs: Seq<u8>,
    /// Packed display bitmap, always `VBUF_SIZE` bytes, row-major,
    /// 8 pixels per byte with the leftmost pixel in the high bit.
    pub vbuf: Seq<u8>,
    /// Opcodes executed so far, oldest first, at most `HISTORY_LIMIT`.
    pub history: Seq<u16>,
}

impl State {
    /// The structural invariant every reachable state satisfies.
    pub open spec fn wf(self) -> bool {
        &&& self.ram.len() == RAM_SIZE
        &&& self.regs.len() == 16
        &&& self.vbuf.len() == VBUF_SIZE
        &&& self.stack.len() <= STACK_LIMIT
        &&& self.history.len() <= HISTORY_LIMIT
    }
}

/// The five-byte font sprites for hexadecimal digits 0 through F, in order.
pub open spec fn font_sprites() -> Seq<u8> {
    seq![
        0xF0u8, 0x90, 0x90, 0x90, 0xF0, // 0
        0x20, 0x60, 0x20, 0x20, 0x70, // 1
        0xF0, 0x10, 0xF0, 0x80, 0xF0, // 2
        0xF0, 0x10, 0xF0, 0x10, 0xF0, // 3
        0x90, 0x90, 0xF0, 0x10, 0x10, // 4
        0xF0, 0x80, 0xF0, 0x10, 0xF0, // 5
        0xF0, 0x80, 0xF0, 0x90, 0xF0, // 6
        0xF0, 0x10, 0x20, 0x40, 0x40, // 7
        0xF0, 0x90, 0xF0, 0x90, 0xF0, // 8
        0xF0, 0x90, 0xF0, 0x10, 0xF0, // 9
        0xF0, 0x90, 0xF0, 0x90, 0x90, // A
        0xE0, 0x90, 0xE0, 0x90, 0xE0, // B
        0xF0, 0x80, 0x80, 0x80, 0xF0, // C
        0xE0, 0x90, 0x90, 0x90, 0xE0, // D
        0xF0, 0x80, 0xF0, 0x80, 0xF0, // E
        0xF0, 0x80, 0xF0, 0x80, 0x80, // F
    ]
}

/// The state of a freshly constructed machine: memory zeroed but for the
/// font sprites in the reserved low region, the program counter at the
/// program start, everything else cleared.
pub open spec fn initial_state() -> State {
    State {
        ram: Seq::new(RAM_SIZE as nat, |i: int| if i < 80 { font_sprites()[i] } else { 0u8 }),
        pc: PROGRAM_START,
        ir: 0,
        dt: 0,
        st: 0,
        stack: Seq::empty(),
        regs: Seq::new(16, |i: int| 0u8),
        vbuf: Seq::new(VBUF_SIZE as nat, |i: int| 0u8),
        history: Seq::empty(),
    }
}

/// An all-dark display bitmap.
pub open spec fn blank_vbuf() -> Seq<u8> {
    Seq::new(VBUF_SIZE as nat, |i: int| 0u8)
}

/// The big-endian opcode stored at address `a`.
pub open spec fn opcode_at(ram: Seq<u8>, a: int) -> u16 {
    ((ram[a] as u16) << 8) | (ram[a + 1] as u16)
}

/// Whether the logical pixel `(x, y)` is lit in a packed bitmap.
pub open spec fn spec_pixel(vbuf: Seq<u8>, x: u8, y: u8) -> bool {
    vbuf[x as int / 8 + 8 * (y as int)] & (0x80u8 >> (x % 8)) != 0
}

/// `Vx + Vy` truncated to 8 bits.
pub open spec fn sum_low(a: u8, b: u8) -> u8 {
    if a + b > 255 {
        (a + b - 256) as u8
    } else {
        (a + b) as u8
    }
}

/// The carry out of `Vx + Vy`: 1 exactly when the true sum exceeds 255.
pub open spec fn sum_carry(a: u8, b: u8) -> u8 {
    if a + b > 255 {
        1u8
    } else {
        0u8
    }
}

/// `a - b` wrapped to 8 bits.
pub open spec fn diff_low(a: u8, b: u8) -> u8 {
    if a >= b {
        (a - b) as u8
    } else {
        (a - b + 256) as u8
    }
}

/// The no-borrow flag of `a - b`: 1 exactly when `a >= b`, that is when the
/// 16-bit difference has nothing in its high byte.
pub open spec fn diff_no_borrow(a: u8, b: u8) -> u8 {
    if a >= b {
        1u8
    } else {
        0u8
    }
}

/// `I + Vx` truncated to 16 bits.
pub open spec fn index_add(ir: u16, v: u8) -> u16 {
    if ir + v > 0xffff {
        (ir + v - 0x10000) as u16
    } else {
        (ir + v) as u16
    }
}

/// XOR one sprite row into the bitmap: the row lands at byte column `bx`
/// with bit offset `off` on display row `yy`; when the offset is non-zero
/// and the row does not sit at the last byte column, the spilled bits go
/// into the following byte. Returns the new bitmap and whether any lit
/// pixel went dark.
pub open spec fn row_effect(vbuf: Seq<u8>, sprite: u8, bx: int, off: u8, yy: int) -> (
    Seq<u8>,
    bool,
) {
    let e = bx + 8 * yy;
    let b1 = vbuf[e];
    let n1 = b1 ^ (sprite >> off);
    let v1 = vbuf.update(e, n1);
    let hit1 = b1 & n1 != b1;
    if off > 0 && bx < 7 {
        let b2 = v1[e + 1];
        let n2 = b2 ^ (sprite << ((8 - off) as u8));
        let v2 = v1.update(e + 1, n2);
        let hit2 = b2 & n2 != b2;
        (v2, hit1 || hit2)
    } else {
        (v1, hit1)
    }
}

/// The bitmap and collision flag after the first `k` rows of a sprite draw:
/// row `r` is the byte at `I + r` and lands on display row `y + r`.
pub open spec fn draw_rows(
    vbuf: Seq<u8>,
    ram: Seq<u8>,
    ir: u16,
    bx: int,
    off: u8,
    y: int,
    k: nat,
) -> (Seq<u8>, bool)
    decreases k,
{
    if k == 0 {
        (vbuf, false)
    } else {
        let prev = draw_rows(vbuf, ram, ir, bx, off, y, (k - 1) as nat);
        let row = row_effect(prev.0, ram[ir + k - 1], bx, off, y + k - 1);
        (row.0, prev.1 || row.1)
    }
}

/// How many sprite rows a `Dxyn` draw actually touches: rows that would
/// fall below the display are cut off.
pub open spec fn draw_row_count(y: u8, n: u8) -> nat {
    if y >= 32 {
        0
    } else if y + n > 32 {
        (32 - y) as nat
    } else {
        n as nat
    }
}

/// The effect of a `Dxyn` draw on the whole state. The starting pixel is
/// `(px, py)`; a start in a byte column right of the display skips the draw
/// entirely, and rows reaching below the display are cut off. `VF` is
/// cleared first and set to 1 exactly when the draw turned a lit pixel
/// dark. Reading a sprite row from outside memory is a fault that leaves
/// the state unchanged.
pub open spec fn draw_effect(pre: State, x: u8, y: u8, n: u8) -> (State, StepOutcome) {
    let px = pre.regs[x as int];
    let py = pre.regs[y as int];
    if px >= 64 {
        (pre, StepOutcome::Continuing)
    } else {
        let rows = draw_row_count(py, n);
        if rows > 0 && pre.ir + rows - 1 >= RAM_SIZE {
            (pre, StepOutcome::Fault)
        } else {
            let drawn = draw_rows(pre.vbuf, pre.ram, pre.ir, px as int / 8, px % 8, py as int, rows);
            let flag: u8 = if drawn.1 {
                1u8
            } else {
                0u8
            };
            (
                State { vbuf: drawn.0, regs: pre.regs.update(15, flag), ..pre },
                StepOutcome::Continuing,
            )
        }
    }
}

/// Memory after pasting `bytes` over it starting at address `start`.
pub open spec fn overlay(ram: Seq<u8>, bytes: Seq<u8>, start: int) -> Seq<u8> {
    Seq::new(
        ram.len(),
        |i: int|
            if start <= i < start + bytes.len() {
                bytes[i - start]
            } else {
                ram[i]
            },
    )
}

/// Memory after storing `V0..=Vx` at addresses `I..=I+x`.
pub open spec fn store_regs_ram(ram: Seq<u8>, regs: Seq<u8>, ir: int, x: u8) -> Seq<u8> {
    Seq::new(ram.len(), |i: int| if ir <= i <= ir + x { regs[i - ir] } else { ram[i] })
}

/// Registers after loading `V0..=Vx` from addresses `I..=I+x`.
pub open spec fn load_regs_regs(ram: Seq<u8>, regs: Seq<u8>, ir: int, x: u8) -> Seq<u8> {
    Seq::new(regs.len(), |i: int| if i <= x { ram[ir + i] } else { regs[i] })
}

/// The exact effect of one decoded instruction on a state whose program
/// counter has already been advanced past the instruction. `rnd` is the
/// byte drawn from the random source; only `Cxkk` reads it.
pub open spec fn instr_effect(pre: State, i: Instr, rnd: u8) -> (State, StepOutcome) {
    match i {
        Instr::Cls => (State { vbuf: blank_vbuf(), ..pre }, StepOutcome::Continuing),
        Instr::Ret => {
            if pre.stack.len() == 0 {
                (pre, StepOutcome::Halted)
            } else {
                (
                    State { pc: pre.stack.last(), stack: pre.stack.drop_last(), ..pre },
                    StepOutcome::Continuing,
                )
            }
        },
        Instr::Jump { nnn } => (State { pc: nnn, ..pre }, StepOutcome::Continuing),
        Instr::Call { nnn } => {
            if pre.stack.len() >= STACK_LIMIT {
                (pre, StepOutcome::Fault)
            } else {
                (
                    State { pc: nnn, stack: pre.stack.push(pre.pc), ..pre },
                    StepOutcome::Continuing,
                )
            }
        },
        Instr::SkipEqImm { x, kk } => {
            if pre.regs[x as int] == kk {
                (State { pc: (pre.pc + 2) as u16, ..pre }, StepOutcome::Continuing)
            } else {
                (pre, StepOutcome::Continuing)
            }
        },
        Instr::SkipNeImm { x, kk } => {
            if pre.regs[x as int] != kk {
                (State { pc: (pre.pc + 2) as u16, ..pre }, StepOutcome::Continuing)
            } else {
                (pre, StepOutcome::Continuing)
            }
        },
        Instr::SkipEqReg { x, y } => {
            if pre.regs[x as int] == pre.regs[y as int] {
                (State { pc: (pre.pc + 2) as u16, ..pre }, StepOutcome::Continuing)
            } else {
                (pre, StepOutcome::Continuing)
            }
        },
        Instr::SkipNeReg { x, y } => {
            if pre.regs[x as int] != pre.regs[y as int] {
                (State { pc: (pre.pc + 2) as u16, ..pre }, StepOutcome::Continuing)
            } else {
                (pre, StepOutcome::Continuing)
            }
        },
        Instr::LoadImm { x, kk } => (
            State { regs: pre.regs.update(x as int, kk), ..pre },
            StepOutcome::Continuing,
        ),
        Instr::AddImm { x, kk } => (
            State { regs: pre.regs.update(x as int, sum_low(pre.regs[x as int], kk)), ..pre },
            StepOutcome::Continuing,
        ),
        Instr::Assign { x, y } => (
            State { regs: pre.regs.update(x as int, pre.regs[y as int]), ..pre },
            StepOutcome::Continuing,
        ),
        Instr::Or { x, y } => (
            State {
                regs: pre.regs.update(x as int, pre.regs[x as int] | pre.regs[y as int]),
                ..pre
            },
            StepOutcome::Continuing,
        ),
        Instr::And { x, y } => (
            State {
                regs: pre.regs.update(x as int, pre.regs[x as int] & pre.regs[y as int]),
                ..pre
            },
            StepOutcome::Continuing,
        ),
        Instr::Xor { x, y } => (
            State {
                regs: pre.regs.update(x as int, pre.regs[x as int] ^ pre.regs[y as int]),
                ..pre
            },
            StepOutcome::Continuing,
        ),
        Instr::Add { x, y } => {
            let a = pre.regs[x as int];
            let b = pre.regs[y as int];
            (
                State {
                    regs: pre.regs.update(x as int, sum_low(a, b)).update(15, sum_carry(a, b)),
                    ..pre
                },
                StepOutcome::Continuing,
            )
        },
        Instr::Sub { x, y } => {
            let a = pre.regs[x as int];
            let b = pre.regs[y as int];
            (
                State {
                    regs: pre.regs.update(x as int, diff_low(a, b)).update(
                        15,
                        diff_no_borrow(a, b),
                    ),
                    ..pre
                },
                StepOutcome::Continuing,
            )
        },
        Instr::SubRev { x, y } => {
            let a = pre.regs[x as int];
            let b = pre.regs[y as int];
            (
                State {
                    regs: pre.regs.update(x as int, diff_low(b, a)).update(
                        15,
                        diff_no_borrow(b, a),
                    ),
                    ..pre
                },
                StepOutcome::Continuing,
            )
        },
        Instr::ShiftRight { x } => {
            // The shifted-out bit reaches VF before Vx moves, so shifting
            // VF itself shifts the value just stored there.
            let flagged = pre.regs.update(15, pre.regs[x as int] & 1);
            (
                State { regs: flagged.update(x as int, flagged[x as int] >> 1u8), ..pre },
                StepOutcome::Continuing,
            )
        },
        Instr::ShiftLeft { x } => {
            let flagged = pre.regs.update(15, pre.regs[x as int] >> 7u8);
            (
                State { regs: flagged.update(x as int, flagged[x as int] << 1u8), ..pre },
                StepOutcome::Continuing,
            )
        },
        Instr::LoadIndex { nnn } => (State { ir: nnn, ..pre }, StepOutcome::Continuing),
        Instr::JumpPlus { nnn } => (
            State { pc: (pre.regs[0] + nnn) as u16, ..pre },
            StepOutcome::Continuing,
        ),
        Instr::Random { x, kk } => (
            State { regs: pre.regs.update(x as int, rnd & kk), ..pre },
            StepOutcome::Continuing,
        ),
        Instr::Draw { x, y, n } => draw_effect(pre, x, y, n),
        Instr::SkipKey { .. } => (pre, StepOutcome::Continuing),
        Instr::SkipNoKey { .. } => (pre, StepOutcome::Continuing),
        Instr::GetDelay { x } => (
            State { regs: pre.regs.update(x as int, pre.dt), ..pre },
            StepOutcome::Continuing,
        ),
        Instr::WaitKey { .. } => (pre, StepOutcome::Continuing),
        Instr::SetDelay { x } => (State { dt: pre.regs[x as int], ..pre }, StepOutcome::Continuing),
        Instr::SetSound { x } => (State { st: pre.regs[x as int], ..pre }, StepOutcome::Continuing),
        Instr::AddIndex { x } => (
            State { ir: index_add(pre.ir, pre.regs[x as int]), ..pre },
            StepOutcome::Continuing,
        ),
        Instr::FontSprite { .. } => (pre, StepOutcome::Continuing),
        Instr::Bcd { x } => {
            if pre.ir + 2 >= RAM_SIZE {
                (pre, StepOutcome::Fault)
            } else {
                let v = pre.regs[x as int];
                (
                    State {
                        ram: pre.ram.update(pre.ir as int, v / 100).update(
                            pre.ir + 1,
                            (v / 10) % 10,
                        ).update(pre.ir + 2, v % 10),
                        ..pre
                    },
                    StepOutcome::Continuing,
                )
            }
        },
        Instr::StoreRegs { x } => {
            if pre.ir + x >= RAM_SIZE {
                (pre, StepOutcome::Fault)
            } else {
                (
                    State { ram: store_regs_ram(pre.ram, pre.regs, pre.ir as int, x), ..pre },
                    StepOutcome::Continuing,
                )
            }
        },
        Instr::LoadRegs { x } => {
            if pre.ir + x >= RAM_SIZE {
                (pre, StepOutcome::Fault)
            } else {
                (
                    State { regs: load_regs_regs(pre.ram, pre.regs, pre.ir as int, x), ..pre },
                    StepOutcome::Continuing,
                )
            }
        },
        Instr::Unknown => (pre, StepOutcome::Continuing),
    }
}

/// The execution log after recording one more opcode: it grows until it
/// holds `HISTORY_LIMIT` entries and then stays as it is.
pub open spec fn record_opcode(h: Seq<u16>, ins: u16) -> Seq<u16> {
    if h.len() < HISTORY_LIMIT {
        h.push(ins)
    } else {
        h
    }
}

/// One whole cycle: halt if the program counter has run past the top of
/// memory, otherwise fetch the opcode, advance the counter by two, execute,
/// and record the opcode in the log.
pub open spec fn step_effect(pre: State, rnd: u8) -> (State, StepOutcome) {
    if pre.pc >= RAM_SIZE - 1 {
        (pre, StepOutcome::Halted)
    } else {
        let ins = opcode_at(pre.ram, pre.pc as int);
        let fetched = State { pc: (pre.pc + 2) as u16, ..pre };
        let done = instr_effect(fetched, spec_parse(ins), rnd);
        (State { history: record_opcode(done.0.history, ins), ..done.0 }, done.1)
    }
}

/// Whether the cycle taken from `pre` is independent of the random source:
/// every instruction but `Cxkk` is.
pub open spec fn step_deterministic(pre: State) -> bool {
    pre.pc >= RAM_SIZE - 1 || !(spec_parse(opcode_at(pre.ram, pre.pc as int)) is Random)
}

} // verus!
