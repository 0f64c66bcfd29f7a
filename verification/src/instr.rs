//! The CHIP-8 instruction word and its decoding.
//!
//! Every instruction is a 16-bit word. The top nibble selects a group; the
//! remaining nibbles carry register indices (`x`, `y`), an immediate byte
//! (`kk`), a 12-bit address (`nnn`) or a sprite height (`n`). Decoding is
//! shared by the interpreter (which treats unrecognized words as no-ops)
//! and the disassembler (which reports them as failures).

use vstd::prelude::*;

verus! {

/// A decoded CHIP-8 instruction.
#[derive(Clone, Copy, Debug, PartialEq, Eq, Structural)]
pub enum Instr {
    /// `00E0`: clear the display.
    Cls,
    /// `00EE`: return from a subroutine.
    Ret,
    /// `1nnn`: jump to `nnn`.
    Jump { nnn: u16 },
    /// `2nnn`: call the subroutine at `nnn`.
    Call { nnn: u16 },
    /// `3xkk`: skip the next instruction if `Vx == kk`.
    SkipEqImm { x: u8, kk: u8 },
    /// `4xkk`: skip the next instruction if `Vx != kk`.
    SkipNeImm { x: u8, kk: u8 },
    /// `5xy0`: skip the next instruction if `Vx == Vy`.
    SkipEqReg { x: u8, y: u8 },
    /// `6xkk`: `Vx := kk`.
    LoadImm { x: u8, kk: u8 },
    /// `7xkk`: `Vx := Vx + kk`, wrapping, no flag.
    AddImm { x: u8, kk: u8 },
    /// `8xy0`: `Vx := Vy`.
    Assign { x: u8, y: u8 },
    /// `8xy1`: `Vx := Vx | Vy`.
    Or { x: u8, y: u8 },
    /// `8xy2`: `Vx := Vx & Vy`.
    And { x: u8, y: u8 },
    /// `8xy3`: `Vx := Vx ^ Vy`.
    Xor { x: u8, y: u8 },
    /// `8xy4`: `Vx := Vx + Vy`, `VF` becomes the carry.
    Add { x: u8, y: u8 },
    /// `8xy5`: `Vx := Vx - Vy`, `VF` becomes the no-borrow flag.
    Sub { x: u8, y: u8 },
    /// `8xy7`: `Vx := Vy - Vx`, `VF` becomes the no-borrow flag.
    SubRev { x: u8, y: u8 },
    /// `8xy6`: shift `Vx` right by one; `VF` receives the shifted-out bit.
    ShiftRight { x: u8 },
    /// `8xyE`: shift `Vx` left by one; `VF` receives the shifted-out bit.
    ShiftLeft { x: u8 },
    /// `9xy0`: skip the next instruction if `Vx != Vy`.
    SkipNeReg { x: u8, y: u8 },
    /// `Annn`: `I := nnn`.
    LoadIndex { nnn: u16 },
    /// `Bnnn`: jump to `V0 + nnn`.
    JumpPlus { nnn: u16 },
    /// `Cxkk`: `Vx := random byte & kk`.
    Random { x: u8, kk: u8 },
    /// `Dxyn`: draw an `n`-row sprite at `(Vx, Vy)`.
    Draw { x: u8, y: u8, n: u8 },
    /// `Ex9E`: skip if the key in `Vx` is pressed (external collaborator).
    SkipKey { x: u8 },
    /// `ExA1`: skip if the key in `Vx` is not pressed (external collaborator).
    SkipNoKey { x: u8 },
    /// `Fx07`: `Vx := delay timer`.
    GetDelay { x: u8 },
    /// `Fx0A`: wait for a key press (external collaborator).
    WaitKey { x: u8 },
    /// `Fx15`: `delay timer := Vx`.
    SetDelay { x: u8 },
    /// `Fx18`: `sound timer := Vx`.
    SetSound { x: u8 },
    /// `Fx1E`: `I := I + Vx`, wrapping.
    AddIndex { x: u8 },
    /// `Fx29`: point `I` at the font sprite for digit `Vx` (defined no-op).
    FontSprite { x: u8 },
    /// `Fx33`: store the three decimal digits of `Vx` at `I`, `I+1`, `I+2`.
    Bcd { x: u8 },
    /// `Fx55`: store `V0..=Vx` to memory starting at `I`.
    StoreRegs { x: u8 },
    /// `Fx65`: load `V0..=Vx` from memory starting at `I`.
    LoadRegs { x: u8 },
    /// Any word outside the instruction table.
    Unknown,
}

/// The meaning of a 16-bit word as an instruction.
pub open spec fn spec_parse(ins: u16) -> Instr {
    let op: u16 = ins & 0xf000;
    let x: u8 = ((ins >> 8) & 0xf) as u8;
    let y: u8 = ((ins >> 4) & 0xf) as u8;
    let kk: u8 = (ins & 0xff) as u8;
    let nnn: u16 = ins & 0xfff;
    let n: u8 = (ins & 0xf) as u8;
    if op == 0x0000 {
        if kk == 0xe0 {
            Instr::Cls
        } else if kk == 0xee {
            Instr::Ret
        } else {
            Instr::Unknown
        }
    } else if op == 0x1000 {
        Instr::Jump { nnn }
    } else if op == 0x2000 {
        Instr::Call { nnn }
    } else if op == 0x3000 {
        Instr::SkipEqImm { x, kk }
    } else if op == 0x4000 {
        Instr::SkipNeImm { x, kk }
    } else if op == 0x5000 {
        Instr::SkipEqReg { x, y }
    } else if op == 0x6000 {
        Instr::LoadImm { x, kk }
    } else if op == 0x7000 {
        Instr::AddImm { x, kk }
    } else if op == 0x8000 {
        if n == 0x0 {
            Instr::Assign { x, y }
        } else if n == 0x1 {
            Instr::Or { x, y }
        } else if n == 0x2 {
            Instr::And { x, y }
        } else if n == 0x3 {
            Instr::Xor { x, y }
        } else if n == 0x4 {
            Instr::Add { x, y }
        } else if n == 0x5 {
            Instr::Sub { x, y }
        } else if n == 0x6 {
            Instr::ShiftRight { x }
        } else if n == 0x7 {
            Instr::SubRev { x, y }
        } else if n == 0xe {
            Instr::ShiftLeft { x }
        } else {
            Instr::Unknown
        }
    } else if op == 0x9000 {
        Instr::SkipNeReg { x, y }
    } else if op == 0xa000 {
        Instr::LoadIndex { nnn }
    } else if op == 0xb000 {
        Instr::JumpPlus { nnn }
    } else if op == 0xc000 {
        Instr::Random { x, kk }
    } else if op == 0xd000 {
        Instr::Draw { x, y, n }
    } else if op == 0xe000 {
        if kk == 0x9e {
            Instr::SkipKey { x }
        } else if kk == 0xa1 {
            Instr::SkipNoKey { x }
        } else {
            Instr::Unknown
        }
    } else if op == 0xf000 {
        if kk == 0x07 {
            Instr::GetDelay { x }
        } else if kk == 0x0a {
            Instr::WaitKey { x }
        } else if kk == 0x15 {
            Instr::SetDelay { x }
        } else if kk == 0x18 {
            Instr::SetSound { x }
        } else if kk == 0x1e {
            Instr::AddIndex { x }
        } else if kk == 0x29 {
            Instr::FontSprite { x }
        } else if kk == 0x33 {
            Instr::Bcd { x }
        } else if kk == 0x55 {
            Instr::StoreRegs { x }
        } else if kk == 0x65 {
            Instr::LoadRegs { x }
        } else {
            Instr::Unknown
        }
    } else {
        Instr::Unknown
    }
}

/// The operand fields extracted from an instruction word are nibble- or
/// byte-sized, so register indices are always below 16 and addresses below
/// 4096.
pub proof fn lemma_field_bounds(ins: u16)
    by (bit_vector)
    ensures
        (ins >> 8) & 0xf < 16,
        (ins >> 4) & 0xf < 16,
        ins & 0xf < 16,
        ins & 0xff < 256,
        ins & 0xfff < 4096,
{
}

/// Whatever instruction a word decodes to, its register indices are below
/// 16, its address below 4096 and its sprite height below 16.
pub proof fn lemma_parse_bounds(ins: u16)
    ensures
        match spec_parse(ins) {
            Instr::Jump { nnn } | Instr::Call { nnn } | Instr::LoadIndex { nnn }
            | Instr::JumpPlus { nnn } => nnn < 4096,
            Instr::SkipEqImm { x, .. } | Instr::SkipNeImm { x, .. } | Instr::LoadImm { x, .. }
            | Instr::AddImm { x, .. } | Instr::Random { x, .. } => x < 16,
            Instr::SkipEqReg { x, y } | Instr::SkipNeReg { x, y } | Instr::Assign { x, y }
            | Instr::Or { x, y } | Instr::And { x, y } | Instr::Xor { x, y }
            | Instr::Add { x, y } | Instr::Sub { x, y } | Instr::SubRev { x, y } => {
                x < 16 && y < 16
            },
            Instr::ShiftRight { x } | Instr::ShiftLeft { x } | Instr::SkipKey { x }
            | Instr::SkipNoKey { x } | Instr::GetDelay { x } | Instr::WaitKey { x }
            | Instr::SetDelay { x } | Instr::SetSound { x } | Instr::AddIndex { x }
            | Instr::FontSprite { x } | Instr::Bcd { x } | Instr::StoreRegs { x }
            | Instr::LoadRegs { x } => x < 16,
            Instr::Draw { x, y, n } => x < 16 && y < 16 && n < 16,
            Instr::Cls | Instr::Ret | Instr::Unknown => true,
        },
{
    lemma_field_bounds(ins);
}

/// Decode a 16-bit instruction word.
pub fn parse(ins: u16) -> (i: Instr)
    ensures
        i == spec_parse(ins),
{
    let op: u16 = ins & 0xf000;
    let x: u8 = ((ins >> 8) & 0xf) as u8;
    let y: u8 = ((ins >> 4) & 0xf) as u8;
    let kk: u8 = (ins & 0xff) as u8;
    let nnn: u16 = ins & 0xfff;
    let n: u8 = (ins & 0xf) as u8;
    proof {
        lemma_field_bounds(ins);
    }
    if op == 0x0000 {
        if kk == 0xe0 {
            Instr::Cls
        } else if kk == 0xee {
            Instr::Ret
        } else {
            Instr::Unknown
        }
    } else if op == 0x1000 {
        Instr::Jump { nnn }
    } else if op == 0x2000 {
        Instr::Call { nnn }
    } else if op == 0x3000 {
        Instr::SkipEqImm { x, kk }
    } else if op == 0x4000 {
        Instr::SkipNeImm { x, kk }
    } else if op == 0x5000 {
        Instr::SkipEqReg { x, y }
    } else if op == 0x6000 {
        Instr::LoadImm { x, kk }
    } else if op == 0x7000 {
        Instr::AddImm { x, kk }
    } else if op == 0x8000 {
        if n == 0x0 {
            Instr::Assign { x, y }
        } else if n == 0x1 {
            Instr::Or { x, y }
        } else if n == 0x2 {
            Instr::And { x, y }
        } else if n == 0x3 {
            Instr::Xor { x, y }
        } else if n == 0x4 {
            Instr::Add { x, y }
        } else if n == 0x5 {
            Instr::Sub { x, y }
        } else if n == 0x6 {
            Instr::ShiftRight { x }
        } else if n == 0x7 {
            Instr::SubRev { x, y }
        } else if n == 0xe {
            Instr::ShiftLeft { x }
        } else {
            Instr::Unknown
        }
    } else if op == 0x9000 {
        Instr::SkipNeReg { x, y }
    } else if op == 0xa000 {
        Instr::LoadIndex { nnn }
    } else if op == 0xb000 {
        Instr::JumpPlus { nnn }
    } else if op == 0xc000 {
        Instr::Random { x, kk }
    } else if op == 0xd000 {
        Instr::Draw { x, y, n }
    } else if op == 0xe000 {
        if kk == 0x9e {
            Instr::SkipKey { x }
        } else if kk == 0xa1 {
            Instr::SkipNoKey { x }
        } else {
            Instr::Unknown
        }
    } else if op == 0xf000 {
        if kk == 0x07 {
            Instr::GetDelay { x }
        } else if kk == 0x0a {
            Instr::WaitKey { x }
        } else if kk == 0x15 {
            Instr::SetDelay { x }
        } else if kk == 0x18 {
            Instr::SetSound { x }
        } else if kk == 0x1e {
            Instr::AddIndex { x }
        } else if kk == 0x29 {
            Instr::FontSprite { x }
        } else if kk == 0x33 {
            Instr::Bcd { x }
        } else if kk == 0x55 {
            Instr::StoreRegs { x }
        } else if kk == 0x65 {
            Instr::LoadRegs { x }
        } else {
            Instr::Unknown
        }
    } else {
        Instr::Unknown
    }
}

} // verus!
