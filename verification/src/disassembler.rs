//! The disassembler: a pure rendering of an instruction word as a mnemonic
//! with formatted operands. It mirrors the interpreter's dispatch table but
//! produces text instead of executing; unlike the interpreter, which
//! treats an unrecognized word as a no-op, it reports such a word as a
//! decode failure, since its purpose is diagnostic fidelity.

use vstd::prelude::*;
use crate::instr::{Instr, spec_parse, parse, lemma_parse_bounds, lemma_field_bounds};

verus! {

/// The text of one hexadecimal digit, uppercase.
pub open spec fn spec_hex_digit(v: u8) -> Seq<char> {
    if v == 0 {
        "0"@
    } else if v == 1 {
        "1"@
    } else if v == 2 {
        "2"@
    } else if v == 3 {
        "3"@
    } else if v == 4 {
        "4"@
    } else if v == 5 {
        "5"@
    } else if v == 6 {
        "6"@
    } else if v == 7 {
        "7"@
    } else if v == 8 {
        "8"@
    } else if v == 9 {
        "9"@
    } else if v == 10 {
        "A"@
    } else if v == 11 {
        "B"@
    } else if v == 12 {
        "C"@
    } else if v == 13 {
        "D"@
    } else if v == 14 {
        "E"@
    } else {
        "F"@
    }
}

/// The uppercase hexadecimal text of a value, without leading zeros.
pub open spec fn spec_hex(v: u16) -> Seq<char>
    decreases v,
{
    if v < 16 {
        spec_hex_digit(v as u8)
    } else {
        spec_hex(v / 16) + spec_hex_digit((v % 16) as u8)
    }
}

/// The text `decode` produces for an instruction word; `None` for a word
/// outside the instruction table.
pub open spec fn spec_decode(ins: u16) -> Option<Seq<char>> {
    let y = ((ins >> 4) & 0xf) as u8;
    match spec_parse(ins) {
        Instr::Cls => Some("CLS"@),
        Instr::Ret => Some("RET"@),
        Instr::Jump { nnn } => Some("JP "@ + spec_hex(nnn)),
        Instr::Call { nnn } => Some("SYS "@ + spec_hex(nnn)),
        Instr::SkipEqImm { x, kk } => Some(
            "SE V"@ + spec_hex_digit(x) + ", "@ + spec_hex(kk as u16),
        ),
        Instr::SkipNeImm { x, kk } => Some(
            "SNE V"@ + spec_hex_digit(x) + ", "@ + spec_hex(kk as u16),
        ),
        Instr::SkipEqReg { x, y } => Some("SE V"@ + spec_hex_digit(x) + ", V"@ + spec_hex_digit(y)),
        Instr::LoadImm { x, kk } => Some(
            "LD V"@ + spec_hex_digit(x) + ", "@ + spec_hex(kk as u16),
        ),
        Instr::AddImm { x, kk } => Some(
            "ADD V"@ + spec_hex_digit(x) + ", "@ + spec_hex(kk as u16),
        ),
        Instr::Assign { x, y } => Some("LD V"@ + spec_hex_digit(x) + ", V"@ + spec_hex_digit(y)),
        Instr::Or { x, y } => Some("OR V"@ + spec_hex_digit(x) + ", V"@ + spec_hex_digit(y)),
        Instr::And { x, y } => Some("AND V"@ + spec_hex_digit(x) + ", V"@ + spec_hex_digit(y)),
        Instr::Xor { x, y } => Some("XOR V"@ + spec_hex_digit(x) + ", V"@ + spec_hex_digit(y)),
        Instr::Add { x, y } => Some("ADD V"@ + spec_hex_digit(x) + ", V"@ + spec_hex_digit(y)),
        Instr::Sub { x, y } => Some("SUB V"@ + spec_hex_digit(x) + ", V"@ + spec_hex_digit(y)),
        Instr::ShiftRight { x } => Some("SHR V"@ + spec_hex_digit(x) + ", V"@ + spec_hex_digit(y)),
        Instr::SubRev { x, y } => Some("SUBN V"@ + spec_hex_digit(x) + ", V"@ + spec_hex_digit(y)),
        Instr::ShiftLeft { x } => Some("SHL V"@ + spec_hex_digit(x) + ", V"@ + spec_hex_digit(y)),
        Instr::SkipNeReg { x, y } => Some(
            "SNE V"@ + spec_hex_digit(x) + ", V"@ + spec_hex_digit(y),
        ),
        Instr::LoadIndex { nnn } => Some("LD I, "@ + spec_hex(nnn)),
        Instr::JumpPlus { nnn } => Some("JP V0, "@ + spec_hex(nnn)),
        Instr::Random { x, kk } => Some(
            "RND V"@ + spec_hex_digit(x) + ", "@ + spec_hex(kk as u16),
        ),
        Instr::Draw { x, y, n } => Some(
            "DRW V"@ + spec_hex_digit(x) + ", V"@ + spec_hex_digit(y) + ", "@ + spec_hex(n as u16),
        ),
        Instr::SkipKey { x } => Some("SKP V"@ + spec_hex_digit(x)),
        Instr::SkipNoKey { x } => Some("SKNP V"@ + spec_hex_digit(x)),
        Instr::GetDelay { x } => Some("LD V"@ + spec_hex_digit(x) + ", DT"@),
        Instr::WaitKey { x } => Some("LD V"@ + spec_hex_digit(x) + ", K"@),
        Instr::SetDelay { x } => Some("LD DT, V"@ + spec_hex_digit(x)),
        Instr::SetSound { x } => Some("LD ST, V"@ + spec_hex_digit(x)),
        Instr::AddIndex { x } => Some("ADD I, V"@ + spec_hex_digit(x)),
        Instr::FontSprite { x } => Some("LD F, V"@ + spec_hex_digit(x)),
        Instr::Bcd { x } => Some("LD B, V"@ + spec_hex_digit(x)),
        Instr::StoreRegs { x } => Some("LD [I], V"@ + spec_hex_digit(x)),
        Instr::LoadRegs { x } => Some("LD V"@ + spec_hex_digit(x) + ", [I]"@),
        Instr::Unknown => None,
    }
}

/// One hexadecimal digit as text, uppercase.
fn hex_digit_str(v: u8) -> (r: &'static str)
    requires
        v < 16,
    ensures
        r@ == spec_hex_digit(v),
{
    if v == 0 {
        "0"
    } else if v == 1 {
        "1"
    } else if v == 2 {
        "2"
    } else if v == 3 {
        "3"
    } else if v == 4 {
        "4"
    } else if v == 5 {
        "5"
    } else if v == 6 {
        "6"
    } else if v == 7 {
        "7"
    } else if v == 8 {
        "8"
    } else if v == 9 {
        "9"
    } else if v == 10 {
        "A"
    } else if v == 11 {
        "B"
    } else if v == 12 {
        "C"
    } else if v == 13 {
        "D"
    } else if v == 14 {
        "E"
    } else {
        "F"
    }
}

/// Append the uppercase hexadecimal text of `v`, without leading zeros.
fn push_hex(s: &mut String, v: u16)
    ensures
        final(s)@ == old(s)@ + spec_hex(v),
    decreases v,
{
    if v < 16 {
        s.append(hex_digit_str(v as u8));
    } else {
        push_hex(s, v / 16);
        s.append(hex_digit_str((v % 16) as u8));
        proof {
            assert(s@ =~= old(s)@ + spec_hex(v));
        }
    }
}

/// Render an instruction word as its mnemonic with formatted operands:
/// register names as `V` plus a hexadecimal nibble, immediate values as
/// uppercase hexadecimal. A word outside the instruction table is a
/// decode failure, reported as `None`.
pub fn decode(ins: u16) -> (r: Option<String>)
    ensures
        r is Some <==> spec_decode(ins) is Some,
        r is Some ==> r->Some_0@ == spec_decode(ins)->Some_0,
{
    proof {
        lemma_parse_bounds(ins);
        lemma_field_bounds(ins);
    }
    let y_field: u8 = ((ins >> 4) & 0xf) as u8;
    let i = parse(ins);
    match i {
        Instr::Cls => Some(String::from_str("CLS")),
        Instr::Ret => Some(String::from_str("RET")),
        Instr::Jump { nnn } => {
            let mut s = String::from_str("JP ");
            push_hex(&mut s, nnn);
            proof {
                assert(s@ =~= spec_decode(ins)->Some_0);
            }
            Some(s)
        },
        Instr::Call { nnn } => {
            let mut s = String::from_str("SYS ");
            push_hex(&mut s, nnn);
            proof {
                assert(s@ =~= spec_decode(ins)->Some_0);
            }
            Some(s)
        },
        Instr::SkipEqImm { x, kk } => {
            let mut s = String::from_str("SE V");
            s.append(hex_digit_str(x));
            s.append(", ");
            push_hex(&mut s, kk as u16);
            proof {
                assert(s@ =~= spec_decode(ins)->Some_0);
            }
            Some(s)
        },
        Instr::SkipNeImm { x, kk } => {
            let mut s = String::from_str("SNE V");
            s.append(hex_digit_str(x));
            s.append(", ");
            push_hex(&mut s, kk as u16);
            proof {
                assert(s@ =~= spec_decode(ins)->Some_0);
            }
            Some(s)
        },
        Instr::SkipEqReg { x, y } => {
            let mut s = String::from_str("SE V");
            s.append(hex_digit_str(x));
            s.append(", V");
            s.append(hex_digit_str(y));
            proof {
                assert(s@ =~= spec_decode(ins)->Some_0);
            }
            Some(s)
        },
        Instr::LoadImm { x, kk } => {
            let mut s = String::from_str("LD V");
            s.append(hex_digit_str(x));
            s.append(", ");
            push_hex(&mut s, kk as u16);
            proof {
                assert(s@ =~= spec_decode(ins)->Some_0);
            }
            Some(s)
        },
        Instr::AddImm { x, kk } => {
            let mut s = String::from_str("ADD V");
            s.append(hex_digit_str(x));
            s.append(", ");
            push_hex(&mut s, kk as u16);
            proof {
                assert(s@ =~= spec_decode(ins)->Some_0);
            }
            Some(s)
        },
        Instr::Assign { x, y } => {
            let mut s = String::from_str("LD V");
            s.append(hex_digit_str(x));
            s.append(", V");
            s.append(hex_digit_str(y));
            proof {
                assert(s@ =~= spec_decode(ins)->Some_0);
            }
            Some(s)
        },
        Instr::Or { x, y } => {
            let mut s = String::from_str("OR V");
            s.append(hex_digit_str(x));
            s.append(", V");
            s.append(hex_digit_str(y));
            proof {
                assert(s@ =~= spec_decode(ins)->Some_0);
            }
            Some(s)
        },
        Instr::And { x, y } => {
            let mut s = String::from_str("AND V");
            s.append(hex_digit_str(x));
            s.append(", V");
            s.append(hex_digit_str(y));
            proof {
                assert(s@ =~= spec_decode(ins)->Some_0);
            }
            Some(s)
        },
        Instr::Xor { x, y } => {
            let mut s = String::from_str("XOR V");
            s.append(hex_digit_str(x));
            s.append(", V");
            s.append(hex_digit_str(y));
            proof {
                assert(s@ =~= spec_decode(ins)->Some_0);
            }
            Some(s)
        },
        Instr::Add { x, y } => {
            let mut s = String::from_str("ADD V");
            s.append(hex_digit_str(x));
            s.append(", V");
            s.append(hex_digit_str(y));
            proof {
                assert(s@ =~= spec_decode(ins)->Some_0);
            }
            Some(s)
        },
        Instr::Sub { x, y } => {
            let mut s = String::from_str("SUB V");
            s.append(hex_digit_str(x));
            s.append(", V");
            s.append(hex_digit_str(y));
            proof {
                assert(s@ =~= spec_decode(ins)->Some_0);
            }
            Some(s)
        },
        Instr::ShiftRight { x } => {
            let mut s = String::from_str("SHR V");
            s.append(hex_digit_str(x));
            s.append(", V");
            s.append(hex_digit_str(y_field));
            proof {
                assert(s@ =~= spec_decode(ins)->Some_0);
            }
            Some(s)
        },
        Instr::SubRev { x, y } => {
            let mut s = String::from_str("SUBN V");
            s.append(hex_digit_str(x));
            s.append(", V");
            s.append(hex_digit_str(y));
            proof {
                assert(s@ =~= spec_decode(ins)->Some_0);
            }
            Some(s)
        },
        Instr::ShiftLeft { x } => {
            let mut s = String::from_str("SHL V");
            s.append(hex_digit_str(x));
            s.append(", V");
            s.append(hex_digit_str(y_field));
            proof {
                assert(s@ =~= spec_decode(ins)->Some_0);
            }
            Some(s)
        },
        Instr::SkipNeReg { x, y } => {
            let mut s = String::from_str("SNE V");
            s.append(hex_digit_str(x));
            s.append(", V");
            s.append(hex_digit_str(y));
            proof {
                assert(s@ =~= spec_decode(ins)->Some_0);
            }
            Some(s)
        },
        Instr::LoadIndex { nnn } => {
            let mut s = String::from_str("LD I, ");
            push_hex(&mut s, nnn);
            proof {
                assert(s@ =~= spec_decode(ins)->Some_0);
            }
            Some(s)
        },
        Instr::JumpPlus { nnn } => {
            let mut s = String::from_str("JP V0, ");
            push_hex(&mut s, nnn);
            proof {
                assert(s@ =~= spec_decode(ins)->Some_0);
            }
            Some(s)
        },
        Instr::Random { x, kk } => {
            let mut s = String::from_str("RND V");
            s.append(hex_digit_str(x));
            s.append(", ");
            push_hex(&mut s, kk as u16);
            proof {
                assert(s@ =~= spec_decode(ins)->Some_0);
            }
            Some(s)
        },
        Instr::Draw { x, y, n } => {
            let mut s = String::from_str("DRW V");
            s.append(hex_digit_str(x));
            s.append(", V");
            s.append(hex_digit_str(y));
            s.append(", ");
            push_hex(&mut s, n as u16);
            proof {
                assert(s@ =~= spec_decode(ins)->Some_0);
            }
            Some(s)
        },
        Instr::SkipKey { x } => {
            let mut s = String::from_str("SKP V");
            s.append(hex_digit_str(x));
            proof {
                assert(s@ =~= spec_decode(ins)->Some_0);
            }
            Some(s)
        },
        Instr::SkipNoKey { x } => {
            let mut s = String::from_str("SKNP V");
            s.append(hex_digit_str(x));
            proof {
                assert(s@ =~= spec_decode(ins)->Some_0);
            }
            Some(s)
        },
        Instr::GetDelay { x } => {
            let mut s = String::from_str("LD V");
            s.append(hex_digit_str(x));
            s.append(", DT");
            proof {
                assert(s@ =~= spec_decode(ins)->Some_0);
            }
            Some(s)
        },
        Instr::WaitKey { x } => {
            let mut s = String::from_str("LD V");
            s.append(hex_digit_str(x));
            s.append(", K");
            proof {
                assert(s@ =~= spec_decode(ins)->Some_0);
            }
            Some(s)
        },
        Instr::SetDelay { x } => {
            let mut s = String::from_str("LD DT, V");
            s.append(hex_digit_str(x));
            proof {
                assert(s@ =~= spec_decode(ins)->Some_0);
            }
            Some(s)
        },
        Instr::SetSound { x } => {
            let mut s = String::from_str("LD ST, V");
            s.append(hex_digit_str(x));
            proof {
                assert(s@ =~= spec_decode(ins)->Some_0);
            }
            Some(s)
        },
        Instr::AddIndex { x } => {
            let mut s = String::from_str("ADD I, V");
            s.append(hex_digit_str(x));
            proof {
                assert(s@ =~= spec_decode(ins)->Some_0);
            }
            Some(s)
        },
        Instr::FontSprite { x } => {
            let mut s = String::from_str("LD F, V");
            s.append(hex_digit_str(x));
            proof {
                assert(s@ =~= spec_decode(ins)->Some_0);
            }
            Some(s)
        },
        Instr::Bcd { x } => {
            let mut s = String::from_str("LD B, V");
            s.append(hex_digit_str(x));
            proof {
                assert(s@ =~= spec_decode(ins)->Some_0);
            }
            Some(s)
        },
        Instr::StoreRegs { x } => {
            let mut s = String::from_str("LD [I], V");
            s.append(hex_digit_str(x));
            proof {
                assert(s@ =~= spec_decode(ins)->Some_0);
            }
            Some(s)
        },
        Instr::LoadRegs { x } => {
            let mut s = String::from_str("LD V");
            s.append(hex_digit_str(x));
            s.append(", [I]");
            proof {
                assert(s@ =~= spec_decode(ins)->Some_0);
            }
            Some(s)
        },
        Instr::Unknown => None,
    }
}

} // verus!
