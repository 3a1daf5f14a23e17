//! The disassembler: a pure, side-effect-free rendering of any opcode as a
//! fixed-width mnemonic line for diagnostics. It shares the decoder with the
//! executor, so both read the very same bit fields; bit patterns that match
//! no instruction render as the unknown sentinel, never an error.

use vstd::prelude::*;

use crate::cpu::Chip8;
use crate::instr::{decode, decode_spec, Instr};

verus! {

/// The uppercase hexadecimal digit for a value 0-15.
pub open spec fn hex_digit(n: int) -> char {
    if n == 0 {
        '0'
    } else if n == 1 {
        '1'
    } else if n == 2 {
        '2'
    } else if n == 3 {
        '3'
    } else if n == 4 {
        '4'
    } else if n == 5 {
        '5'
    } else if n == 6 {
        '6'
    } else if n == 7 {
        '7'
    } else if n == 8 {
        '8'
    } else if n == 9 {
        '9'
    } else if n == 10 {
        'A'
    } else if n == 11 {
        'B'
    } else if n == 12 {
        'C'
    } else if n == 13 {
        'D'
    } else if n == 14 {
        'E'
    } else {
        'F'
    }
}

/// The shortest uppercase hexadecimal rendering of a nonnegative value: no
/// leading zeros, a single "0" for zero itself.
pub open spec fn hex_seq(n: int) -> Seq<char>
    decreases n,
{
    if n < 16 {
        seq![hex_digit(n)]
    } else {
        hex_seq(n / 16).push(hex_digit(n % 16))
    }
}

/// The exact character sequence `disassemble` renders for an opcode.
pub open spec fn disasm_spec(op: u16) -> Seq<char> {
    match decode_spec(op) {
        Instr::Cls => "CLS"@,
        Instr::Ret => "RET"@,
        Instr::Sys(nnn) => "SYS  "@ + hex_seq(nnn as int),
        Instr::Jp(nnn) => "JMP  "@ + hex_seq(nnn as int),
        Instr::Call(nnn) => "CALL "@ + hex_seq(nnn as int),
        Instr::SeVxKk(x, kk) => "SE   V"@ + seq![hex_digit(x as int)] + ", "@ + hex_seq(kk as int),
        Instr::SneVxKk(x, kk) => "SNE  V"@ + seq![hex_digit(x as int)] + ", "@ + hex_seq(kk as int),
        Instr::SeVxVy(x, y) => "SE   V"@ + seq![hex_digit(x as int)] + ", V"@ + seq![
            hex_digit(y as int),
        ],
        Instr::LdVxKk(x, kk) => "LD   V"@ + seq![hex_digit(x as int)] + ", "@ + hex_seq(kk as int),
        Instr::AddVxKk(x, kk) => "ADD  V"@ + seq![hex_digit(x as int)] + ", "@ + hex_seq(kk as int),
        Instr::LdVxVy(x, y) => "LD   V"@ + seq![hex_digit(x as int)] + ", V"@ + seq![
            hex_digit(y as int),
        ],
        Instr::OrVxVy(x, y) => "OR   V"@ + seq![hex_digit(x as int)] + ", V"@ + seq![
            hex_digit(y as int),
        ],
        Instr::AndVxVy(x, y) => "AND  V"@ + seq![hex_digit(x as int)] + ", V"@ + seq![
            hex_digit(y as int),
        ],
        Instr::XorVxVy(x, y) => "XOR  V"@ + seq![hex_digit(x as int)] + ", V"@ + seq![
            hex_digit(y as int),
        ],
        Instr::AddVxVy(x, y) => "ADD  V"@ + seq![hex_digit(x as int)] + ", V"@ + seq![
            hex_digit(y as int),
        ],
        Instr::SubVxVy(x, y) => "SUB  V"@ + seq![hex_digit(x as int)] + ", V"@ + seq![
            hex_digit(y as int),
        ],
        Instr::ShrVx(x) => "SHR  V"@ + seq![hex_digit(x as int)],
        Instr::SubnVxVy(x, y) => "SUBN V"@ + seq![hex_digit(x as int)] + ", V"@ + seq![
            hex_digit(y as int),
        ],
        Instr::ShlVx(x) => "SHL  V"@ + seq![hex_digit(x as int)],
        Instr::SneVxVy(x, y) => "SNE  V"@ + seq![hex_digit(x as int)] + ", V"@ + seq![
            hex_digit(y as int),
        ],
        Instr::LdINnn(nnn) => "LD   I, "@ + hex_seq(nnn as int),
        Instr::JpV0Nnn(nnn) => "JMP  V0, "@ + hex_seq(nnn as int),
        Instr::RndVxKk(x, kk) => "RND  V"@ + seq![hex_digit(x as int)] + ", "@ + hex_seq(kk as int),
        Instr::DrwVxVyN(x, y, n) => "DRW  V"@ + seq![hex_digit(x as int)] + ", V"@ + seq![
            hex_digit(y as int),
        ] + ", "@ + seq![hex_digit(n as int)],
        Instr::SkpVx(x) => "SKP  V"@ + seq![hex_digit(x as int)],
        Instr::SknpVx(x) => "SKPN V"@ + seq![hex_digit(x as int)],
        Instr::LdVxDt(x) => "LD   V"@ + seq![hex_digit(x as int)] + ", DT"@,
        Instr::LdVxK(x) => "LD   V"@ + seq![hex_digit(x as int)] + ", KEY"@,
        Instr::LdDtVx(x) => "LD   DT, V"@ + seq![hex_digit(x as int)],
        Instr::LdStVx(x) => "LD   ST, V"@ + seq![hex_digit(x as int)],
        Instr::AddIVx(x) => "ADD  I, V"@ + seq![hex_digit(x as int)],
        Instr::LdFVx(x) => "LD   F, V"@ + seq![hex_digit(x as int)],
        Instr::LdBVx(x) => "LD   B, V"@ + seq![hex_digit(x as int)],
        Instr::LdIVx(x) => "LD   [I], V"@ + seq![hex_digit(x as int)],
        Instr::LdVxI(x) => "LD   V"@ + seq![hex_digit(x as int)] + ", [I]"@,
        Instr::Unknown => "-- Unknown --"@,
    }
}

/// Append the single uppercase hexadecimal digit for a value 0-15.
fn append_hex_digit(s: &mut String, n: u8)
    requires
        n < 16,
    ensures
        final(s)@ == old(s)@ + seq![hex_digit(n as int)],
{
    if n == 0 {
        proof {
            reveal_strlit("0");
        }
        s.append("0");
    } else if n == 1 {
        proof {
            reveal_strlit("1");
        }
        s.append("1");
    } else if n == 2 {
        proof {
            reveal_strlit("2");
        }
        s.append("2");
    } else if n == 3 {
        proof {
            reveal_strlit("3");
        }
        s.append("3");
    } else if n == 4 {
        proof {
            reveal_strlit("4");
        }
        s.append("4");
    } else if n == 5 {
        proof {
            reveal_strlit("5");
        }
        s.append("5");
    } else if n == 6 {
        proof {
            reveal_strlit("6");
        }
        s.append("6");
    } else if n == 7 {
        proof {
            reveal_strlit("7");
        }
        s.append("7");
    } else if n == 8 {
        proof {
            reveal_strlit("8");
        }
        s.append("8");
    } else if n == 9 {
        proof {
            reveal_strlit("9");
        }
        s.append("9");
    } else if n == 10 {
        proof {
            reveal_strlit("A");
        }
        s.append("A");
    } else if n == 11 {
        proof {
            reveal_strlit("B");
        }
        s.append("B");
    } else if n == 12 {
        proof {
            reveal_strlit("C");
        }
        s.append("C");
    } else if n == 13 {
        proof {
            reveal_strlit("D");
        }
        s.append("D");
    } else if n == 14 {
        proof {
            reveal_strlit("E");
        }
        s.append("E");
    } else {
        proof {
            reveal_strlit("F");
        }
        s.append("F");
    }
    proof {
        assert(s@ =~= old(s)@ + seq![hex_digit(n as int)]);
    }
}

/// Append the shortest uppercase hexadecimal rendering of a value.
fn append_hex(s: &mut String, n: u16)
    ensures
        final(s)@ == old(s)@ + hex_seq(n as int),
    decreases n,
{
    if n < 16 {
        append_hex_digit(s, n as u8);
    } else {
        append_hex(s, n / 16);
        append_hex_digit(s, (n % 16) as u8);
        proof {
            assert(s@ =~= old(s)@ + hex_seq(n as int));
        }
    }
}

impl Chip8 {
    /// Render an opcode as its diagnostic mnemonic line. Pure: the CPU
    /// state plays no part, and every 16-bit pattern renders — unmatched
    /// ones as the unknown sentinel.
    pub fn disassemble(&self, op_code: u16) -> (s: String)
        ensures
            s@ == disasm_spec(op_code),
    {
        let instr = decode(op_code);
        let mut s = String::new();
        match instr {
            Instr::Cls => {
                s.append("CLS");
            },
            Instr::Ret => {
                s.append("RET");
            },
            Instr::Sys(nnn) => {
                s.append("SYS  ");
                append_hex(&mut s, nnn);
            },
            Instr::Jp(nnn) => {
                s.append("JMP  ");
                append_hex(&mut s, nnn);
            },
            Instr::Call(nnn) => {
                s.append("CALL ");
                append_hex(&mut s, nnn);
            },
            Instr::SeVxKk(x, kk) => {
                s.append("SE   V");
                append_hex_digit(&mut s, x);
                s.append(", ");
                append_hex(&mut s, kk as u16);
            },
            Instr::SneVxKk(x, kk) => {
                s.append("SNE  V");
                append_hex_digit(&mut s, x);
                s.append(", ");
                append_hex(&mut s, kk as u16);
            },
            Instr::SeVxVy(x, y) => {
                s.append("SE   V");
                append_hex_digit(&mut s, x);
                s.append(", V");
                append_hex_digit(&mut s, y);
            },
            Instr::LdVxKk(x, kk) => {
                s.append("LD   V");
                append_hex_digit(&mut s, x);
                s.append(", ");
                append_hex(&mut s, kk as u16);
            },
            Instr::AddVxKk(x, kk) => {
                s.append("ADD  V");
                append_hex_digit(&mut s, x);
                s.append(", ");
                append_hex(&mut s, kk as u16);
            },
            Instr::LdVxVy(x, y) => {
                s.append("LD   V");
                append_hex_digit(&mut s, x);
                s.append(", V");
                append_hex_digit(&mut s, y);
            },
            Instr::OrVxVy(x, y) => {
                s.append("OR   V");
                append_hex_digit(&mut s, x);
                s.append(", V");
                append_hex_digit(&mut s, y);
            },
            Instr::AndVxVy(x, y) => {
                s.append("AND  V");
                append_hex_digit(&mut s, x);
                s.append(", V");
                append_hex_digit(&mut s, y);
            },
            Instr::XorVxVy(x, y) => {
                s.append("XOR  V");
                append_hex_digit(&mut s, x);
                s.append(", V");
                append_hex_digit(&mut s, y);
            },
            Instr::AddVxVy(x, y) => {
                s.append("ADD  V");
                append_hex_digit(&mut s, x);
                s.append(", V");
                append_hex_digit(&mut s, y);
            },
            Instr::SubVxVy(x, y) => {
                s.append("SUB  V");
                append_hex_digit(&mut s, x);
                s.append(", V");
                append_hex_digit(&mut s, y);
            },
            Instr::ShrVx(x) => {
                s.append("SHR  V");
                append_hex_digit(&mut s, x);
            },
            Instr::SubnVxVy(x, y) => {
                s.append("SUBN V");
                append_hex_digit(&mut s, x);
                s.append(", V");
                append_hex_digit(&mut s, y);
            },
            Instr::ShlVx(x) => {
                s.append("SHL  V");
                append_hex_digit(&mut s, x);
            },
            Instr::SneVxVy(x, y) => {
                s.append("SNE  V");
                append_hex_digit(&mut s, x);
                s.append(", V");
                append_hex_digit(&mut s, y);
            },
            Instr::LdINnn(nnn) => {
                s.append("LD   I, ");
                append_hex(&mut s, nnn);
            },
            Instr::JpV0Nnn(nnn) => {
                s.append("JMP  V0, ");
                append_hex(&mut s, nnn);
            },
            Instr::RndVxKk(x, kk) => {
                s.append("RND  V");
                append_hex_digit(&mut s, x);
                s.append(", ");
                append_hex(&mut s, kk as u16);
            },
            Instr::DrwVxVyN(x, y, n) => {
                s.append("DRW  V");
                append_hex_digit(&mut s, x);
                s.append(", V");
                append_hex_digit(&mut s, y);
                s.append(", ");
                append_hex_digit(&mut s, n);
            },
            Instr::SkpVx(x) => {
                s.append("SKP  V");
                append_hex_digit(&mut s, x);
            },
            Instr::SknpVx(x) => {
                s.append("SKPN V");
                append_hex_digit(&mut s, x);
            },
            Instr::LdVxDt(x) => {
                s.append("LD   V");
                append_hex_digit(&mut s, x);
                s.append(", DT");
            },
            Instr::LdVxK(x) => {
                s.append("LD   V");
                append_hex_digit(&mut s, x);
                s.append(", KEY");
            },
            Instr::LdDtVx(x) => {
                s.append("LD   DT, V");
                append_hex_digit(&mut s, x);
            },
            Instr::LdStVx(x) => {
                s.append("LD   ST, V");
                append_hex_digit(&mut s, x);
            },
            Instr::AddIVx(x) => {
                s.append("ADD  I, V");
                append_hex_digit(&mut s, x);
            },
            Instr::LdFVx(x) => {
                s.append("LD   F, V");
                append_hex_digit(&mut s, x);
            },
            Instr::LdBVx(x) => {
                s.append("LD   B, V");
                append_hex_digit(&mut s, x);
            },
            Instr::LdIVx(x) => {
                s.append("LD   [I], V");
                append_hex_digit(&mut s, x);
            },
            Instr::LdVxI(x) => {
                s.append("LD   V");
                append_hex_digit(&mut s, x);
                s.append(", [I]");
            },
            Instr::Unknown => {
                s.append("-- Unknown --");
            },
        }
        proof {
            assert(s@ =~= disasm_spec(op_code));
        }
        s
    }
}

} // verus!
