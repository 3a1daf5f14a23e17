//! Opcode decoding. Every instruction is a big-endian 16-bit word, split into
//! four 4-bit nibbles, a 12-bit address field `nnn` and an 8-bit immediate
//! `kk`. `decode` parses a word once into a closed set of variants; the
//! executor and the disassembler both dispatch on that decomposition, so the
//! bit-field extraction lives in exactly one place.

use vstd::prelude::*;

verus! {

/// One decoded instruction. Register indices `x` and `y` come from the second
/// and third nibbles and are always below 16; `nnn` is below 0x1000.
/// Bit patterns that match no instruction decode to `Unknown`, which executes
/// as a no-op (the permissive behaviour of the hardware).
#[derive(Clone, Copy, Debug, PartialEq, Eq, Structural)]
pub enum Instr {
    /// 00E0: clear the display.
    Cls,
    /// 00EE: return from a subroutine.
    Ret,
    /// 0nnn: system jump (treated as a jump to `nnn`).
    Sys(u16),
    /// 1nnn: jump to `nnn`.
    Jp(u16),
    /// 2nnn: call the subroutine at `nnn`.
    Call(u16),
    /// 3xkk: skip the next instruction if `Vx == kk`.
    SeVxKk(u8, u8),
    /// 4xkk: skip the next instruction if `Vx != kk`.
    SneVxKk(u8, u8),
    /// 5xy0: skip the next instruction if `Vx == Vy`.
    SeVxVy(u8, u8),
    /// 6xkk: load `kk` into `Vx`.
    LdVxKk(u8, u8),
    /// 7xkk: add `kk` to `Vx`, wrapping, flag untouched.
    AddVxKk(u8, u8),
    /// 8xy0: copy `Vy` into `Vx`.
    LdVxVy(u8, u8),
    /// 8xy1: `Vx |= Vy`.
    OrVxVy(u8, u8),
    /// 8xy2: `Vx &= Vy`.
    AndVxVy(u8, u8),
    /// 8xy3: `Vx ^= Vy`.
    XorVxVy(u8, u8),
    /// 8xy4: `Vx += Vy`, flag register set to 1 on overflow else 0.
    AddVxVy(u8, u8),
    /// 8xy5: `Vx -= Vy`, flag register set to 1 iff `Vx > Vy` beforehand.
    SubVxVy(u8, u8),
    /// 8xy6: shift `Vx` right by one, flag receives the old low bit.
    ShrVx(u8),
    /// 8xy7: `Vx = Vy - Vx`, flag register set to 1 iff `Vy > Vx` beforehand.
    SubnVxVy(u8, u8),
    /// 8xyE: shift `Vx` left by one, flag receives the old high bit.
    ShlVx(u8),
    /// 9xy0: skip the next instruction if `Vx != Vy`.
    SneVxVy(u8, u8),
    /// Annn: load `nnn` into the index register.
    LdINnn(u16),
    /// Bnnn: jump to `nnn + V0`.
    JpV0Nnn(u16),
    /// Cxkk: load a random byte masked by `kk` into `Vx`.
    RndVxKk(u8, u8),
    /// Dxyn: draw the `n`-row sprite at the index register to `(Vx, Vy)`.
    DrwVxVyN(u8, u8, u8),
    /// Ex9E: skip the next instruction if the key numbered by `Vx` is down.
    SkpVx(u8),
    /// ExA1: skip the next instruction if the key numbered by `Vx` is up.
    SknpVx(u8),
    /// Fx07: load the delay timer into `Vx`.
    LdVxDt(u8),
    /// Fx0A: block until a key is down, then load its index into `Vx`.
    LdVxK(u8),
    /// Fx15: load `Vx` into the delay timer.
    LdDtVx(u8),
    /// Fx18: load `Vx` into the sound timer.
    LdStVx(u8),
    /// Fx1E: add `Vx` to the index register, wrapping.
    AddIVx(u8),
    /// Fx29: point the index register at the font glyph for `Vx`.
    LdFVx(u8),
    /// Fx33: write the decimal digits of `Vx` at the index register.
    LdBVx(u8),
    /// Fx55: store `V0..=Vx` to memory at the index register.
    LdIVx(u8),
    /// Fx65: load `V0..=Vx` from memory at the index register.
    LdVxI(u8),
    /// Any bit pattern that matches none of the above.
    Unknown,
}

/// The leading nibble of an opcode.
pub open spec fn nib1(op: u16) -> u8 {
    (op / 0x1000) as u8
}

/// The second nibble of an opcode: the `x` register index.
pub open spec fn nib2(op: u16) -> u8 {
    ((op / 0x100) % 16) as u8
}

/// The third nibble of an opcode: the `y` register index.
pub open spec fn nib3(op: u16) -> u8 {
    ((op / 16) % 16) as u8
}

/// The trailing nibble of an opcode.
pub open spec fn nib4(op: u16) -> u8 {
    (op % 16) as u8
}

/// The low 12 bits of an opcode: an address.
pub open spec fn addr_of(op: u16) -> u16 {
    op % 0x1000
}

/// The low 8 bits of an opcode: an immediate.
pub open spec fn imm_of(op: u16) -> u8 {
    (op % 0x100) as u8
}

/// What an opcode decodes to. The two literal opcodes of the 0x0 family are
/// matched before the generic system-jump fallback; within the 0x8, 0xE and
/// 0xF families every sub-opcode is enumerated and anything unmatched is
/// `Unknown`.
pub open spec fn decode_spec(op: u16) -> Instr {
    let op1 = nib1(op);
    let op2 = nib2(op);
    let op3 = nib3(op);
    let op4 = nib4(op);
    let nnn = addr_of(op);
    let kk = imm_of(op);
    if op == 0x00E0 {
        Instr::Cls
    } else if op == 0x00EE {
        Instr::Ret
    } else if op1 == 0x0 {
        Instr::Sys(nnn)
    } else if op1 == 0x1 {
        Instr::Jp(nnn)
    } else if op1 == 0x2 {
        Instr::Call(nnn)
    } else if op1 == 0x3 {
        Instr::SeVxKk(op2, kk)
    } else if op1 == 0x4 {
        Instr::SneVxKk(op2, kk)
    } else if op1 == 0x5 && op4 == 0x0 {
        Instr::SeVxVy(op2, op3)
    } else if op1 == 0x6 {
        Instr::LdVxKk(op2, kk)
    } else if op1 == 0x7 {
        Instr::AddVxKk(op2, kk)
    } else if op1 == 0x8 && op4 == 0x0 {
        Instr::LdVxVy(op2, op3)
    } else if op1 == 0x8 && op4 == 0x1 {
        Instr::OrVxVy(op2, op3)
    } else if op1 == 0x8 && op4 == 0x2 {
        Instr::AndVxVy(op2, op3)
    } else if op1 == 0x8 && op4 == 0x3 {
        Instr::XorVxVy(op2, op3)
    } else if op1 == 0x8 && op4 == 0x4 {
        Instr::AddVxVy(op2, op3)
    } else if op1 == 0x8 && op4 == 0x5 {
        Instr::SubVxVy(op2, op3)
    } else if op1 == 0x8 && op4 == 0x6 {
        Instr::ShrVx(op2)
    } else if op1 == 0x8 && op4 == 0x7 {
        Instr::SubnVxVy(op2, op3)
    } else if op1 == 0x8 && op4 == 0xE {
        Instr::ShlVx(op2)
    } else if op1 == 0x9 && op4 == 0x0 {
        Instr::SneVxVy(op2, op3)
    } else if op1 == 0xA {
        Instr::LdINnn(nnn)
    } else if op1 == 0xB {
        Instr::JpV0Nnn(nnn)
    } else if op1 == 0xC {
        Instr::RndVxKk(op2, kk)
    } else if op1 == 0xD {
        Instr::DrwVxVyN(op2, op3, op4)
    } else if op1 == 0xE && op3 == 0x9 && op4 == 0xE {
        Instr::SkpVx(op2)
    } else if op1 == 0xE && op3 == 0xA && op4 == 0x1 {
        Instr::SknpVx(op2)
    } else if op1 == 0xF && op3 == 0x0 && op4 == 0x7 {
        Instr::LdVxDt(op2)
    } else if op1 == 0xF && op3 == 0x0 && op4 == 0xA {
        Instr::LdVxK(op2)
    } else if op1 == 0xF && op3 == 0x1 && op4 == 0x5 {
        Instr::LdDtVx(op2)
    } else if op1 == 0xF && op3 == 0x1 && op4 == 0x8 {
        Instr::LdStVx(op2)
    } else if op1 == 0xF && op3 == 0x1 && op4 == 0xE {
        Instr::AddIVx(op2)
    } else if op1 == 0xF && op3 == 0x2 && op4 == 0x9 {
        Instr::LdFVx(op2)
    } else if op1 == 0xF && op3 == 0x3 && op4 == 0x3 {
        Instr::LdBVx(op2)
    } else if op1 == 0xF && op3 == 0x5 && op4 == 0x5 {
        Instr::LdIVx(op2)
    } else if op1 == 0xF && op3 == 0x6 && op4 == 0x5 {
        Instr::LdVxI(op2)
    } else {
        Instr::Unknown
    }
}

/// Register indices of a decoded instruction are 4-bit fields, so the
/// executor may index the 16-entry register file with them directly.
pub open spec fn instr_fields_bounded(i: Instr) -> bool {
    match i {
        Instr::Sys(nnn) => nnn < 0x1000,
        Instr::Jp(nnn) => nnn < 0x1000,
        Instr::Call(nnn) => nnn < 0x1000,
        Instr::SeVxKk(x, _) => x < 16,
        Instr::SneVxKk(x, _) => x < 16,
        Instr::SeVxVy(x, y) => x < 16 && y < 16,
        Instr::LdVxKk(x, _) => x < 16,
        Instr::AddVxKk(x, _) => x < 16,
        Instr::LdVxVy(x, y) => x < 16 && y < 16,
        Instr::OrVxVy(x, y) => x < 16 && y < 16,
        Instr::AndVxVy(x, y) => x < 16 && y < 16,
        Instr::XorVxVy(x, y) => x < 16 && y < 16,
        Instr::AddVxVy(x, y) => x < 16 && y < 16,
        Instr::SubVxVy(x, y) => x < 16 && y < 16,
        Instr::ShrVx(x) => x < 16,
        Instr::SubnVxVy(x, y) => x < 16 && y < 16,
        Instr::ShlVx(x) => x < 16,
        Instr::SneVxVy(x, y) => x < 16 && y < 16,
        Instr::LdINnn(nnn) => nnn < 0x1000,
        Instr::JpV0Nnn(nnn) => nnn < 0x1000,
        Instr::RndVxKk(x, _) => x < 16,
        Instr::DrwVxVyN(x, y, n) => x < 16 && y < 16 && n < 16,
        Instr::SkpVx(x) => x < 16,
        Instr::SknpVx(x) => x < 16,
        Instr::LdVxDt(x) => x < 16,
        Instr::LdVxK(x) => x < 16,
        Instr::LdDtVx(x) => x < 16,
        Instr::LdStVx(x) => x < 16,
        Instr::AddIVx(x) => x < 16,
        Instr::LdFVx(x) => x < 16,
        Instr::LdBVx(x) => x < 16,
        Instr::LdIVx(x) => x < 16,
        Instr::LdVxI(x) => x < 16,
        _ => true,
    }
}

/// Split an opcode into its decoded instruction.
pub fn decode(op_code: u16) -> (r: Instr)
    ensures
        r == decode_spec(op_code),
        instr_fields_bounded(r),
{
    let op1: u8 = (op_code / 0x1000) as u8;
    let op2: u8 = ((op_code / 0x100) % 16) as u8;
    let op3: u8 = ((op_code / 16) % 16) as u8;
    let op4: u8 = (op_code % 16) as u8;
    let nnn: u16 = op_code % 0x1000;
    let kk: u8 = (op_code % 0x100) as u8;
    if op_code == 0x00E0 {
        Instr::Cls
    } else if op_code == 0x00EE {
        Instr::Ret
    } else if op1 == 0x0 {
        Instr::Sys(nnn)
    } else if op1 == 0x1 {
        Instr::Jp(nnn)
    } else if op1 == 0x2 {
        Instr::Call(nnn)
    } else if op1 == 0x3 {
        Instr::SeVxKk(op2, kk)
    } else if op1 == 0x4 {
        Instr::SneVxKk(op2, kk)
    } else if op1 == 0x5 && op4 == 0x0 {
        Instr::SeVxVy(op2, op3)
    } else if op1 == 0x6 {
        Instr::LdVxKk(op2, kk)
    } else if op1 == 0x7 {
        Instr::AddVxKk(op2, kk)
    } else if op1 == 0x8 && op4 == 0x0 {
        Instr::LdVxVy(op2, op3)
    } else if op1 == 0x8 && op4 == 0x1 {
        Instr::OrVxVy(op2, op3)
    } else if op1 == 0x8 && op4 == 0x2 {
        Instr::AndVxVy(op2, op3)
    } else if op1 == 0x8 && op4 == 0x3 {
        Instr::XorVxVy(op2, op3)
    } else if op1 == 0x8 && op4 == 0x4 {
        Instr::AddVxVy(op2, op3)
    } else if op1 == 0x8 && op4 == 0x5 {
        Instr::SubVxVy(op2, op3)
    } else if op1 == 0x8 && op4 == 0x6 {
        Instr::ShrVx(op2)
    } else if op1 == 0x8 && op4 == 0x7 {
        Instr::SubnVxVy(op2, op3)
    } else if op1 == 0x8 && op4 == 0xE {
        Instr::ShlVx(op2)
    } else if op1 == 0x9 && op4 == 0x0 {
        Instr::SneVxVy(op2, op3)
    } else if op1 == 0xA {
        Instr::LdINnn(nnn)
    } else if op1 == 0xB {
        Instr::JpV0Nnn(nnn)
    } else if op1 == 0xC {
        Instr::RndVxKk(op2, kk)
    } else if op1 == 0xD {
        Instr::DrwVxVyN(op2, op3, op4)
    } else if op1 == 0xE && op3 == 0x9 && op4 == 0xE {
        Instr::SkpVx(op2)
    } else if op1 == 0xE && op3 == 0xA && op4 == 0x1 {
        Instr::SknpVx(op2)
    } else if op1 == 0xF && op3 == 0x0 && op4 == 0x7 {
        Instr::LdVxDt(op2)
    } else if op1 == 0xF && op3 == 0x0 && op4 == 0xA {
        Instr::LdVxK(op2)
    } else if op1 == 0xF && op3 == 0x1 && op4 == 0x5 {
        Instr::LdDtVx(op2)
    } else if op1 == 0xF && op3 == 0x1 && op4 == 0x8 {
        Instr::LdStVx(op2)
    } else if op1 == 0xF && op3 == 0x1 && op4 == 0xE {
        Instr::AddIVx(op2)
    } else if op1 == 0xF && op3 == 0x2 && op4 == 0x9 {
        Instr::LdFVx(op2)
    } else if op1 == 0xF && op3 == 0x3 && op4 == 0x3 {
        Instr::LdBVx(op2)
    } else if op1 == 0xF && op3 == 0x5 && op4 == 0x5 {
        Instr::LdIVx(op2)
    } else if op1 == 0xF && op3 == 0x6 && op4 == 0x5 {
        Instr::LdVxI(op2)
    } else {
        Instr::Unknown
    }
}

} // verus!
