use vstd::prelude::*;

use crate::hex::{append_hex, hex_text};
use crate::quirk_flags::{quirk_on, QuirkFlags};

verus! {

/// An instruction word together with the instruction it names and a
/// readable mnemonic for it.
#[derive(Debug, PartialEq, Eq)]
pub struct DecodedInstruction {
    pub instr: u16,
    pub opcode: OpCode,
    pub mnemonic: String,
}

impl DecodedInstruction {
    /// The word zero, decoded as no instruction, with an empty mnemonic.
    pub fn new() -> (r: Self)
        ensures
            r.instr == 0,
            r.opcode == OpCode::OpCodeInvalid(),
            r.mnemonic@ == Seq::<char>::empty(),
    {
        DecodedInstruction { instr: 0, opcode: OpCode::OpCodeInvalid(), mnemonic: String::new() }
    }
}

/// The instructions of the machine, named after their word patterns: `x`
/// and `y` are register numbers, `nnn` an address, `nn` a byte and `n` a
/// nibble.
#[derive(Debug, PartialEq, Eq, Structural, Clone, Copy)]
pub enum OpCode {
    /// CLS: clear the display
    OpCode00e0(),
    /// RET: return from a subroutine
    OpCode00ee(),
    /// JP addr
    OpCode1nnn(u16),
    /// CALL addr
    OpCode2nnn(u16),
    /// SE Vx, byte
    OpCode3xnn(u8, u8),
    /// SNE Vx, byte
    OpCode4xnn(u8, u8),
    /// SE Vx, Vy
    OpCode5xy0(u8, u8),
    /// LD Vx, byte
    OpCode6xnn(u8, u8),
    /// ADD Vx, byte
    OpCode7xnn(u8, u8),
    /// LD Vx, Vy
    OpCode8xy0(u8, u8),
    /// OR Vx, Vy
    OpCode8xy1(u8, u8),
    /// AND Vx, Vy
    OpCode8xy2(u8, u8),
    /// XOR Vx, Vy
    OpCode8xy3(u8, u8),
    /// ADD Vx, Vy
    OpCode8xy4(u8, u8),
    /// SUB Vx, Vy
    OpCode8xy5(u8, u8),
    /// SHR Vx {, Vy}
    OpCode8xy6(u8, u8),
    /// SUBN Vx, Vy
    OpCode8xy7(u8, u8),
    /// SHL Vx {, Vy}
    OpCode8xye(u8, u8),
    /// SNE Vx, Vy
    OpCode9xy0(u8, u8),
    /// LD I, addr
    OpCodeAnnn(u16),
    /// JP V0, addr
    OpCodeBnnn(u16),
    /// RND Vx, byte
    OpCodeCxnn(u8, u8),
    /// DRW Vx, Vy, nibble
    OpCodeDxyn(u8, u8, u8),
    /// SKP Vx
    OpCodeEx9e(u8),
    /// SKNP Vx
    OpCodeExa1(u8),
    /// LD Vx, DT
    OpCodeFx07(u8),
    /// LD Vx, K
    OpCodeFx0a(u8),
    /// LD DT, Vx
    OpCodeFx15(u8),
    /// LD ST, Vx
    OpCodeFx18(u8),
    /// ADD I, Vx
    OpCodeFx1e(u8),
    /// LD F, Vx
    OpCodeFx29(u8),
    /// LD B, Vx
    OpCodeFx33(u8),
    /// LD [I], Vx
    OpCodeFx55(u8),
    /// LD Vx, [I]
    OpCodeFx65(u8),
    /// A word that names no instruction.
    OpCodeInvalid(),
}

/// Bits 8 to 11 of `w`: the first register operand.
pub open spec fn field_x(w: u16) -> u8 {
    ((w / 256) % 16) as u8
}

/// Bits 4 to 7 of `w`: the second register operand.
pub open spec fn field_y(w: u16) -> u8 {
    ((w / 16) % 16) as u8
}

/// Bits 0 to 3 of `w`.
pub open spec fn field_n(w: u16) -> u8 {
    (w % 16) as u8
}

/// Bits 0 to 7 of `w`.
pub open spec fn field_nn(w: u16) -> u8 {
    (w % 256) as u8
}

/// Bits 0 to 11 of `w`: an address.
pub open spec fn field_nnn(w: u16) -> u16 {
    (w % 4096) as u16
}

/// The instruction that word `w` names: the top four bits pick a group, and
/// in the groups 0, 5, 8, 9, E and F the low byte or the low nibble picks
/// the instruction within it.
pub open spec fn spec_decode(w: u16) -> OpCode {
    let p = w / 4096;
    if p == 0x0 {
        if w == 0x00E0 {
            OpCode::OpCode00e0()
        } else if w == 0x00EE {
            OpCode::OpCode00ee()
        } else {
            OpCode::OpCodeInvalid()
        }
    } else if p == 0x1 {
        OpCode::OpCode1nnn(field_nnn(w))
    } else if p == 0x2 {
        OpCode::OpCode2nnn(field_nnn(w))
    } else if p == 0x3 {
        OpCode::OpCode3xnn(field_x(w), field_nn(w))
    } else if p == 0x4 {
        OpCode::OpCode4xnn(field_x(w), field_nn(w))
    } else if p == 0x5 {
        if field_n(w) == 0x0 {
            OpCode::OpCode5xy0(field_x(w), field_y(w))
        } else {
            OpCode::OpCodeInvalid()
        }
    } else if p == 0x6 {
        OpCode::OpCode6xnn(field_x(w), field_nn(w))
    } else if p == 0x7 {
        OpCode::OpCode7xnn(field_x(w), field_nn(w))
    } else if p == 0x8 {
        if field_n(w) == 0x0 {
            OpCode::OpCode8xy0(field_x(w), field_y(w))
        } else if field_n(w) == 0x1 {
            OpCode::OpCode8xy1(field_x(w), field_y(w))
        } else if field_n(w) == 0x2 {
            OpCode::OpCode8xy2(field_x(w), field_y(w))
        } else if field_n(w) == 0x3 {
            OpCode::OpCode8xy3(field_x(w), field_y(w))
        } else if field_n(w) == 0x4 {
            OpCode::OpCode8xy4(field_x(w), field_y(w))
        } else if field_n(w) == 0x5 {
            OpCode::OpCode8xy5(field_x(w), field_y(w))
        } else if field_n(w) == 0x6 {
            OpCode::OpCode8xy6(field_x(w), field_y(w))
        } else if field_n(w) == 0x7 {
            OpCode::OpCode8xy7(field_x(w), field_y(w))
        } else if field_n(w) == 0xE {
            OpCode::OpCode8xye(field_x(w), field_y(w))
        } else {
            OpCode::OpCodeInvalid()
        }
    } else if p == 0x9 {
        if field_n(w) == 0x0 {
            OpCode::OpCode9xy0(field_x(w), field_y(w))
        } else {
            OpCode::OpCodeInvalid()
        }
    } else if p == 0xA {
        OpCode::OpCodeAnnn(field_nnn(w))
    } else if p == 0xB {
        OpCode::OpCodeBnnn(field_nnn(w))
    } else if p == 0xC {
        OpCode::OpCodeCxnn(field_x(w), field_nn(w))
    } else if p == 0xD {
        OpCode::OpCodeDxyn(field_x(w), field_y(w), field_n(w))
    } else if p == 0xE {
        if field_nn(w) == 0x9E {
            OpCode::OpCodeEx9e(field_x(w))
        } else if field_nn(w) == 0xA1 {
            OpCode::OpCodeExa1(field_x(w))
        } else {
            OpCode::OpCodeInvalid()
        }
    } else {
        if field_nn(w) == 0x07 {
            OpCode::OpCodeFx07(field_x(w))
        } else if field_nn(w) == 0x0A {
            OpCode::OpCodeFx0a(field_x(w))
        } else if field_nn(w) == 0x15 {
            OpCode::OpCodeFx15(field_x(w))
        } else if field_nn(w) == 0x18 {
            OpCode::OpCodeFx18(field_x(w))
        } else if field_nn(w) == 0x1E {
            OpCode::OpCodeFx1e(field_x(w))
        } else if field_nn(w) == 0x29 {
            OpCode::OpCodeFx29(field_x(w))
        } else if field_nn(w) == 0x33 {
            OpCode::OpCodeFx33(field_x(w))
        } else if field_nn(w) == 0x55 {
            OpCode::OpCodeFx55(field_x(w))
        } else if field_nn(w) == 0x65 {
            OpCode::OpCodeFx65(field_x(w))
        } else {
            OpCode::OpCodeInvalid()
        }
    }
}

/// Register `x` as written in a mnemonic.
pub open spec fn reg_text(x: u8) -> Seq<char> {
    "V"@ + hex_text(x as nat, 1)
}

/// A number as written in a mnemonic, with at least `min_digits` digits.
pub open spec fn imm_text(v: nat, min_digits: nat) -> Seq<char> {
    "0x"@ + hex_text(v, min_digits)
}

/// The mnemonic of `op`. The shifts name their second register only when
/// the switch that makes them read it is on.
pub open spec fn spec_mnemonic(op: OpCode, quirks: QuirkFlags) -> Seq<char> {
    match op {
        OpCode::OpCode00e0() => "CLS"@,
        OpCode::OpCode00ee() => "RET"@,
        OpCode::OpCode1nnn(a) => "JP "@ + imm_text(a as nat, 3),
        OpCode::OpCode2nnn(a) => "CALL "@ + imm_text(a as nat, 3),
        OpCode::OpCode3xnn(x, v) => "SE "@ + reg_text(x) + ", "@ + imm_text(v as nat, 2),
        OpCode::OpCode4xnn(x, v) => "SNE "@ + reg_text(x) + ", "@ + imm_text(v as nat, 2),
        OpCode::OpCode5xy0(x, y) => "SE "@ + reg_text(x) + ", "@ + reg_text(y),
        OpCode::OpCode6xnn(x, v) => "LD "@ + reg_text(x) + ", "@ + imm_text(v as nat, 2),
        OpCode::OpCode7xnn(x, v) => "ADD "@ + reg_text(x) + ", "@ + imm_text(v as nat, 2),
        OpCode::OpCode8xy0(x, y) => "LD "@ + reg_text(x) + ", "@ + reg_text(y),
        OpCode::OpCode8xy1(x, y) => "OR "@ + reg_text(x) + ", "@ + reg_text(y),
        OpCode::OpCode8xy2(x, y) => "AND "@ + reg_text(x) + ", "@ + reg_text(y),
        OpCode::OpCode8xy3(x, y) => "XOR "@ + reg_text(x) + ", "@ + reg_text(y),
        OpCode::OpCode8xy4(x, y) => "ADD "@ + reg_text(x) + ", "@ + reg_text(y),
        OpCode::OpCode8xy5(x, y) => "SUB "@ + reg_text(x) + ", "@ + reg_text(y),
        OpCode::OpCode8xy6(x, y) => if quirk_on(quirks, 0x01) {
                "SHR "@ + reg_text(x) + ", "@ + reg_text(y)
            } else {
                "SHR "@ + reg_text(x)
            },
        OpCode::OpCode8xy7(x, y) => "SUBN "@ + reg_text(x) + ", "@ + reg_text(y),
        OpCode::OpCode8xye(x, y) => if quirk_on(quirks, 0x02) {
                "SHL "@ + reg_text(x) + ", "@ + reg_text(y)
            } else {
                "SHL "@ + reg_text(x)
            },
        OpCode::OpCode9xy0(x, y) => "SNE "@ + reg_text(x) + ", "@ + reg_text(y),
        OpCode::OpCodeAnnn(a) => "LD I "@ + imm_text(a as nat, 3),
        OpCode::OpCodeBnnn(a) => "JP V0, "@ + imm_text(a as nat, 3),
        OpCode::OpCodeCxnn(x, v) => "RND "@ + reg_text(x) + ", "@ + imm_text(v as nat, 1),
        OpCode::OpCodeDxyn(x, y, n) => "DRW "@ + reg_text(x) + ", "@ + reg_text(y) + ", "@ + imm_text(n as nat, 1),
        OpCode::OpCodeEx9e(x) => "SKP "@ + reg_text(x),
        OpCode::OpCodeExa1(x) => "SKNP "@ + reg_text(x),
        OpCode::OpCodeFx07(x) => "LD "@ + reg_text(x) + ", DT"@,
        OpCode::OpCodeFx0a(x) => "LD "@ + reg_text(x) + ", K"@,
        OpCode::OpCodeFx15(x) => "LD DT, "@ + reg_text(x),
        OpCode::OpCodeFx18(x) => "LD ST, "@ + reg_text(x),
        OpCode::OpCodeFx1e(x) => "ADD I, "@ + reg_text(x),
        OpCode::OpCodeFx29(x) => "LD F, "@ + reg_text(x),
        OpCode::OpCodeFx33(x) => "LD B, "@ + reg_text(x),
        OpCode::OpCodeFx55(x) => "LD [I], "@ + reg_text(x),
        OpCode::OpCodeFx65(x) => "LD "@ + reg_text(x) + ", [I]"@,
        OpCode::OpCodeInvalid() => Seq::empty(),
    }
}

/// Decodes an instruction word. Every word gives an instruction or
/// `OpCodeInvalid`.
pub fn decode(instr: u16, quirk_flags: QuirkFlags) -> (r: DecodedInstruction)
    ensures
        r.instr == instr,
        r.opcode == spec_decode(instr),
        r.mnemonic@ == spec_mnemonic(spec_decode(instr), quirk_flags),
{
    assert(instr >> 12 == instr / 4096) by (bit_vector);
    let prefix = instr >> 12;
    let opcode = match prefix {
        0x0 => {
            match instr {
                0x00E0 => OpCode::OpCode00e0(),
                0x00EE => OpCode::OpCode00ee(),
                _ => OpCode::OpCodeInvalid(),
            }
        },
        0x1 => OpCode::OpCode1nnn(get_nnn(instr)),
        0x2 => OpCode::OpCode2nnn(get_nnn(instr)),
        0x3 => OpCode::OpCode3xnn(get_n2(instr), get_nn(instr)),
        0x4 => OpCode::OpCode4xnn(get_n2(instr), get_nn(instr)),
        0x5 => {
            match get_n4(instr) {
                0x0 => OpCode::OpCode5xy0(get_n2(instr), get_n3(instr)),
                _ => OpCode::OpCodeInvalid(),
            }
        },
        0x6 => OpCode::OpCode6xnn(get_n2(instr), get_nn(instr)),
        0x7 => OpCode::OpCode7xnn(get_n2(instr), get_nn(instr)),
        0x8 => {
            match get_n4(instr) {
                0x0 => OpCode::OpCode8xy0(get_n2(instr), get_n3(instr)),
                0x1 => OpCode::OpCode8xy1(get_n2(instr), get_n3(instr)),
                0x2 => OpCode::OpCode8xy2(get_n2(instr), get_n3(instr)),
                0x3 => OpCode::OpCode8xy3(get_n2(instr), get_n3(instr)),
                0x4 => OpCode::OpCode8xy4(get_n2(instr), get_n3(instr)),
                0x5 => OpCode::OpCode8xy5(get_n2(instr), get_n3(instr)),
                0x6 => OpCode::OpCode8xy6(get_n2(instr), get_n3(instr)),
                0x7 => OpCode::OpCode8xy7(get_n2(instr), get_n3(instr)),
                0xE => OpCode::OpCode8xye(get_n2(instr), get_n3(instr)),
                _ => OpCode::OpCodeInvalid(),
            }
        },
        0x9 => {
            match get_n4(instr) {
                0x0 => OpCode::OpCode9xy0(get_n2(instr), get_n3(instr)),
                _ => OpCode::OpCodeInvalid(),
            }
        },
        0xA => OpCode::OpCodeAnnn(get_nnn(instr)),
        0xB => OpCode::OpCodeBnnn(get_nnn(instr)),
        0xC => OpCode::OpCodeCxnn(get_n2(instr), get_nn(instr)),
        0xD => OpCode::OpCodeDxyn(get_n2(instr), get_n3(instr), get_n4(instr)),
        0xE => {
            match get_nn(instr) {
                0x9E => OpCode::OpCodeEx9e(get_n2(instr)),
                0xA1 => OpCode::OpCodeExa1(get_n2(instr)),
                _ => OpCode::OpCodeInvalid(),
            }
        },
        _ => {
            match get_nn(instr) {
                0x07 => OpCode::OpCodeFx07(get_n2(instr)),
                0x0A => OpCode::OpCodeFx0a(get_n2(instr)),
                0x15 => OpCode::OpCodeFx15(get_n2(instr)),
                0x18 => OpCode::OpCodeFx18(get_n2(instr)),
                0x1E => OpCode::OpCodeFx1e(get_n2(instr)),
                0x29 => OpCode::OpCodeFx29(get_n2(instr)),
                0x33 => OpCode::OpCodeFx33(get_n2(instr)),
                0x55 => OpCode::OpCodeFx55(get_n2(instr)),
                0x65 => OpCode::OpCodeFx65(get_n2(instr)),
                _ => OpCode::OpCodeInvalid(),
            }
        },
    };
    if let OpCode::OpCodeInvalid() = opcode {
        return invalid_instruction(instr);
    }
    let mnemonic = mnemonic_of(&opcode, quirk_flags);
    DecodedInstruction { instr, opcode, mnemonic }
}

fn append_reg(s: &mut String, x: u8)
    ensures
        final(s)@ == old(s)@ + reg_text(x),
{
    let ghost before = s@;
    s.append("V");
    append_hex(s, x as u16, 1);
    assert(s@ =~= before + reg_text(x));
}

fn append_hex_imm(s: &mut String, v: u16, min_digits: usize)
    ensures
        final(s)@ == old(s)@ + imm_text(v as nat, min_digits as nat),
{
    let ghost before = s@;
    s.append("0x");
    append_hex(s, v, min_digits);
    assert(s@ =~= before + imm_text(v as nat, min_digits as nat));
}

fn mnemonic_of(op: &OpCode, quirks: QuirkFlags) -> (r: String)
    ensures
        r@ == spec_mnemonic(*op, quirks),
{
    match op {
        OpCode::OpCode00e0() => {
            let mut s = String::from_str("CLS");
            s
        },
        OpCode::OpCode00ee() => {
            let mut s = String::from_str("RET");
            s
        },
        OpCode::OpCode1nnn(a) => {
            let mut s = String::from_str("JP ");
            append_hex_imm(&mut s, *a, 3);
            s
        },
        OpCode::OpCode2nnn(a) => {
            let mut s = String::from_str("CALL ");
            append_hex_imm(&mut s, *a, 3);
            s
        },
        OpCode::OpCode3xnn(x, v) => {
            let mut s = String::from_str("SE ");
            append_reg(&mut s, *x);
            s.append(", ");
            append_hex_imm(&mut s, *v as u16, 2);
            s
        },
        OpCode::OpCode4xnn(x, v) => {
            let mut s = String::from_str("SNE ");
            append_reg(&mut s, *x);
            s.append(", ");
            append_hex_imm(&mut s, *v as u16, 2);
            s
        },
        OpCode::OpCode5xy0(x, y) => {
            let mut s = String::from_str("SE ");
            append_reg(&mut s, *x);
            s.append(", ");
            append_reg(&mut s, *y);
            s
        },
        OpCode::OpCode6xnn(x, v) => {
            let mut s = String::from_str("LD ");
            append_reg(&mut s, *x);
            s.append(", ");
            append_hex_imm(&mut s, *v as u16, 2);
            s
        },
        OpCode::OpCode7xnn(x, v) => {
            let mut s = String::from_str("ADD ");
            append_reg(&mut s, *x);
            s.append(", ");
            append_hex_imm(&mut s, *v as u16, 2);
            s
        },
        OpCode::OpCode8xy0(x, y) => {
            let mut s = String::from_str("LD ");
            append_reg(&mut s, *x);
            s.append(", ");
            append_reg(&mut s, *y);
            s
        },
        OpCode::OpCode8xy1(x, y) => {
            let mut s = String::from_str("OR ");
            append_reg(&mut s, *x);
            s.append(", ");
            append_reg(&mut s, *y);
            s
        },
        OpCode::OpCode8xy2(x, y) => {
            let mut s = String::from_str("AND ");
            append_reg(&mut s, *x);
            s.append(", ");
            append_reg(&mut s, *y);
            s
        },
        OpCode::OpCode8xy3(x, y) => {
            let mut s = String::from_str("XOR ");
            append_reg(&mut s, *x);
            s.append(", ");
            append_reg(&mut s, *y);
            s
        },
        OpCode::OpCode8xy4(x, y) => {
            let mut s = String::from_str("ADD ");
            append_reg(&mut s, *x);
            s.append(", ");
            append_reg(&mut s, *y);
            s
        },
        OpCode::OpCode8xy5(x, y) => {
            let mut s = String::from_str("SUB ");
            append_reg(&mut s, *x);
            s.append(", ");
            append_reg(&mut s, *y);
            s
        },
        OpCode::OpCode8xy6(x, y) => {
            let mut s = String::from_str("SHR ");
            append_reg(&mut s, *x);
            if quirks.contains(QuirkFlags::quirk_8xy6()) {
                s.append(", ");
                append_reg(&mut s, *y);
            }
            s
        },
        OpCode::OpCode8xy7(x, y) => {
            let mut s = String::from_str("SUBN ");
            append_reg(&mut s, *x);
            s.append(", ");
            append_reg(&mut s, *y);
            s
        },
        OpCode::OpCode8xye(x, y) => {
            let mut s = String::from_str("SHL ");
            append_reg(&mut s, *x);
            if quirks.contains(QuirkFlags::quirk_8xye()) {
                s.append(", ");
                append_reg(&mut s, *y);
            }
            s
        },
        OpCode::OpCode9xy0(x, y) => {
            let mut s = String::from_str("SNE ");
            append_reg(&mut s, *x);
            s.append(", ");
            append_reg(&mut s, *y);
            s
        },
        OpCode::OpCodeAnnn(a) => {
            let mut s = String::from_str("LD I ");
            append_hex_imm(&mut s, *a, 3);
            s
        },
        OpCode::OpCodeBnnn(a) => {
            let mut s = String::from_str("JP V0, ");
            append_hex_imm(&mut s, *a, 3);
            s
        },
        OpCode::OpCodeCxnn(x, v) => {
            let mut s = String::from_str("RND ");
            append_reg(&mut s, *x);
            s.append(", ");
            append_hex_imm(&mut s, *v as u16, 1);
            s
        },
        OpCode::OpCodeDxyn(x, y, n) => {
            let mut s = String::from_str("DRW ");
            append_reg(&mut s, *x);
            s.append(", ");
            append_reg(&mut s, *y);
            s.append(", ");
            append_hex_imm(&mut s, *n as u16, 1);
            s
        },
        OpCode::OpCodeEx9e(x) => {
            let mut s = String::from_str("SKP ");
            append_reg(&mut s, *x);
            s
        },
        OpCode::OpCodeExa1(x) => {
            let mut s = String::from_str("SKNP ");
            append_reg(&mut s, *x);
            s
        },
        OpCode::OpCodeFx07(x) => {
            let mut s = String::from_str("LD ");
            append_reg(&mut s, *x);
            s.append(", DT");
            s
        },
        OpCode::OpCodeFx0a(x) => {
            let mut s = String::from_str("LD ");
            append_reg(&mut s, *x);
            s.append(", K");
            s
        },
        OpCode::OpCodeFx15(x) => {
            let mut s = String::from_str("LD DT, ");
            append_reg(&mut s, *x);
            s
        },
        OpCode::OpCodeFx18(x) => {
            let mut s = String::from_str("LD ST, ");
            append_reg(&mut s, *x);
            s
        },
        OpCode::OpCodeFx1e(x) => {
            let mut s = String::from_str("ADD I, ");
            append_reg(&mut s, *x);
            s
        },
        OpCode::OpCodeFx29(x) => {
            let mut s = String::from_str("LD F, ");
            append_reg(&mut s, *x);
            s
        },
        OpCode::OpCodeFx33(x) => {
            let mut s = String::from_str("LD B, ");
            append_reg(&mut s, *x);
            s
        },
        OpCode::OpCodeFx55(x) => {
            let mut s = String::from_str("LD [I], ");
            append_reg(&mut s, *x);
            s
        },
        OpCode::OpCodeFx65(x) => {
            let mut s = String::from_str("LD ");
            append_reg(&mut s, *x);
            s.append(", [I]");
            s
        },
        OpCode::OpCodeInvalid() => String::new(),
    }
}

fn get_n2(instr: u16) -> (r: u8)
    ensures
        r == field_x(instr),
{
    assert((0x0F00 & instr) >> 8 == (instr / 256) % 16) by (bit_vector);
    ((0x0F00 & instr) >> 8) as u8
}

fn get_n3(instr: u16) -> (r: u8)
    ensures
        r == field_y(instr),
{
    assert((0x00F0 & instr) >> 4 == (instr / 16) % 16) by (bit_vector);
    ((0x00F0 & instr) >> 4) as u8
}

fn get_n4(instr: u16) -> (r: u8)
    ensures
        r == field_n(instr),
{
    assert(0x000F & instr == instr % 16) by (bit_vector);
    (0x000F & instr) as u8
}

fn get_nnn(instr: u16) -> (r: u16)
    ensures
        r == field_nnn(instr),
{
    assert(0x0FFF & instr == instr % 4096) by (bit_vector);
    0x0FFF & instr
}

fn get_nn(instr: u16) -> (r: u8)
    ensures
        r == field_nn(instr),
{
    assert(0x00FF & instr == instr % 256) by (bit_vector);
    (0x00FF & instr) as u8
}

fn invalid_instruction(instr: u16) -> (r: DecodedInstruction)
    ensures
        r.instr == instr,
        r.opcode == OpCode::OpCodeInvalid(),
        r.mnemonic@ == Seq::<char>::empty(),
{
    DecodedInstruction { instr, opcode: OpCode::OpCodeInvalid(), mnemonic: String::new() }
}

/// The word with the four nibbles `p`, `x`, `y`, `n`, most significant
/// first.
pub open spec fn word_of(p: int, x: int, y: int, n: int) -> u16 {
    (p * 4096 + x * 256 + y * 16 + n) as u16
}

/// The instruction word that names `op`; the invalid sentinel gets 0.
pub open spec fn encode(op: OpCode) -> u16 {
    match op {
        OpCode::OpCode00e0() => 0x00E0,
        OpCode::OpCode00ee() => 0x00EE,
        OpCode::OpCode1nnn(a) => word_of(0x1, a as int / 256, (a as int / 16) % 16, a as int % 16),
        OpCode::OpCode2nnn(a) => word_of(0x2, a as int / 256, (a as int / 16) % 16, a as int % 16),
        OpCode::OpCode3xnn(x, v) => word_of(0x3, x as int, v as int / 16, v as int % 16),
        OpCode::OpCode4xnn(x, v) => word_of(0x4, x as int, v as int / 16, v as int % 16),
        OpCode::OpCode5xy0(x, y) => word_of(0x5, x as int, y as int, 0x0),
        OpCode::OpCode6xnn(x, v) => word_of(0x6, x as int, v as int / 16, v as int % 16),
        OpCode::OpCode7xnn(x, v) => word_of(0x7, x as int, v as int / 16, v as int % 16),
        OpCode::OpCode8xy0(x, y) => word_of(0x8, x as int, y as int, 0x0),
        OpCode::OpCode8xy1(x, y) => word_of(0x8, x as int, y as int, 0x1),
        OpCode::OpCode8xy2(x, y) => word_of(0x8, x as int, y as int, 0x2),
        OpCode::OpCode8xy3(x, y) => word_of(0x8, x as int, y as int, 0x3),
        OpCode::OpCode8xy4(x, y) => word_of(0x8, x as int, y as int, 0x4),
        OpCode::OpCode8xy5(x, y) => word_of(0x8, x as int, y as int, 0x5),
        OpCode::OpCode8xy6(x, y) => word_of(0x8, x as int, y as int, 0x6),
        OpCode::OpCode8xy7(x, y) => word_of(0x8, x as int, y as int, 0x7),
        OpCode::OpCode8xye(x, y) => word_of(0x8, x as int, y as int, 0xE),
        OpCode::OpCode9xy0(x, y) => word_of(0x9, x as int, y as int, 0x0),
        OpCode::OpCodeAnnn(a) => word_of(0xA, a as int / 256, (a as int / 16) % 16, a as int % 16),
        OpCode::OpCodeBnnn(a) => word_of(0xB, a as int / 256, (a as int / 16) % 16, a as int % 16),
        OpCode::OpCodeCxnn(x, v) => word_of(0xC, x as int, v as int / 16, v as int % 16),
        OpCode::OpCodeDxyn(x, y, n) => word_of(0xD, x as int, y as int, n as int),
        OpCode::OpCodeEx9e(x) => word_of(0xE, x as int, 0x9, 0xE),
        OpCode::OpCodeExa1(x) => word_of(0xE, x as int, 0xA, 0x1),
        OpCode::OpCodeFx07(x) => word_of(0xF, x as int, 0x0, 0x7),
        OpCode::OpCodeFx0a(x) => word_of(0xF, x as int, 0x0, 0xA),
        OpCode::OpCodeFx15(x) => word_of(0xF, x as int, 0x1, 0x5),
        OpCode::OpCodeFx18(x) => word_of(0xF, x as int, 0x1, 0x8),
        OpCode::OpCodeFx1e(x) => word_of(0xF, x as int, 0x1, 0xE),
        OpCode::OpCodeFx29(x) => word_of(0xF, x as int, 0x2, 0x9),
        OpCode::OpCodeFx33(x) => word_of(0xF, x as int, 0x3, 0x3),
        OpCode::OpCodeFx55(x) => word_of(0xF, x as int, 0x5, 0x5),
        OpCode::OpCodeFx65(x) => word_of(0xF, x as int, 0x6, 0x5),
        OpCode::OpCodeInvalid() => 0,
    }
}

/// Whether the operands of `op` fit the fields of an instruction word:
/// registers and nibbles in four bits, addresses in twelve.
pub open spec fn operands_fit(op: OpCode) -> bool {
    match op {
        OpCode::OpCode00e0() => true,
        OpCode::OpCode00ee() => true,
        OpCode::OpCode1nnn(a) => a < 0x1000,
        OpCode::OpCode2nnn(a) => a < 0x1000,
        OpCode::OpCode3xnn(x, v) => x < 16,
        OpCode::OpCode4xnn(x, v) => x < 16,
        OpCode::OpCode5xy0(x, y) => x < 16 && y < 16,
        OpCode::OpCode6xnn(x, v) => x < 16,
        OpCode::OpCode7xnn(x, v) => x < 16,
        OpCode::OpCode8xy0(x, y) => x < 16 && y < 16,
        OpCode::OpCode8xy1(x, y) => x < 16 && y < 16,
        OpCode::OpCode8xy2(x, y) => x < 16 && y < 16,
        OpCode::OpCode8xy3(x, y) => x < 16 && y < 16,
        OpCode::OpCode8xy4(x, y) => x < 16 && y < 16,
        OpCode::OpCode8xy5(x, y) => x < 16 && y < 16,
        OpCode::OpCode8xy6(x, y) => x < 16 && y < 16,
        OpCode::OpCode8xy7(x, y) => x < 16 && y < 16,
        OpCode::OpCode8xye(x, y) => x < 16 && y < 16,
        OpCode::OpCode9xy0(x, y) => x < 16 && y < 16,
        OpCode::OpCodeAnnn(a) => a < 0x1000,
        OpCode::OpCodeBnnn(a) => a < 0x1000,
        OpCode::OpCodeCxnn(x, v) => x < 16,
        OpCode::OpCodeDxyn(x, y, n) => x < 16 && y < 16 && n < 16,
        OpCode::OpCodeEx9e(x) => x < 16,
        OpCode::OpCodeExa1(x) => x < 16,
        OpCode::OpCodeFx07(x) => x < 16,
        OpCode::OpCodeFx0a(x) => x < 16,
        OpCode::OpCodeFx15(x) => x < 16,
        OpCode::OpCodeFx18(x) => x < 16,
        OpCode::OpCodeFx1e(x) => x < 16,
        OpCode::OpCodeFx29(x) => x < 16,
        OpCode::OpCodeFx33(x) => x < 16,
        OpCode::OpCodeFx55(x) => x < 16,
        OpCode::OpCodeFx65(x) => x < 16,
        OpCode::OpCodeInvalid() => false,
    }
}

proof fn lemma_word_fields(w: u16)
    ensures
        w == word_of(w as int / 4096, field_x(w) as int, field_y(w) as int, field_n(w) as int),
        field_nn(w) as int / 16 == field_y(w),
        field_nn(w) as int % 16 == field_n(w),
        field_nnn(w) as int / 256 == field_x(w),
        (field_nnn(w) as int / 16) % 16 == field_y(w),
        field_nnn(w) as int % 16 == field_n(w),
        field_nn(w) == field_y(w) * 16 + field_n(w),
        w / 4096 < 16,
        field_x(w) < 16,
        field_y(w) < 16,
        field_n(w) < 16,
        field_nnn(w) < 4096,
{
    assert(w == (w / 4096) * 4096 + ((w / 256) % 16) * 256 + ((w / 16) % 16) * 16 + w % 16
        && w % 256 == ((w / 16) % 16) * 16 + w % 16 && (w % 256) / 16 == (w / 16) % 16 && (w
        % 256) % 16 == w % 16 && (w % 4096) / 256 == (w / 256) % 16 && ((w % 4096) / 16) % 16 == (w
        / 16) % 16 && (w % 4096) % 16 == w % 16 && w / 4096 < 16) by (nonlinear_arith);
}

proof fn lemma_nibbles(p: int, x: int, y: int, n: int)
    requires
        0 <= p < 16,
        0 <= x < 16,
        0 <= y < 16,
        0 <= n < 16,
    ensures
        ({
            let w = word_of(p, x, y, n);
            &&& w / 4096 == p
            &&& field_x(w) == x
            &&& field_y(w) == y
            &&& field_n(w) == n
            &&& field_nn(w) == y * 16 + n
            &&& field_nnn(w) == x * 256 + y * 16 + n
        }),
{
    let w = p * 4096 + x * 256 + y * 16 + n;
    assert(w / 4096 == p && (w / 256) % 16 == x && (w / 16) % 16 == y && w % 16 == n && w % 256
        == y * 16 + n && w % 4096 == x * 256 + y * 16 + n) by (nonlinear_arith)
        requires
            0 <= p < 16,
            0 <= x < 16,
            0 <= y < 16,
            0 <= n < 16,
            w == p * 4096 + x * 256 + y * 16 + n,
    ;
}

/// Decoding reads every word faithfully: a word that names an instruction
/// is exactly the word of the instruction it decodes to, so two different
/// words never decode to the same instruction.
#[verifier::spinoff_prover]
pub proof fn lemma_decode_encode(w: u16)
    ensures
        spec_decode(w) != OpCode::OpCodeInvalid() ==> encode(spec_decode(w)) == w,
        spec_decode(w) != OpCode::OpCodeInvalid() ==> operands_fit(spec_decode(w)),
{
    lemma_word_fields(w);
}

/// Every instruction whose operands fit the fields of a word decodes from
/// its own word.
pub proof fn lemma_encode_decode(op: OpCode)
    requires
        operands_fit(op),
    ensures
        spec_decode(encode(op)) == op,
{
    match op {
        OpCode::OpCode00e0() => {},
        OpCode::OpCode00ee() => {},
        OpCode::OpCode1nnn(a) => {
            lemma_nibbles(0x1, a as int / 256, (a as int / 16) % 16, a as int % 16);
        },
        OpCode::OpCode2nnn(a) => {
            lemma_nibbles(0x2, a as int / 256, (a as int / 16) % 16, a as int % 16);
        },
        OpCode::OpCode3xnn(x, v) => {
            lemma_nibbles(0x3, x as int, v as int / 16, v as int % 16);
        },
        OpCode::OpCode4xnn(x, v) => {
            lemma_nibbles(0x4, x as int, v as int / 16, v as int % 16);
        },
        OpCode::OpCode5xy0(x, y) => {
            lemma_nibbles(0x5, x as int, y as int, 0x0);
        },
        OpCode::OpCode6xnn(x, v) => {
            lemma_nibbles(0x6, x as int, v as int / 16, v as int % 16);
        },
        OpCode::OpCode7xnn(x, v) => {
            lemma_nibbles(0x7, x as int, v as int / 16, v as int % 16);
        },
        OpCode::OpCode8xy0(x, y) => {
            lemma_nibbles(0x8, x as int, y as int, 0x0);
        },
        OpCode::OpCode8xy1(x, y) => {
            lemma_nibbles(0x8, x as int, y as int, 0x1);
        },
        OpCode::OpCode8xy2(x, y) => {
            lemma_nibbles(0x8, x as int, y as int, 0x2);
        },
        OpCode::OpCode8xy3(x, y) => {
            lemma_nibbles(0x8, x as int, y as int, 0x3);
        },
        OpCode::OpCode8xy4(x, y) => {
            lemma_nibbles(0x8, x as int, y as int, 0x4);
        },
        OpCode::OpCode8xy5(x, y) => {
            lemma_nibbles(0x8, x as int, y as int, 0x5);
        },
        OpCode::OpCode8xy6(x, y) => {
            lemma_nibbles(0x8, x as int, y as int, 0x6);
        },
        OpCode::OpCode8xy7(x, y) => {
            lemma_nibbles(0x8, x as int, y as int, 0x7);
        },
        OpCode::OpCode8xye(x, y) => {
            lemma_nibbles(0x8, x as int, y as int, 0xE);
        },
        OpCode::OpCode9xy0(x, y) => {
            lemma_nibbles(0x9, x as int, y as int, 0x0);
        },
        OpCode::OpCodeAnnn(a) => {
            lemma_nibbles(0xA, a as int / 256, (a as int / 16) % 16, a as int % 16);
        },
        OpCode::OpCodeBnnn(a) => {
            lemma_nibbles(0xB, a as int / 256, (a as int / 16) % 16, a as int % 16);
        },
        OpCode::OpCodeCxnn(x, v) => {
            lemma_nibbles(0xC, x as int, v as int / 16, v as int % 16);
        },
        OpCode::OpCodeDxyn(x, y, n) => {
            lemma_nibbles(0xD, x as int, y as int, n as int);
        },
        OpCode::OpCodeEx9e(x) => {
            lemma_nibbles(0xE, x as int, 0x9, 0xE);
        },
        OpCode::OpCodeExa1(x) => {
            lemma_nibbles(0xE, x as int, 0xA, 0x1);
        },
        OpCode::OpCodeFx07(x) => {
            lemma_nibbles(0xF, x as int, 0x0, 0x7);
        },
        OpCode::OpCodeFx0a(x) => {
            lemma_nibbles(0xF, x as int, 0x0, 0xA);
        },
        OpCode::OpCodeFx15(x) => {
            lemma_nibbles(0xF, x as int, 0x1, 0x5);
        },
        OpCode::OpCodeFx18(x) => {
            lemma_nibbles(0xF, x as int, 0x1, 0x8);
        },
        OpCode::OpCodeFx1e(x) => {
            lemma_nibbles(0xF, x as int, 0x1, 0xE);
        },
        OpCode::OpCodeFx29(x) => {
            lemma_nibbles(0xF, x as int, 0x2, 0x9);
        },
        OpCode::OpCodeFx33(x) => {
            lemma_nibbles(0xF, x as int, 0x3, 0x3);
        },
        OpCode::OpCodeFx55(x) => {
            lemma_nibbles(0xF, x as int, 0x5, 0x5);
        },
        OpCode::OpCodeFx65(x) => {
            lemma_nibbles(0xF, x as int, 0x6, 0x5);
        },
        OpCode::OpCodeInvalid() => {},
    }
}

} // verus!
