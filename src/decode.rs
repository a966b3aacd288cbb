use vstd::prelude::*;

verus! {

/// A decoded instruction. `x` and `y` name registers, `kk` is an 8-bit
/// immediate, `nnn` a 12-bit address, `n` a sprite height.
#[derive(Clone, Copy, PartialEq, Eq, Structural, Debug)]
pub enum Instruction {
    /// 00E0: clear the display.
    Cls,
    /// 00EE: return from a call.
    Ret,
    /// 1nnn: jump to nnn.
    Jp(u16),
    /// 2nnn: call nnn.
    Call(u16),
    /// 3xkk: skip the next instruction if Vx == kk.
    Sei(u8, u8),
    /// 4xkk: skip the next instruction if Vx != kk.
    Snei(u8, u8),
    /// 5xy0: skip the next instruction if Vx == Vy.
    Ser(u8, u8),
    /// 6xkk: Vx = kk.
    Ldi(u8, u8),
    /// 7xkk: Vx = Vx + kk, wrapping, flag untouched.
    Addi(u8, u8),
    /// 8xy0: Vx = Vy.
    Ldr(u8, u8),
    /// 8xy1: Vx = Vx | Vy.
    Or(u8, u8),
    /// 8xy2: Vx = Vx & Vy.
    And(u8, u8),
    /// 8xy3: Vx = Vx ^ Vy.
    Xor(u8, u8),
    /// 8xy4: Vx = Vx + Vy, wrapping; VF = carry.
    Addr(u8, u8),
    /// 8xy5: Vx = Vx - Vy, wrapping; VF = no borrow.
    Subr(u8, u8),
    /// 8xy6: Vx = source >> 1; VF = bit shifted out.
    Shr(u8, u8),
    /// 8xy7: Vx = Vy - Vx, wrapping; VF = no borrow.
    Subn(u8, u8),
    /// 8xyE: Vx = source << 1; VF = bit shifted out.
    Shl(u8, u8),
    /// 9xy0: skip the next instruction if Vx != Vy.
    Sner(u8, u8),
    /// Annn: I = nnn.
    Ldireg(u16),
    /// Bnnn: jump to V0 + nnn.
    Jpv(u16),
    /// Cxkk: Vx = random byte & kk.
    Rnd(u8, u8),
    /// Dxyn: draw the n-byte sprite at I at (Vx, Vy).
    Drw(u8, u8, u8),
    /// Ex9E: skip the next instruction if key Vx is down.
    Skp(u8),
    /// ExA1: skip the next instruction if key Vx is up.
    Sknp(u8),
    /// Fx07: Vx = delay timer.
    Ldd(u8),
    /// Fx0A: wait for a key press and put the key in Vx.
    Ldk(u8),
    /// Fx15: delay timer = Vx.
    Sd(u8),
    /// Fx18: sound timer = Vx.
    Ss(u8),
    /// Fx1E: I = I + Vx.
    Addireg(u8),
    /// Fx29: I = address of the font glyph for the low nibble of Vx.
    Ldsprite(u8),
    /// Fx33: decimal digits of Vx at I, I + 1, I + 2.
    Bcd(u8),
    /// Fx55: store V0..=Vx from I on.
    Stseq(u8),
    /// Fx65: load V0..=Vx from I on.
    Ldseq(u8),
}

impl Instruction {
    /// Register operands name one of the sixteen registers, addresses lie
    /// in twelve bits and sprite heights in four, as decoding gives them.
    pub open spec fn wf(self) -> bool {
        match self {
            Instruction::Cls | Instruction::Ret => true,
            Instruction::Jp(a) | Instruction::Call(a) | Instruction::Ldireg(a) | Instruction::Jpv(
                a,
            ) => a < 0x1000,
            Instruction::Sei(x, _) | Instruction::Snei(x, _) | Instruction::Ldi(x, _)
            | Instruction::Addi(x, _) | Instruction::Rnd(x, _) => x < 16,
            Instruction::Ser(x, y) | Instruction::Ldr(x, y) | Instruction::Or(x, y)
            | Instruction::And(x, y) | Instruction::Xor(x, y) | Instruction::Addr(x, y)
            | Instruction::Subr(x, y) | Instruction::Shr(x, y) | Instruction::Subn(x, y)
            | Instruction::Shl(x, y) | Instruction::Sner(x, y) => x < 16 && y < 16,
            Instruction::Drw(x, y, n) => x < 16 && y < 16 && n < 16,
            Instruction::Skp(x) | Instruction::Sknp(x) | Instruction::Ldd(x) | Instruction::Ldk(x)
            | Instruction::Sd(x) | Instruction::Ss(x) | Instruction::Addireg(x)
            | Instruction::Ldsprite(x) | Instruction::Bcd(x) | Instruction::Stseq(x)
            | Instruction::Ldseq(x) => x < 16,
        }
    }
}

/// Most significant nibble of an instruction word.
pub open spec fn nib1(op: u16) -> u8 {
    (op / 4096) as u8
}

/// Second nibble: the register `x`.
pub open spec fn nib2(op: u16) -> u8 {
    ((op / 256) % 16) as u8
}

/// Third nibble: the register `y`.
pub open spec fn nib3(op: u16) -> u8 {
    ((op / 16) % 16) as u8
}

/// Least significant nibble.
pub open spec fn nib4(op: u16) -> u8 {
    (op % 16) as u8
}

/// The low twelve bits: an address.
pub open spec fn addr_of(op: u16) -> u16 {
    (op % 4096) as u16
}

/// The low byte: an immediate.
pub open spec fn byte_of(op: u16) -> u8 {
    (op % 256) as u8
}

/// The instruction that an instruction word encodes, if any.
pub open spec fn decode_spec(op: u16) -> Option<Instruction> {
    let x = nib2(op);
    let y = nib3(op);
    let n = nib4(op);
    let nnn = addr_of(op);
    let kk = byte_of(op);
    if op == 0x00E0 {
        Some(Instruction::Cls)
    } else if op == 0x00EE {
        Some(Instruction::Ret)
    } else if nib1(op) == 0x0 {
        None
    } else if nib1(op) == 0x1 {
        Some(Instruction::Jp(nnn))
    } else if nib1(op) == 0x2 {
        Some(Instruction::Call(nnn))
    } else if nib1(op) == 0x3 {
        Some(Instruction::Sei(x, kk))
    } else if nib1(op) == 0x4 {
        Some(Instruction::Snei(x, kk))
    } else if nib1(op) == 0x5 {
        Some(Instruction::Ser(x, y))
    } else if nib1(op) == 0x6 {
        Some(Instruction::Ldi(x, kk))
    } else if nib1(op) == 0x7 {
        Some(Instruction::Addi(x, kk))
    } else if nib1(op) == 0x8 {
        if n == 0x0 {
            Some(Instruction::Ldr(x, y))
        } else if n == 0x1 {
            Some(Instruction::Or(x, y))
        } else if n == 0x2 {
            Some(Instruction::And(x, y))
        } else if n == 0x3 {
            Some(Instruction::Xor(x, y))
        } else if n == 0x4 {
            Some(Instruction::Addr(x, y))
        } else if n == 0x5 {
            Some(Instruction::Subr(x, y))
        } else if n == 0x6 {
            Some(Instruction::Shr(x, y))
        } else if n == 0x7 {
            Some(Instruction::Subn(x, y))
        } else if n == 0xE {
            Some(Instruction::Shl(x, y))
        } else {
            None
        }
    } else if nib1(op) == 0x9 {
        Some(Instruction::Sner(x, y))
    } else if nib1(op) == 0xA {
        Some(Instruction::Ldireg(nnn))
    } else if nib1(op) == 0xB {
        Some(Instruction::Jpv(nnn))
    } else if nib1(op) == 0xC {
        Some(Instruction::Rnd(x, kk))
    } else if nib1(op) == 0xD {
        Some(Instruction::Drw(x, y, n))
    } else if nib1(op) == 0xE {
        if kk == 0x9E {
            Some(Instruction::Skp(x))
        } else if kk == 0xA1 {
            Some(Instruction::Sknp(x))
        } else {
            None
        }
    } else if kk == 0x07 {
        Some(Instruction::Ldd(x))
    } else if kk == 0x0A {
        Some(Instruction::Ldk(x))
    } else if kk == 0x15 {
        Some(Instruction::Sd(x))
    } else if kk == 0x18 {
        Some(Instruction::Ss(x))
    } else if kk == 0x1E {
        Some(Instruction::Addireg(x))
    } else if kk == 0x29 {
        Some(Instruction::Ldsprite(x))
    } else if kk == 0x33 {
        Some(Instruction::Bcd(x))
    } else if kk == 0x55 {
        Some(Instruction::Stseq(x))
    } else if kk == 0x65 {
        Some(Instruction::Ldseq(x))
    } else {
        None
    }
}

/// Splits an instruction word into nibbles and maps it to the instruction
/// it encodes.
pub fn decode(op: u16) -> (r: Option<Instruction>)
    ensures
        r == decode_spec(op),
        r matches Some(ins) ==> ins.wf(),
{
    let n1: u8 = ((op >> 12) & 0xF) as u8;
    let x: u8 = ((op >> 8) & 0xF) as u8;
    let y: u8 = ((op >> 4) & 0xF) as u8;
    let n: u8 = (op & 0xF) as u8;
    let nnn: u16 = op & 0xFFF;
    let kk: u8 = (op & 0xFF) as u8;
    proof {
        assert((op >> 12) & 0xF == op / 4096) by (bit_vector);
        assert((op >> 8) & 0xF == (op / 256) % 16) by (bit_vector);
        assert((op >> 4) & 0xF == (op / 16) % 16) by (bit_vector);
        assert(op & 0xF == op % 16) by (bit_vector);
        assert(op & 0xFFF == op % 4096) by (bit_vector);
        assert(op & 0xFF == op % 256) by (bit_vector);
    }
    if op == 0x00E0 {
        return Some(Instruction::Cls);
    }
    if op == 0x00EE {
        return Some(Instruction::Ret);
    }
    match n1 {
        0x1 => Some(Instruction::Jp(nnn)),
        0x2 => Some(Instruction::Call(nnn)),
        0x3 => Some(Instruction::Sei(x, kk)),
        0x4 => Some(Instruction::Snei(x, kk)),
        0x5 => Some(Instruction::Ser(x, y)),
        0x6 => Some(Instruction::Ldi(x, kk)),
        0x7 => Some(Instruction::Addi(x, kk)),
        0x8 => match n {
            0x0 => Some(Instruction::Ldr(x, y)),
            0x1 => Some(Instruction::Or(x, y)),
            0x2 => Some(Instruction::And(x, y)),
            0x3 => Some(Instruction::Xor(x, y)),
            0x4 => Some(Instruction::Addr(x, y)),
            0x5 => Some(Instruction::Subr(x, y)),
            0x6 => Some(Instruction::Shr(x, y)),
            0x7 => Some(Instruction::Subn(x, y)),
            0xE => Some(Instruction::Shl(x, y)),
            _ => None,
        },
        0x9 => Some(Instruction::Sner(x, y)),
        0xA => Some(Instruction::Ldireg(nnn)),
        0xB => Some(Instruction::Jpv(nnn)),
        0xC => Some(Instruction::Rnd(x, kk)),
        0xD => Some(Instruction::Drw(x, y, n)),
        0xE => {
            if kk == 0x9E {
                Some(Instruction::Skp(x))
            } else if kk == 0xA1 {
                Some(Instruction::Sknp(x))
            } else {
                None
            }
        },
        0xF => match kk {
            0x07 => Some(Instruction::Ldd(x)),
            0x0A => Some(Instruction::Ldk(x)),
            0x15 => Some(Instruction::Sd(x)),
            0x18 => Some(Instruction::Ss(x)),
            0x1E => Some(Instruction::Addireg(x)),
            0x29 => Some(Instruction::Ldsprite(x)),
            0x33 => Some(Instruction::Bcd(x)),
            0x55 => Some(Instruction::Stseq(x)),
            0x65 => Some(Instruction::Ldseq(x)),
            _ => None,
        },
        _ => None,
    }
}

/// The four nibbles of an instruction word, most significant first, and
/// the byte and address they make.
pub proof fn lemma_word_fields(op: u16, a: u16, b: u16, c: u16, d: u16)
    requires
        a < 16,
        b < 16,
        c < 16,
        d < 16,
        op == a * 4096 + b * 256 + c * 16 + d,
    ensures
        nib1(op) == a,
        nib2(op) == b,
        nib3(op) == c,
        nib4(op) == d,
        byte_of(op) == c * 16 + d,
        addr_of(op) == b * 256 + c * 16 + d,
{
    assert(op / 4096 == a && (op / 256) % 16 == b && (op / 16) % 16 == c && op % 16 == d
        && op % 256 == c * 16 + d && op % 4096 == b * 256 + c * 16 + d) by (bit_vector)
        requires
            a < 16,
            b < 16,
            c < 16,
            d < 16,
            op == a * 4096 + b * 256 + c * 16 + d,
    ;
}

} // verus!
