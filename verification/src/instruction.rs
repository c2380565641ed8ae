use vstd::prelude::*;

verus! {

/// One instruction of the machine with its operands taken apart.
///
/// `x` and `y` name registers, `addr` is a 12-bit address, `byte` an 8-bit
/// and `n` a 4-bit immediate.
#[derive(Clone, Copy, Debug, PartialEq, Eq, Structural)]
pub enum Instruction {
    /// `00E0`: clear the display.
    Cls,
    /// `00EE`: return from a subroutine.
    Ret,
    /// `1nnn`: jump to `addr`.
    Jp { addr: usize },
    /// `2nnn`: call the subroutine at `addr`.
    Call { addr: usize },
    /// `3xkk`: skip the next instruction if `Vx == byte`.
    SeByte { x: usize, byte: u8 },
    /// `4xkk`: skip the next instruction if `Vx != byte`.
    SneByte { x: usize, byte: u8 },
    /// `5xy_`: skip the next instruction if `Vx == Vy`.
    SeReg { x: usize, y: usize },
    /// `6xkk`: `Vx = byte`.
    LdByte { x: usize, byte: u8 },
    /// `7xkk`: `Vx += byte`, wrapping, flag untouched.
    AddByte { x: usize, byte: u8 },
    /// `8xy0`: `Vx = Vy`.
    LdReg { x: usize, y: usize },
    /// `8xy1`: `Vx |= Vy`.
    Or { x: usize, y: usize },
    /// `8xy2`: `Vx &= Vy`.
    And { x: usize, y: usize },
    /// `8xy3`: `Vx ^= Vy`.
    Xor { x: usize, y: usize },
    /// `8xy4`: `Vx += Vy`, `VF` = carry.
    AddReg { x: usize, y: usize },
    /// `8xy5`: `Vx -= Vy`, `VF` = no borrow.
    SubReg { x: usize, y: usize },
    /// `8xy6`: shift right by one, `VF` = the bit shifted out.
    Shr { x: usize, y: usize },
    /// `8xy7`: `Vx = Vy - Vx`, `VF` = no borrow.
    SubnReg { x: usize, y: usize },
    /// `8xyE`: shift left by one, `VF` = the bit shifted out.
    Shl { x: usize, y: usize },
    /// `9xy_`: skip the next instruction if `Vx != Vy`.
    SneReg { x: usize, y: usize },
    /// `Annn`: `I = addr`.
    LdI { addr: usize },
    /// `Bnnn`: jump to `addr + V0`.
    JpV0 { addr: usize },
    /// `Cxkk`: `Vx = random & byte`.
    Rnd { x: usize, byte: u8 },
    /// `Dxyn`: draw the `n`-row sprite at `I` at position `(Vx, Vy)`.
    Drw { x: usize, y: usize, n: u8 },
    /// `Ex9E`: skip the next instruction if key `Vx` is down.
    Skp { x: usize },
    /// `ExA1`: skip the next instruction if key `Vx` is up.
    Sknp { x: usize },
    /// `Fx07`: `Vx` = delay timer.
    LdFromDt { x: usize },
    /// `Fx0A`: wait for a key and store it in `Vx`.
    LdKey { x: usize },
    /// `Fx15`: delay timer = `Vx`.
    LdDt { x: usize },
    /// `Fx18`: sound timer = `Vx`.
    LdSt { x: usize },
    /// `Fx1E`: `I += Vx`.
    AddI { x: usize },
    /// `Fx29`: `I` = address of the glyph for digit `Vx`.
    LdFont { x: usize },
    /// `Fx33`: store the three decimal digits of `Vx` at `I`, `I+1`, `I+2`.
    Bcd { x: usize },
    /// `Fx55`: store `V0..=Vx` at `I`.
    Store { x: usize },
    /// `Fx65`: load `V0..=Vx` from `I`.
    Load { x: usize },
}

impl Instruction {
    /// Every operand is within the range that its field of the word can hold.
    pub open spec fn wf(self) -> bool {
        match self {
            Instruction::Cls | Instruction::Ret => true,
            Instruction::Jp { addr }
            | Instruction::Call { addr }
            | Instruction::LdI { addr }
            | Instruction::JpV0 { addr } => addr < 4096,
            Instruction::SeByte { x, .. }
            | Instruction::SneByte { x, .. }
            | Instruction::LdByte { x, .. }
            | Instruction::AddByte { x, .. }
            | Instruction::Rnd { x, .. }
            | Instruction::Skp { x }
            | Instruction::Sknp { x }
            | Instruction::LdFromDt { x }
            | Instruction::LdKey { x }
            | Instruction::LdDt { x }
            | Instruction::LdSt { x }
            | Instruction::AddI { x }
            | Instruction::LdFont { x }
            | Instruction::Bcd { x }
            | Instruction::Store { x }
            | Instruction::Load { x } => x < 16,
            Instruction::SeReg { x, y }
            | Instruction::LdReg { x, y }
            | Instruction::Or { x, y }
            | Instruction::And { x, y }
            | Instruction::Xor { x, y }
            | Instruction::AddReg { x, y }
            | Instruction::SubReg { x, y }
            | Instruction::Shr { x, y }
            | Instruction::SubnReg { x, y }
            | Instruction::Shl { x, y }
            | Instruction::SneReg { x, y } => x < 16 && y < 16,
            Instruction::Drw { x, y, n } => x < 16 && y < 16 && n < 16,
        }
    }
}

/// The top four bits of a word: the instruction family.
pub open spec fn family_of(word: u16) -> int {
    word as int / 4096
}

/// Bits 0 to 11 of a word: an address.
pub open spec fn addr_of(word: u16) -> int {
    word as int % 4096
}

/// Bits 8 to 11 of a word: the first register index.
pub open spec fn x_of(word: u16) -> int {
    (word as int / 256) % 16
}

/// Bits 4 to 7 of a word: the second register index.
pub open spec fn y_of(word: u16) -> int {
    (word as int / 16) % 16
}

/// Bits 0 to 7 of a word: a byte immediate, or the selector within the
/// families `E` and `F`.
pub open spec fn byte_of(word: u16) -> int {
    word as int % 256
}

/// Bits 0 to 3 of a word: a nibble immediate, or the selector within the
/// family `8`.
pub open spec fn nibble_of(word: u16) -> int {
    word as int % 16
}

/// The instruction that a word encodes, if any.
pub open spec fn decode_spec(word: u16) -> Option<Instruction> {
    let addr = addr_of(word) as usize;
    let x = x_of(word) as usize;
    let y = y_of(word) as usize;
    let byte = byte_of(word) as u8;
    let n = nibble_of(word) as u8;
    let family = family_of(word);
    if family == 0x0 {
        if word == 0x00E0 {
            Some(Instruction::Cls)
        } else if word == 0x00EE {
            Some(Instruction::Ret)
        } else {
            None
        }
    } else if family == 0x1 {
        Some(Instruction::Jp { addr })
    } else if family == 0x2 {
        Some(Instruction::Call { addr })
    } else if family == 0x3 {
        Some(Instruction::SeByte { x, byte })
    } else if family == 0x4 {
        Some(Instruction::SneByte { x, byte })
    } else if family == 0x5 {
        Some(Instruction::SeReg { x, y })
    } else if family == 0x6 {
        Some(Instruction::LdByte { x, byte })
    } else if family == 0x7 {
        Some(Instruction::AddByte { x, byte })
    } else if family == 0x8 {
        if n == 0x0 {
            Some(Instruction::LdReg { x, y })
        } else if n == 0x1 {
            Some(Instruction::Or { x, y })
        } else if n == 0x2 {
            Some(Instruction::And { x, y })
        } else if n == 0x3 {
            Some(Instruction::Xor { x, y })
        } else if n == 0x4 {
            Some(Instruction::AddReg { x, y })
        } else if n == 0x5 {
            Some(Instruction::SubReg { x, y })
        } else if n == 0x6 {
            Some(Instruction::Shr { x, y })
        } else if n == 0x7 {
            Some(Instruction::SubnReg { x, y })
        } else if n == 0xE {
            Some(Instruction::Shl { x, y })
        } else {
            None
        }
    } else if family == 0x9 {
        Some(Instruction::SneReg { x, y })
    } else if family == 0xA {
        Some(Instruction::LdI { addr })
    } else if family == 0xB {
        Some(Instruction::JpV0 { addr })
    } else if family == 0xC {
        Some(Instruction::Rnd { x, byte })
    } else if family == 0xD {
        Some(Instruction::Drw { x, y, n })
    } else if family == 0xE {
        if byte == 0x9E {
            Some(Instruction::Skp { x })
        } else if byte == 0xA1 {
            Some(Instruction::Sknp { x })
        } else {
            None
        }
    } else {
        if byte == 0x07 {
            Some(Instruction::LdFromDt { x })
        } else if byte == 0x0A {
            Some(Instruction::LdKey { x })
        } else if byte == 0x15 {
            Some(Instruction::LdDt { x })
        } else if byte == 0x18 {
            Some(Instruction::LdSt { x })
        } else if byte == 0x1E {
            Some(Instruction::AddI { x })
        } else if byte == 0x29 {
            Some(Instruction::LdFont { x })
        } else if byte == 0x33 {
            Some(Instruction::Bcd { x })
        } else if byte == 0x55 {
            Some(Instruction::Store { x })
        } else if byte == 0x65 {
            Some(Instruction::Load { x })
        } else {
            None
        }
    }
}

/// Whatever a word decodes to has its operands within their ranges.
pub proof fn lemma_decoded_is_wf(word: u16)
    ensures
        decode_spec(word) matches Some(instr) ==> instr.wf(),
{
}

/// Decodes the instruction family from an instruction word.
pub fn decode_instr_family(instr: u16) -> (r: u16)
    ensures
        r == family_of(instr),
        r < 16,
{
    assert((instr & 0xF000) >> 12 == instr / 4096) by (bit_vector);
    (instr & 0xF000) >> 12
}

/// Decodes a memory address from an instruction word.
pub fn decode_instr_addr(instr: u16) -> (r: usize)
    ensures
        r == addr_of(instr),
        r < 4096,
{
    assert(instr & 0x0FFF == instr % 4096) by (bit_vector);
    (instr & 0x0FFF) as usize
}

/// Decodes the first register index from an instruction word.
pub fn decode_instr_x_reg(instr: u16) -> (r: usize)
    ensures
        r == x_of(instr),
        r < 16,
{
    assert((instr & 0x0F00) >> 8 == (instr / 256) % 16) by (bit_vector);
    ((instr & 0x0F00) >> 8) as usize
}

/// Decodes the second register index from an instruction word.
pub fn decode_instr_y_reg(instr: u16) -> (r: usize)
    ensures
        r == y_of(instr),
        r < 16,
{
    assert((instr & 0x00F0) >> 4 == (instr / 16) % 16) by (bit_vector);
    ((instr & 0x00F0) >> 4) as usize
}

/// Decodes a byte-sized immediate from an instruction word.
pub fn decode_instr_byte_imm(instr: u16) -> (r: u8)
    ensures
        r == byte_of(instr),
{
    assert(instr & 0x00FF == instr % 256) by (bit_vector);
    (instr & 0x00FF) as u8
}

/// Decodes a nibble-sized immediate from an instruction word.
pub fn decode_instr_nibble_imm(instr: u16) -> (r: u8)
    ensures
        r == nibble_of(instr),
        r < 16,
{
    assert(instr & 0x000F == instr % 16) by (bit_vector);
    (instr & 0x000F) as u8
}

/// Decodes an instruction word. The family is chosen by the top nibble; the
/// families `0`, `8`, `E` and `F` are told apart further by their low bits.
/// No operand is validated beyond taking its bits.
pub fn decode(instr: u16) -> (r: Option<Instruction>)
    ensures
        r == decode_spec(instr),
        r matches Some(i) ==> i.wf(),
{
    let addr = decode_instr_addr(instr);
    let x = decode_instr_x_reg(instr);
    let y = decode_instr_y_reg(instr);
    let byte = decode_instr_byte_imm(instr);
    let n = decode_instr_nibble_imm(instr);
    match decode_instr_family(instr) {
        0x0 => {
            if instr == 0x00E0 {
                Some(Instruction::Cls)
            } else if instr == 0x00EE {
                Some(Instruction::Ret)
            } else {
                None
            }
        },
        0x1 => Some(Instruction::Jp { addr }),
        0x2 => Some(Instruction::Call { addr }),
        0x3 => Some(Instruction::SeByte { x, byte }),
        0x4 => Some(Instruction::SneByte { x, byte }),
        0x5 => Some(Instruction::SeReg { x, y }),
        0x6 => Some(Instruction::LdByte { x, byte }),
        0x7 => Some(Instruction::AddByte { x, byte }),
        0x8 => {
            match n {
                0x0 => Some(Instruction::LdReg { x, y }),
                0x1 => Some(Instruction::Or { x, y }),
                0x2 => Some(Instruction::And { x, y }),
                0x3 => Some(Instruction::Xor { x, y }),
                0x4 => Some(Instruction::AddReg { x, y }),
                0x5 => Some(Instruction::SubReg { x, y }),
                0x6 => Some(Instruction::Shr { x, y }),
                0x7 => Some(Instruction::SubnReg { x, y }),
                0xE => Some(Instruction::Shl { x, y }),
                _ => None,
            }
        },
        0x9 => Some(Instruction::SneReg { x, y }),
        0xA => Some(Instruction::LdI { addr }),
        0xB => Some(Instruction::JpV0 { addr }),
        0xC => Some(Instruction::Rnd { x, byte }),
        0xD => Some(Instruction::Drw { x, y, n }),
        0xE => {
            match byte {
                0x9E => Some(Instruction::Skp { x }),
                0xA1 => Some(Instruction::Sknp { x }),
                _ => None,
            }
        },
        _ => {
            match byte {
                0x07 => Some(Instruction::LdFromDt { x }),
                0x0A => Some(Instruction::LdKey { x }),
                0x15 => Some(Instruction::LdDt { x }),
                0x18 => Some(Instruction::LdSt { x }),
                0x1E => Some(Instruction::AddI { x }),
                0x29 => Some(Instruction::LdFont { x }),
                0x33 => Some(Instruction::Bcd { x }),
                0x55 => Some(Instruction::Store { x }),
                0x65 => Some(Instruction::Load { x }),
                _ => None,
            }
        },
    }
}

} // verus!
