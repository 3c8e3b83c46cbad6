//! Instruction words and their decoding.

use vstd::prelude::*;

verus! {

/// One decoded instruction. `x` and `y` are register indices, `address` a
/// 12-bit address, `byte` an 8-bit immediate.
#[derive(Clone, Copy, Debug, PartialEq, Eq, Structural)]
pub enum Instruction {
    /// `00E0`: clear the display.
    ClearScreen,
    /// `00EE`: return from a subroutine.
    Return,
    /// `1nnn`: jump to `address`.
    Jump { address: u16 },
    /// `2nnn`: call the subroutine at `address`.
    Call { address: u16 },
    /// `3xnn`: skip the next instruction if `Vx == byte`.
    SkipIfEqualByte { x: u8, byte: u8 },
    /// `4xnn`: skip the next instruction if `Vx != byte`.
    SkipIfNotEqualByte { x: u8, byte: u8 },
    /// `5xy_`: skip the next instruction if `Vx == Vy`.
    SkipIfEqual { x: u8, y: u8 },
    /// `6xnn`: `Vx = byte`.
    SetByte { x: u8, byte: u8 },
    /// `7xnn`: `Vx = Vx + byte`, wrapping, flag untouched.
    AddByte { x: u8, byte: u8 },
    /// `8xy0`: `Vx = Vy`.
    Assign { x: u8, y: u8 },
    /// `8xy1`: `Vx = Vx | Vy`.
    Or { x: u8, y: u8 },
    /// `8xy2`: `Vx = Vx & Vy`.
    And { x: u8, y: u8 },
    /// `8xy3`: `Vx = Vx ^ Vy`.
    Xor { x: u8, y: u8 },
    /// `8xy4`: `Vx = Vx + Vy`, wrapping, with the carry in `VF`.
    Add { x: u8, y: u8 },
    /// `8xy5`: `Vx = Vx - Vy`, wrapping, with "no borrow" in `VF`.
    Sub { x: u8, y: u8 },
    /// `8x_6`: `Vx = Vx >> 1`, with the low nibble of `Vx` in `VF`.
    ShiftRight { x: u8 },
    /// `8xy7`: `Vx = Vy - Vx`, wrapping, with "no borrow" in `VF`.
    SubFrom { x: u8, y: u8 },
    /// `8x_E`: `Vx = Vx << 1`, with the high nibble of `Vx` in `VF`.
    ShiftLeft { x: u8 },
    /// `9xy_`: skip the next instruction if `Vx != Vy`.
    SkipIfNotEqual { x: u8, y: u8 },
    /// `Annn`: `I = address`.
    SetIndex { address: u16 },
    /// `Bnnn`: jump to `address + V0`.
    JumpOffset { address: u16 },
    /// `Cxnn`: `Vx = byte & r` for a freshly drawn random byte `r`.
    Random { x: u8, byte: u8 },
    /// `Dxyn`: draw `rows` sprite rows from memory at `I` at `(Vx, Vy)`.
    Draw { x: u8, y: u8, rows: u8 },
    /// `Ex9E`: skip the next instruction if the key numbered `Vx` is down.
    SkipIfKey { x: u8 },
    /// `ExA1`: skip the next instruction if the key numbered `Vx` is up.
    SkipIfNotKey { x: u8 },
    /// `Fx07`: `Vx = delay timer`.
    GetDelay { x: u8 },
    /// `Fx0A`: wait for a key and store its index in `Vx`.
    WaitKey { x: u8 },
    /// `Fx15`: `delay timer = Vx`.
    SetDelay { x: u8 },
    /// `Fx18`: `sound timer = Vx`.
    SetSound { x: u8 },
    /// `Fx1E`: `I = I + Vx`.
    AddIndex { x: u8 },
    /// `Fx29`: `I = 5 * Vx`, the address of the glyph for a digit in `Vx`.
    Glyph { x: u8 },
    /// `Fx33`: store the decimal digits of `Vx` at `I`, `I + 1`, `I + 2`.
    Bcd { x: u8 },
    /// `Fx55`: store `V0..=Vx` in memory from `I`.
    Store { x: u8 },
    /// `Fx65`: load `V0..=Vx` from memory from `I`.
    Fill { x: u8 },
    /// Any other word: do nothing but move on.
    Unknown,
}

/// The top four bits of an instruction word: its family.
pub open spec fn family_of(word: u16) -> u8 {
    (word / 0x1000) as u8
}

/// The low twelve bits of an instruction word.
pub open spec fn address_of(word: u16) -> u16 {
    word % 0x1000
}

/// The low byte of an instruction word.
pub open spec fn byte_of(word: u16) -> u8 {
    (word % 0x100) as u8
}

/// The low four bits of an instruction word.
pub open spec fn nibble_of(word: u16) -> u8 {
    (word % 0x10) as u8
}

/// Bits 8 to 11 of an instruction word: the first register index.
pub open spec fn x_of(word: u16) -> u8 {
    (word / 0x100 % 0x10) as u8
}

/// Bits 4 to 7 of an instruction word: the second register index.
pub open spec fn y_of(word: u16) -> u8 {
    (word / 0x10 % 0x10) as u8
}

/// The instruction that an instruction word stands for. The family selects
/// a group; in the groups `0`, `E` and `F` the low byte selects the
/// operation, in group `8` the low nibble does. A word that selects nothing
/// is `Unknown`.
pub open spec fn decode_word(word: u16) -> Instruction {
    let family = family_of(word);
    let address = address_of(word);
    let byte = byte_of(word);
    let nibble = nibble_of(word);
    let x = x_of(word);
    let y = y_of(word);
    if family == 0x0 {
        if byte == 0xE0 {
            Instruction::ClearScreen
        } else if byte == 0xEE {
            Instruction::Return
        } else {
            Instruction::Unknown
        }
    } else if family == 0x1 {
        Instruction::Jump { address }
    } else if family == 0x2 {
        Instruction::Call { address }
    } else if family == 0x3 {
        Instruction::SkipIfEqualByte { x, byte }
    } else if family == 0x4 {
        Instruction::SkipIfNotEqualByte { x, byte }
    } else if family == 0x5 {
        Instruction::SkipIfEqual { x, y }
    } else if family == 0x6 {
        Instruction::SetByte { x, byte }
    } else if family == 0x7 {
        Instruction::AddByte { x, byte }
    } else if family == 0x8 {
        if nibble == 0x0 {
            Instruction::Assign { x, y }
        } else if nibble == 0x1 {
            Instruction::Or { x, y }
        } else if nibble == 0x2 {
            Instruction::And { x, y }
        } else if nibble == 0x3 {
            Instruction::Xor { x, y }
        } else if nibble == 0x4 {
            Instruction::Add { x, y }
        } else if nibble == 0x5 {
            Instruction::Sub { x, y }
        } else if nibble == 0x6 {
            Instruction::ShiftRight { x }
        } else if nibble == 0x7 {
            Instruction::SubFrom { x, y }
        } else if nibble == 0xE {
            Instruction::ShiftLeft { x }
        } else {
            Instruction::Unknown
        }
    } else if family == 0x9 {
        Instruction::SkipIfNotEqual { x, y }
    } else if family == 0xA {
        Instruction::SetIndex { address }
    } else if family == 0xB {
        Instruction::JumpOffset { address }
    } else if family == 0xC {
        Instruction::Random { x, byte }
    } else if family == 0xD {
        Instruction::Draw { x, y, rows: nibble }
    } else if family == 0xE {
        if byte == 0x9E {
            Instruction::SkipIfKey { x }
        } else if byte == 0xA1 {
            Instruction::SkipIfNotKey { x }
        } else {
            Instruction::Unknown
        }
    } else {
        if byte == 0x07 {
            Instruction::GetDelay { x }
        } else if byte == 0x0A {
            Instruction::WaitKey { x }
        } else if byte == 0x15 {
            Instruction::SetDelay { x }
        } else if byte == 0x18 {
            Instruction::SetSound { x }
        } else if byte == 0x1E {
            Instruction::AddIndex { x }
        } else if byte == 0x29 {
            Instruction::Glyph { x }
        } else if byte == 0x33 {
            Instruction::Bcd { x }
        } else if byte == 0x55 {
            Instruction::Store { x }
        } else if byte == 0x65 {
            Instruction::Fill { x }
        } else {
            Instruction::Unknown
        }
    }
}

impl Instruction {
    /// Whether every field is in the range that its width in the
    /// instruction word allows: register indices and row counts below 16,
    /// addresses below 4096.
    pub open spec fn wf(self) -> bool {
        match self {
            Instruction::ClearScreen | Instruction::Return | Instruction::Unknown => true,
            Instruction::Jump { address }
            | Instruction::Call { address }
            | Instruction::SetIndex { address }
            | Instruction::JumpOffset { address } => address < 0x1000,
            Instruction::SkipIfEqualByte { x, .. }
            | Instruction::SkipIfNotEqualByte { x, .. }
            | Instruction::SetByte { x, .. }
            | Instruction::AddByte { x, .. }
            | Instruction::Random { x, .. }
            | Instruction::ShiftRight { x }
            | Instruction::ShiftLeft { x }
            | Instruction::SkipIfKey { x }
            | Instruction::SkipIfNotKey { x }
            | Instruction::GetDelay { x }
            | Instruction::WaitKey { x }
            | Instruction::SetDelay { x }
            | Instruction::SetSound { x }
            | Instruction::AddIndex { x }
            | Instruction::Glyph { x }
            | Instruction::Bcd { x }
            | Instruction::Store { x }
            | Instruction::Fill { x } => x < 16,
            Instruction::SkipIfEqual { x, y }
            | Instruction::Assign { x, y }
            | Instruction::Or { x, y }
            | Instruction::And { x, y }
            | Instruction::Xor { x, y }
            | Instruction::Add { x, y }
            | Instruction::Sub { x, y }
            | Instruction::SubFrom { x, y }
            | Instruction::SkipIfNotEqual { x, y } => x < 16 && y < 16,
            Instruction::Draw { x, y, rows } => x < 16 && y < 16 && rows < 16,
        }
    }
}

/// Every instruction word decodes to an instruction whose fields are in
/// range.
pub proof fn lemma_decode_word_wf(word: u16)
    ensures
        decode_word(word).wf(),
{
}

/// Decodes an instruction word. Decoding has no failure: a word that no
/// operation recognises is `Unknown`.
pub fn decode(word: u16) -> (instruction: Instruction)
    ensures
        instruction == decode_word(word),
        instruction.wf(),
{
    let family = (word >> 12) as u8;
    let address = word & 0x0fff;
    let byte = (word & 0x00ff) as u8;
    let nibble = (word & 0x000f) as u8;
    let x = ((word & 0x0f00) >> 8) as u8;
    let y = ((word & 0x00f0) >> 4) as u8;
    assert(word >> 12 == word / 0x1000 && word >> 12 < 0x10) by (bit_vector);
    assert(word & 0x0fff == word % 0x1000) by (bit_vector);
    assert(word & 0x00ff == word % 0x100) by (bit_vector);
    assert(word & 0x000f == word % 0x10) by (bit_vector);
    assert((word & 0x0f00) >> 8 == word / 0x100 % 0x10) by (bit_vector);
    assert((word & 0x00f0) >> 4 == word / 0x10 % 0x10) by (bit_vector);
    match family {
        0x0 => match byte {
            0xe0 => Instruction::ClearScreen,
            0xee => Instruction::Return,
            _ => Instruction::Unknown,
        },
        0x1 => Instruction::Jump { address },
        0x2 => Instruction::Call { address },
        0x3 => Instruction::SkipIfEqualByte { x, byte },
        0x4 => Instruction::SkipIfNotEqualByte { x, byte },
        0x5 => Instruction::SkipIfEqual { x, y },
        0x6 => Instruction::SetByte { x, byte },
        0x7 => Instruction::AddByte { x, byte },
        0x8 => match nibble {
            0x0 => Instruction::Assign { x, y },
            0x1 => Instruction::Or { x, y },
            0x2 => Instruction::And { x, y },
            0x3 => Instruction::Xor { x, y },
            0x4 => Instruction::Add { x, y },
            0x5 => Instruction::Sub { x, y },
            0x6 => Instruction::ShiftRight { x },
            0x7 => Instruction::SubFrom { x, y },
            0xe => Instruction::ShiftLeft { x },
            _ => Instruction::Unknown,
        },
        0x9 => Instruction::SkipIfNotEqual { x, y },
        0xa => Instruction::SetIndex { address },
        0xb => Instruction::JumpOffset { address },
        0xc => Instruction::Random { x, byte },
        0xd => Instruction::Draw { x, y, rows: nibble },
        0xe => match byte {
            0x9e => Instruction::SkipIfKey { x },
            0xa1 => Instruction::SkipIfNotKey { x },
            _ => Instruction::Unknown,
        },
        0xf => match byte {
            0x07 => Instruction::GetDelay { x },
            0x0a => Instruction::WaitKey { x },
            0x15 => Instruction::SetDelay { x },
            0x18 => Instruction::SetSound { x },
            0x1e => Instruction::AddIndex { x },
            0x29 => Instruction::Glyph { x },
            0x33 => Instruction::Bcd { x },
            0x55 => Instruction::Store { x },
            0x65 => Instruction::Fill { x },
            _ => Instruction::Unknown,
        },
        _ => Instruction::Unknown,
    }
}

} // verus!
