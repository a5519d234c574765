//! The instructions and how a word of the program decodes to one.

use vstd::prelude::*;

verus! {

/// One decoded instruction word.
///
/// `x` and `y` name registers, `nn` is the low byte of the word, `n` its low
/// nibble and `nnn` its low twelve bits.
#[derive(Clone, Copy, Debug, PartialEq, Eq, Structural)]
pub enum Instruction {
    /// `00EE`: return from a subroutine.
    Ret,
    /// `00E0`: clear the screen.
    Cls,
    /// `1nnn`: jump to `nnn`.
    Jump { nnn: usize },
    /// `2nnn`: call the subroutine at `nnn`.
    Call { nnn: usize },
    /// `3xnn`: skip the next instruction if `Vx == nn`.
    SkipEqByte { x: usize, nn: u8 },
    /// `4xnn`: skip the next instruction if `Vx != nn`.
    SkipNeByte { x: usize, nn: u8 },
    /// `5xy0`: skip the next instruction if `Vx == Vy`.
    SkipEqReg { x: usize, y: usize },
    /// `6xnn`: `Vx = nn`.
    LoadByte { x: usize, nn: u8 },
    /// `7xnn`: `Vx = Vx + nn`, without a flag.
    AddByte { x: usize, nn: u8 },
    /// `8xy0`: `Vx = Vy`.
    LoadReg { x: usize, y: usize },
    /// `8xy1`: `Vx = Vx | Vy`.
    Or { x: usize, y: usize },
    /// `8xy2`: `Vx = Vx & Vy`.
    And { x: usize, y: usize },
    /// `8xy3`: `Vx = Vx ^ Vy`.
    Xor { x: usize, y: usize },
    /// `8xy4`: `Vx = Vx + Vy`, `VF` the carry.
    AddReg { x: usize, y: usize },
    /// `8xy5`: `Vx = Vx - Vy`, `VF` set when nothing was borrowed.
    SubReg { x: usize, y: usize },
    /// `8xy6`: `Vx` shifted right by one bit, `VF` the bit shifted out.
    ShiftRight { x: usize, y: usize },
    /// `8xy7`: `Vx = Vy - Vx`, `VF` set when nothing was borrowed.
    SubFrom { x: usize, y: usize },
    /// `8xyE`: `Vx` shifted left by one bit, `VF` the bit shifted out.
    ShiftLeft { x: usize, y: usize },
    /// `9xy0`: skip the next instruction if `Vx != Vy`.
    SkipNeReg { x: usize, y: usize },
    /// `Annn`: `I = nnn`.
    LoadIndex { nnn: usize },
    /// `Bnnn`: jump to `V0 + nnn`.
    JumpOffset { nnn: usize },
    /// `Cxnn`: `Vx` = a random byte masked with `nn`.
    Random { x: usize, nn: u8 },
    /// `Dxyn`: draw the `n` rows at `I` as a sprite at `(Vx, Vy)`.
    Draw { x: usize, y: usize, n: u8 },
    /// `Ex9E`: skip the next instruction if the key `Vx` is down.
    SkipKey { x: usize },
    /// `ExA1`: skip the next instruction if the key `Vx` is not down.
    SkipNoKey { x: usize },
    /// `Fx07`: `Vx` = the delay timer.
    LoadDelay { x: usize },
    /// `Fx0A`: wait for a key and store it in `Vx`.
    WaitKey { x: usize },
    /// `Fx15`: the delay timer = `Vx`.
    SetDelay { x: usize },
    /// `Fx18`: the sound timer = `Vx`.
    SetSound { x: usize },
    /// `Fx1E`: `I = I + Vx`.
    AddIndex { x: usize },
    /// `Fx29`: `I` = the address of the glyph for `Vx`.
    LoadGlyph { x: usize },
    /// `Fx33`: store the three decimal digits of `Vx` at `I`.
    StoreBcd { x: usize },
    /// `Fx55`: store `V0..=Vx` at `I`.
    StoreRegs { x: usize },
    /// `Fx65`: load `V0..=Vx` from `I`.
    LoadRegs { x: usize },
    /// Any other word: nothing happens.
    Unknown,
}

/// The nibble of `word` at position `k`, counted from the lowest, `0..=3`.
pub open spec fn nibble(word: u16, k: int) -> int {
    if k == 0 {
        word as int % 16
    } else if k == 1 {
        (word as int / 16) % 16
    } else if k == 2 {
        (word as int / 256) % 16
    } else {
        word as int / 4096
    }
}

/// What an instruction word means: the operation is chosen by the four nibbles.
pub open spec fn decoding(word: u16) -> Instruction {
    let op = nibble(word, 3);
    let x = nibble(word, 2) as usize;
    let y = nibble(word, 1) as usize;
    let n = nibble(word, 0) as u8;
    let nn = (word as int % 256) as u8;
    let nnn = (word as int % 4096) as usize;
    if op == 0x0 {
        if x == 0 && y == 0xe && n == 0xe {
            Instruction::Ret
        } else if x == 0 && y == 0xe && n == 0x0 {
            Instruction::Cls
        } else {
            Instruction::Unknown
        }
    } else if op == 0x1 {
        Instruction::Jump { nnn }
    } else if op == 0x2 {
        Instruction::Call { nnn }
    } else if op == 0x3 {
        Instruction::SkipEqByte { x, nn }
    } else if op == 0x4 {
        Instruction::SkipNeByte { x, nn }
    } else if op == 0x5 {
        if n == 0 {
            Instruction::SkipEqReg { x, y }
        } else {
            Instruction::Unknown
        }
    } else if op == 0x6 {
        Instruction::LoadByte { x, nn }
    } else if op == 0x7 {
        Instruction::AddByte { x, nn }
    } else if op == 0x8 {
        if n == 0x0 {
            Instruction::LoadReg { x, y }
        } else if n == 0x1 {
            Instruction::Or { x, y }
        } else if n == 0x2 {
            Instruction::And { x, y }
        } else if n == 0x3 {
            Instruction::Xor { x, y }
        } else if n == 0x4 {
            Instruction::AddReg { x, y }
        } else if n == 0x5 {
            Instruction::SubReg { x, y }
        } else if n == 0x6 {
            Instruction::ShiftRight { x, y }
        } else if n == 0x7 {
            Instruction::SubFrom { x, y }
        } else if n == 0xe {
            Instruction::ShiftLeft { x, y }
        } else {
            Instruction::Unknown
        }
    } else if op == 0x9 {
        if n == 0 {
            Instruction::SkipNeReg { x, y }
        } else {
            Instruction::Unknown
        }
    } else if op == 0xa {
        Instruction::LoadIndex { nnn }
    } else if op == 0xb {
        Instruction::JumpOffset { nnn }
    } else if op == 0xc {
        Instruction::Random { x, nn }
    } else if op == 0xd {
        Instruction::Draw { x, y, n }
    } else if op == 0xe {
        if nn == 0x9e {
            Instruction::SkipKey { x }
        } else if nn == 0xa1 {
            Instruction::SkipNoKey { x }
        } else {
            Instruction::Unknown
        }
    } else {
        if nn == 0x07 {
            Instruction::LoadDelay { x }
        } else if nn == 0x0a {
            Instruction::WaitKey { x }
        } else if nn == 0x15 {
            Instruction::SetDelay { x }
        } else if nn == 0x18 {
            Instruction::SetSound { x }
        } else if nn == 0x1e {
            Instruction::AddIndex { x }
        } else if nn == 0x29 {
            Instruction::LoadGlyph { x }
        } else if nn == 0x33 {
            Instruction::StoreBcd { x }
        } else if nn == 0x55 {
            Instruction::StoreRegs { x }
        } else if nn == 0x65 {
            Instruction::LoadRegs { x }
        } else {
            Instruction::Unknown
        }
    }
}

impl Instruction {
    /// The instruction moves the program counter, decides whether the next
    /// instruction is skipped, or does nothing.
    pub open spec fn is_flow(self) -> bool {
        match self {
            Instruction::Ret
            | Instruction::Jump { .. }
            | Instruction::Call { .. }
            | Instruction::SkipEqByte { .. }
            | Instruction::SkipNeByte { .. }
            | Instruction::SkipEqReg { .. }
            | Instruction::SkipNeReg { .. }
            | Instruction::JumpOffset { .. }
            | Instruction::SkipKey { .. }
            | Instruction::SkipNoKey { .. }
            | Instruction::Unknown => true,
            _ => false,
        }
    }

    /// The instruction computes a register from registers, from a byte of the
    /// instruction or from a random byte.
    pub open spec fn is_arithmetic(self) -> bool {
        match self {
            Instruction::LoadByte { .. }
            | Instruction::AddByte { .. }
            | Instruction::LoadReg { .. }
            | Instruction::Or { .. }
            | Instruction::And { .. }
            | Instruction::Xor { .. }
            | Instruction::AddReg { .. }
            | Instruction::SubReg { .. }
            | Instruction::ShiftRight { .. }
            | Instruction::SubFrom { .. }
            | Instruction::ShiftLeft { .. }
            | Instruction::Random { .. } => true,
            _ => false,
        }
    }

    /// The operands are in the range that their width in the word allows.
    pub open spec fn well_formed(self) -> bool {
        match self {
            Instruction::Ret | Instruction::Cls | Instruction::Unknown => true,
            Instruction::Jump { nnn }
            | Instruction::Call { nnn }
            | Instruction::LoadIndex { nnn }
            | Instruction::JumpOffset { nnn } => nnn < 4096,
            Instruction::SkipEqByte { x, .. }
            | Instruction::SkipNeByte { x, .. }
            | Instruction::LoadByte { x, .. }
            | Instruction::AddByte { x, .. }
            | Instruction::Random { x, .. }
            | Instruction::SkipKey { x }
            | Instruction::SkipNoKey { x }
            | Instruction::LoadDelay { x }
            | Instruction::WaitKey { x }
            | Instruction::SetDelay { x }
            | Instruction::SetSound { x }
            | Instruction::AddIndex { x }
            | Instruction::LoadGlyph { x }
            | Instruction::StoreBcd { x }
            | Instruction::StoreRegs { x }
            | Instruction::LoadRegs { x } => x < 16,
            Instruction::SkipEqReg { x, y }
            | Instruction::LoadReg { x, y }
            | Instruction::Or { x, y }
            | Instruction::And { x, y }
            | Instruction::Xor { x, y }
            | Instruction::AddReg { x, y }
            | Instruction::SubReg { x, y }
            | Instruction::ShiftRight { x, y }
            | Instruction::SubFrom { x, y }
            | Instruction::ShiftLeft { x, y }
            | Instruction::SkipNeReg { x, y } => x < 16 && y < 16,
            Instruction::Draw { x, y, n } => x < 16 && y < 16 && n < 16,
        }
    }
}

/// Every word decodes to an instruction whose operands are in range.
pub proof fn decoding_is_well_formed(word: u16)
    ensures
        decoding(word).well_formed(),
{
}

/// Decodes an instruction word by its four nibbles.
pub fn decode(word: u16) -> (inst: Instruction)
    ensures
        inst == decoding(word),
        inst.well_formed(),
{
    let op: u16 = (word & 0xf000) >> 12;
    let hi: u16 = (word & 0x0f00) >> 8;
    let mid: u16 = (word & 0x00f0) >> 4;
    let lo: u16 = word & 0x000f;
    let nnn: usize = (word & 0x0fff) as usize;
    let nn: u8 = (word & 0x00ff) as u8;
    let n: u8 = lo as u8;
    let x: usize = hi as usize;
    let y: usize = mid as usize;
    proof {
        assert((word & 0xf000) >> 12 == word / 4096) by (bit_vector);
        assert((word & 0x0f00) >> 8 == (word / 256) % 16) by (bit_vector);
        assert((word & 0x00f0) >> 4 == (word / 16) % 16) by (bit_vector);
        assert(word & 0x000f == word % 16) by (bit_vector);
        assert(word & 0x0fff == word % 4096) by (bit_vector);
        assert(word & 0x00ff == word % 256) by (bit_vector);
    }
    match (op, hi, mid, lo) {
        (0x00, 0x00, 0x0e, 0x0e) => Instruction::Ret,
        (0x00, 0x00, 0x0e, 0x00) => Instruction::Cls,
        (0x01, _, _, _) => Instruction::Jump { nnn },
        (0x02, _, _, _) => Instruction::Call { nnn },
        (0x03, _, _, _) => Instruction::SkipEqByte { x, nn },
        (0x04, _, _, _) => Instruction::SkipNeByte { x, nn },
        (0x05, _, _, 0x00) => Instruction::SkipEqReg { x, y },
        (0x06, _, _, _) => Instruction::LoadByte { x, nn },
        (0x07, _, _, _) => Instruction::AddByte { x, nn },
        (0x08, _, _, 0x00) => Instruction::LoadReg { x, y },
        (0x08, _, _, 0x01) => Instruction::Or { x, y },
        (0x08, _, _, 0x02) => Instruction::And { x, y },
        (0x08, _, _, 0x03) => Instruction::Xor { x, y },
        (0x08, _, _, 0x04) => Instruction::AddReg { x, y },
        (0x08, _, _, 0x05) => Instruction::SubReg { x, y },
        (0x08, _, _, 0x06) => Instruction::ShiftRight { x, y },
        (0x08, _, _, 0x07) => Instruction::SubFrom { x, y },
        (0x08, _, _, 0x0e) => Instruction::ShiftLeft { x, y },
        (0x09, _, _, 0x00) => Instruction::SkipNeReg { x, y },
        (0x0a, _, _, _) => Instruction::LoadIndex { nnn },
        (0x0b, _, _, _) => Instruction::JumpOffset { nnn },
        (0x0c, _, _, _) => Instruction::Random { x, nn },
        (0x0d, _, _, _) => Instruction::Draw { x, y, n },
        (0x0e, _, 0x09, 0x0e) => Instruction::SkipKey { x },
        (0x0e, _, 0x0a, 0x01) => Instruction::SkipNoKey { x },
        (0x0f, _, 0x00, 0x07) => Instruction::LoadDelay { x },
        (0x0f, _, 0x00, 0x0a) => Instruction::WaitKey { x },
        (0x0f, _, 0x01, 0x05) => Instruction::SetDelay { x },
        (0x0f, _, 0x01, 0x08) => Instruction::SetSound { x },
        (0x0f, _, 0x01, 0x0e) => Instruction::AddIndex { x },
        (0x0f, _, 0x02, 0x09) => Instruction::LoadGlyph { x },
        (0x0f, _, 0x03, 0x03) => Instruction::StoreBcd { x },
        (0x0f, _, 0x05, 0x05) => Instruction::StoreRegs { x },
        (0x0f, _, 0x06, 0x05) => Instruction::LoadRegs { x },
        _ => Instruction::Unknown,
    }
}

} // verus!
