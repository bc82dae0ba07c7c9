use vstd::prelude::*;

verus! {

/// One decoded instruction word. Register operands are indices in `0..16`,
/// addresses are 12-bit values, sprite heights are in `0..16`.
#[derive(Clone, Copy, Debug, PartialEq, Eq, Structural)]
pub enum Instruction {
    /// `00E0`: clear the framebuffer.
    ClearScreen,
    /// `00EE`: return from a subroutine.
    Return,
    /// `1nnn`: jump to `nnn`.
    Jump(u16),
    /// `2nnn`: call the subroutine at `nnn`.
    Call(u16),
    /// `3xkk`: skip the next instruction if `Vx == kk`.
    SkipEqualByte(usize, u8),
    /// `4xkk`: skip the next instruction if `Vx != kk`.
    SkipNotEqualByte(usize, u8),
    /// `5xy_`: skip the next instruction if `Vx == Vy`.
    SkipEqualRegs(usize, usize),
    /// `6xkk`: `Vx = kk`.
    LoadByte(usize, u8),
    /// `7xkk`: `Vx = Vx + kk`, wrapping, flag untouched.
    AddByte(usize, u8),
    /// `8xy0`: `Vx = Vy`.
    Move(usize, usize),
    /// `8xy1`: `Vx = Vx | Vy`.
    Or(usize, usize),
    /// `8xy2`: `Vx = Vx & Vy`.
    And(usize, usize),
    /// `8xy3`: `Vx = Vx ^ Vy`.
    Xor(usize, usize),
    /// `8xy4`: `Vx = Vx + Vy`, `VF` = carry.
    AddRegs(usize, usize),
    /// `8xy5`: `Vx = Vx - Vy`, `VF` = no borrow.
    Sub(usize, usize),
    /// `8xy6`: `Vx = Vx >> 1`, `VF` = the bit shifted out.
    ShiftRight(usize),
    /// `8xy7`: `Vx = Vy - Vx`, `VF` = no borrow.
    SubReverse(usize, usize),
    /// `8xyE`: `Vx = Vx << 1`, `VF` = the bit shifted out.
    ShiftLeft(usize),
    /// `9xy_`: skip the next instruction if `Vx != Vy`.
    SkipNotEqualRegs(usize, usize),
    /// `Annn`: `I = nnn`.
    LoadIndex(u16),
    /// `Bnnn`: jump to `nnn + V0`.
    JumpOffset(u16),
    /// `Cxkk`: `Vx = random & kk`.
    Random(usize, u8),
    /// `Dxyn`: draw the `n`-byte sprite at `I` at `(Vx, Vy)`.
    Draw(usize, usize, u8),
    /// `Ex9E`: skip the next instruction if key `Vx` is pressed.
    SkipKeyPressed(usize),
    /// `ExA1`: skip the next instruction if key `Vx` is not pressed.
    SkipKeyNotPressed(usize),
    /// `Fx07`: `Vx = delay timer`.
    LoadDelay(usize),
    /// `Fx0A`: wait for a key press and store it in `Vx`.
    WaitKey(usize),
    /// `Fx15`: `delay timer = Vx`.
    SetDelay(usize),
    /// `Fx18`: `sound timer = Vx`.
    SetSound(usize),
    /// `Fx1E`: `I = I + Vx`, wrapping at 16 bits.
    AddIndex(usize),
    /// `Fx29`: `I` = address of the font sprite for digit `Vx`.
    LoadFont(usize),
    /// `Fx33`: store the decimal digits of `Vx` at `I`, `I + 1`, `I + 2`.
    StoreBcd(usize),
    /// `Fx55`: store `V0..=Vx` at `I..`.
    StoreRegs(usize),
    /// `Fx65`: load `V0..=Vx` from `I..`.
    LoadRegs(usize),
}

pub open spec fn reg_x(w: u16) -> usize {
    ((w & 0x0F00u16) >> 8u16) as usize
}

pub open spec fn reg_y(w: u16) -> usize {
    ((w & 0x00F0u16) >> 4u16) as usize
}

pub open spec fn low_byte(w: u16) -> u8 {
    (w & 0x00FFu16) as u8
}

pub open spec fn low_nibble(w: u16) -> u8 {
    (w & 0x000Fu16) as u8
}

pub open spec fn address(w: u16) -> u16 {
    w & 0x0FFFu16
}

impl Instruction {
    /// Operands are in range: registers below 16, addresses below 0x1000,
    /// sprite heights below 16.
    pub open spec fn wf(self) -> bool {
        match self {
            Instruction::ClearScreen | Instruction::Return => true,
            Instruction::Jump(a) | Instruction::Call(a) | Instruction::LoadIndex(a)
            | Instruction::JumpOffset(a) => a < 0x1000,
            Instruction::SkipEqualByte(x, _) | Instruction::SkipNotEqualByte(x, _)
            | Instruction::LoadByte(x, _) | Instruction::AddByte(x, _)
            | Instruction::Random(x, _) => x < 16,
            Instruction::SkipEqualRegs(x, y) | Instruction::Move(x, y) | Instruction::Or(x, y)
            | Instruction::And(x, y) | Instruction::Xor(x, y) | Instruction::AddRegs(x, y)
            | Instruction::Sub(x, y) | Instruction::SubReverse(x, y)
            | Instruction::SkipNotEqualRegs(x, y) => x < 16 && y < 16,
            Instruction::Draw(x, y, n) => x < 16 && y < 16 && n < 16,
            Instruction::ShiftRight(x) | Instruction::ShiftLeft(x)
            | Instruction::SkipKeyPressed(x) | Instruction::SkipKeyNotPressed(x)
            | Instruction::LoadDelay(x) | Instruction::WaitKey(x) | Instruction::SetDelay(x)
            | Instruction::SetSound(x) | Instruction::AddIndex(x) | Instruction::LoadFont(x)
            | Instruction::StoreBcd(x) | Instruction::StoreRegs(x)
            | Instruction::LoadRegs(x) => x < 16,
        }
    }
}

/// The instruction that a word encodes, or `None` for a word outside the
/// instruction set. Families `1`-`7`, `9` and `A`-`D` are told apart by the
/// top nibble alone, family `8` by its low nibble as well, families `E` and
/// `F` by their low byte, and family `0` by the whole word.
pub open spec fn decode_spec(w: u16) -> Option<Instruction> {
    let x = reg_x(w);
    let y = reg_y(w);
    let kk = low_byte(w);
    let nnn = address(w);
    let family = w & 0xF000u16;
    if family == 0x0000 {
        if w == 0x00E0 {
            Some(Instruction::ClearScreen)
        } else if w == 0x00EE {
            Some(Instruction::Return)
        } else {
            None
        }
    } else if family == 0x1000 {
        Some(Instruction::Jump(nnn))
    } else if family == 0x2000 {
        Some(Instruction::Call(nnn))
    } else if family == 0x3000 {
        Some(Instruction::SkipEqualByte(x, kk))
    } else if family == 0x4000 {
        Some(Instruction::SkipNotEqualByte(x, kk))
    } else if family == 0x5000 {
        Some(Instruction::SkipEqualRegs(x, y))
    } else if family == 0x6000 {
        Some(Instruction::LoadByte(x, kk))
    } else if family == 0x7000 {
        Some(Instruction::AddByte(x, kk))
    } else if family == 0x8000 {
        decode_arith_spec(w & 0x000Fu16, x, y)
    } else if family == 0x9000 {
        Some(Instruction::SkipNotEqualRegs(x, y))
    } else if family == 0xA000 {
        Some(Instruction::LoadIndex(nnn))
    } else if family == 0xB000 {
        Some(Instruction::JumpOffset(nnn))
    } else if family == 0xC000 {
        Some(Instruction::Random(x, kk))
    } else if family == 0xD000 {
        Some(Instruction::Draw(x, y, low_nibble(w)))
    } else if family == 0xE000 {
        if kk == 0x9E {
            Some(Instruction::SkipKeyPressed(x))
        } else if kk == 0xA1 {
            Some(Instruction::SkipKeyNotPressed(x))
        } else {
            None
        }
    } else {
        decode_misc_spec(kk, x)
    }
}

/// Family `8`, selected by the low nibble `op`.
pub open spec fn decode_arith_spec(op: u16, x: usize, y: usize) -> Option<Instruction> {
    if op == 0x0 {
        Some(Instruction::Move(x, y))
    } else if op == 0x1 {
        Some(Instruction::Or(x, y))
    } else if op == 0x2 {
        Some(Instruction::And(x, y))
    } else if op == 0x3 {
        Some(Instruction::Xor(x, y))
    } else if op == 0x4 {
        Some(Instruction::AddRegs(x, y))
    } else if op == 0x5 {
        Some(Instruction::Sub(x, y))
    } else if op == 0x6 {
        Some(Instruction::ShiftRight(x))
    } else if op == 0x7 {
        Some(Instruction::SubReverse(x, y))
    } else if op == 0xE {
        Some(Instruction::ShiftLeft(x))
    } else {
        None
    }
}

/// Family `F`, selected by the low byte `kk`.
pub open spec fn decode_misc_spec(kk: u8, x: usize) -> Option<Instruction> {
    if kk == 0x07 {
        Some(Instruction::LoadDelay(x))
    } else if kk == 0x0A {
        Some(Instruction::WaitKey(x))
    } else if kk == 0x15 {
        Some(Instruction::SetDelay(x))
    } else if kk == 0x18 {
        Some(Instruction::SetSound(x))
    } else if kk == 0x1E {
        Some(Instruction::AddIndex(x))
    } else if kk == 0x29 {
        Some(Instruction::LoadFont(x))
    } else if kk == 0x33 {
        Some(Instruction::StoreBcd(x))
    } else if kk == 0x55 {
        Some(Instruction::StoreRegs(x))
    } else if kk == 0x65 {
        Some(Instruction::LoadRegs(x))
    } else {
        None
    }
}

/// The operand fields of a word are in range.
pub proof fn lemma_fields_in_range(w: u16)
    ensures
        reg_x(w) < 16,
        reg_y(w) < 16,
        low_nibble(w) < 16,
        address(w) < 0x1000,
{
    assert(((w & 0x0F00u16) >> 8u16) < 16) by (bit_vector);
    assert(((w & 0x00F0u16) >> 4u16) < 16) by (bit_vector);
    assert((w & 0x000Fu16) < 16) by (bit_vector);
    assert((w & 0x0FFFu16) < 0x1000) by (bit_vector);
}

fn decode_arith(op: u16, x: usize, y: usize) -> (r: Option<Instruction>)
    ensures
        r == decode_arith_spec(op, x, y),
{
    match op {
        0x0 => Some(Instruction::Move(x, y)),
        0x1 => Some(Instruction::Or(x, y)),
        0x2 => Some(Instruction::And(x, y)),
        0x3 => Some(Instruction::Xor(x, y)),
        0x4 => Some(Instruction::AddRegs(x, y)),
        0x5 => Some(Instruction::Sub(x, y)),
        0x6 => Some(Instruction::ShiftRight(x)),
        0x7 => Some(Instruction::SubReverse(x, y)),
        0xE => Some(Instruction::ShiftLeft(x)),
        _ => None,
    }
}

fn decode_misc(kk: u8, x: usize) -> (r: Option<Instruction>)
    ensures
        r == decode_misc_spec(kk, x),
{
    match kk {
        0x07 => Some(Instruction::LoadDelay(x)),
        0x0A => Some(Instruction::WaitKey(x)),
        0x15 => Some(Instruction::SetDelay(x)),
        0x18 => Some(Instruction::SetSound(x)),
        0x1E => Some(Instruction::AddIndex(x)),
        0x29 => Some(Instruction::LoadFont(x)),
        0x33 => Some(Instruction::StoreBcd(x)),
        0x55 => Some(Instruction::StoreRegs(x)),
        0x65 => Some(Instruction::LoadRegs(x)),
        _ => None,
    }
}

/// Decodes an instruction word; `None` marks a word outside the instruction
/// set. Every decoded instruction has its operands in range.
pub fn decode(w: u16) -> (r: Option<Instruction>)
    ensures
        r == decode_spec(w),
        r matches Some(i) ==> i.wf(),
{
    proof {
        lemma_fields_in_range(w);
    }
    let x = ((w & 0x0F00u16) >> 8u16) as usize;
    let y = ((w & 0x00F0u16) >> 4u16) as usize;
    let kk = (w & 0x00FFu16) as u8;
    let nnn = w & 0x0FFFu16;
    match w & 0xF000u16 {
        0x0000 => match w {
            0x00E0 => Some(Instruction::ClearScreen),
            0x00EE => Some(Instruction::Return),
            _ => None,
        },
        0x1000 => Some(Instruction::Jump(nnn)),
        0x2000 => Some(Instruction::Call(nnn)),
        0x3000 => Some(Instruction::SkipEqualByte(x, kk)),
        0x4000 => Some(Instruction::SkipNotEqualByte(x, kk)),
        0x5000 => Some(Instruction::SkipEqualRegs(x, y)),
        0x6000 => Some(Instruction::LoadByte(x, kk)),
        0x7000 => Some(Instruction::AddByte(x, kk)),
        0x8000 => decode_arith(w & 0x000Fu16, x, y),
        0x9000 => Some(Instruction::SkipNotEqualRegs(x, y)),
        0xA000 => Some(Instruction::LoadIndex(nnn)),
        0xB000 => Some(Instruction::JumpOffset(nnn)),
        0xC000 => Some(Instruction::Random(x, kk)),
        0xD000 => Some(Instruction::Draw(x, y, (w & 0x000Fu16) as u8)),
        0xE000 => match kk {
            0x9E => Some(Instruction::SkipKeyPressed(x)),
            0xA1 => Some(Instruction::SkipKeyNotPressed(x)),
            _ => None,
        },
        _ => decode_misc(kk, x),
    }
}

} // verus!
