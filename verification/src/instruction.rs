//! Instruction words and their decoded form.

use vstd::prelude::*;

verus! {

/// A decoded instruction. `x` and `y` select general registers, `kk` is an
/// immediate byte, `addr` a 12-bit address and `n` a sprite height.
#[derive(Clone, Copy, Debug, PartialEq, Eq)]
pub enum Instruction {
    /// `00E0`: blank the framebuffer.
    ClearScreen,
    /// `00EE`: return from a subroutine.
    Return,
    /// `1nnn`: jump to `addr`.
    Jump { addr: u16 },
    /// `2nnn`: call the subroutine at `addr`.
    Call { addr: u16 },
    /// `3xkk`: skip the next instruction if register `x` equals `kk`.
    SkipIfEqual { x: u8, kk: u8 },
    /// `4xkk`: skip the next instruction if register `x` differs from `kk`.
    SkipIfNotEqual { x: u8, kk: u8 },
    /// `5xy_`: skip the next instruction if registers `x` and `y` are equal.
    SkipIfRegistersEqual { x: u8, y: u8 },
    /// `6xkk`: set register `x` to `kk`.
    LoadImmediate { x: u8, kk: u8 },
    /// `7xkk`: add `kk` to register `x`, wrapping, without touching the flag.
    AddImmediate { x: u8, kk: u8 },
    /// `8xy0`: copy register `y` into register `x`.
    Copy { x: u8, y: u8 },
    /// `8xy1`: bitwise OR of register `y` into register `x`.
    Or { x: u8, y: u8 },
    /// `8xy2`: bitwise AND of register `y` into register `x`.
    And { x: u8, y: u8 },
    /// `8xy3`: bitwise XOR of register `y` into register `x`.
    Xor { x: u8, y: u8 },
    /// `8xy4`: add register `y` to register `x`; the flag reports the carry.
    Add { x: u8, y: u8 },
    /// `8xy5`: subtract register `y` from register `x`; the flag reports "no borrow".
    Subtract { x: u8, y: u8 },
    /// `8xy6`: shift register `x` right by one; the flag receives the bit shifted out.
    ShiftRight { x: u8 },
    /// `8xy7`: set register `x` to register `y` minus register `x`; the flag reports "no borrow".
    SubtractReversed { x: u8, y: u8 },
    /// `8xyE`: shift register `x` left by one; the flag receives the bit shifted out.
    ShiftLeft { x: u8 },
    /// `9xy_`: skip the next instruction if registers `x` and `y` differ.
    SkipIfRegistersNotEqual { x: u8, y: u8 },
    /// `Annn`: set the index register to `addr`.
    LoadIndex { addr: u16 },
    /// `Bnnn`: jump to `addr` plus register 0.
    JumpWithOffset { addr: u16 },
    /// `Cxkk`: set register `x` to a random byte masked by `kk`.
    Random { x: u8, kk: u8 },
    /// `Dxyn`: draw the `n`-row sprite at the index register at (register `x`, register `y`).
    Draw { x: u8, y: u8, n: u8 },
    /// `Ex9E`: skip the next instruction if the key named by register `x` is down.
    SkipIfKeyDown { x: u8 },
    /// `ExA1`: skip the next instruction if the key named by register `x` is not down.
    SkipIfKeyUp { x: u8 },
    /// `Fx07`: read the delay timer into register `x`.
    ReadDelayTimer { x: u8 },
    /// `Fx0A`: wait for a key and latch its index into register `x`.
    WaitForKey { x: u8 },
    /// `Fx15`: set the delay timer from register `x`.
    SetDelayTimer { x: u8 },
    /// `Fx18`: set the sound timer from register `x`.
    SetSoundTimer { x: u8 },
    /// `Fx1E`: add register `x` to the index register.
    AddToIndex { x: u8 },
    /// `Fx29`: point the index register at the glyph for the low nibble of register `x`.
    LoadGlyph { x: u8 },
    /// `Fx33`: store the three decimal digits of register `x` at the index register.
    StoreDecimal { x: u8 },
    /// `Fx55`: store registers 0 through `x` at the index register.
    StoreRegisters { x: u8 },
    /// `Fx65`: load registers 0 through `x` from the index register.
    LoadRegisters { x: u8 },
    /// Any word that names no instruction.
    Unknown { opcode: u16 },
}

/// Highest hexadecimal digit of the word: the instruction family.
pub open spec fn family_of(opcode: u16) -> int {
    opcode as int / 0x1000
}

/// Second hexadecimal digit of the word: the first register operand.
pub open spec fn x_of(opcode: u16) -> u8 {
    ((opcode as int / 0x100) % 0x10) as u8
}

/// Third hexadecimal digit of the word: the second register operand.
pub open spec fn y_of(opcode: u16) -> u8 {
    ((opcode as int / 0x10) % 0x10) as u8
}

/// Lowest hexadecimal digit of the word.
pub open spec fn n_of(opcode: u16) -> u8 {
    (opcode as int % 0x10) as u8
}

/// Low byte of the word: the immediate operand.
pub open spec fn kk_of(opcode: u16) -> u8 {
    (opcode as int % 0x100) as u8
}

/// Low twelve bits of the word: the address operand.
pub open spec fn nnn_of(opcode: u16) -> u16 {
    (opcode as int % 0x1000) as u16
}

/// The register-to-register instruction that an `8xy_` word names.
pub open spec fn decode_arithmetic(opcode: u16) -> Instruction {
    let x = x_of(opcode);
    let y = y_of(opcode);
    let n = n_of(opcode);
    if n == 0x0 {
        Instruction::Copy { x, y }
    } else if n == 0x1 {
        Instruction::Or { x, y }
    } else if n == 0x2 {
        Instruction::And { x, y }
    } else if n == 0x3 {
        Instruction::Xor { x, y }
    } else if n == 0x4 {
        Instruction::Add { x, y }
    } else if n == 0x5 {
        Instruction::Subtract { x, y }
    } else if n == 0x6 {
        Instruction::ShiftRight { x }
    } else if n == 0x7 {
        Instruction::SubtractReversed { x, y }
    } else if n == 0xE {
        Instruction::ShiftLeft { x }
    } else {
        Instruction::Unknown { opcode }
    }
}

/// The timer, index or memory instruction that an `Fx__` word names.
pub open spec fn decode_miscellaneous(opcode: u16) -> Instruction {
    let x = x_of(opcode);
    let kk = kk_of(opcode);
    if kk == 0x07 {
        Instruction::ReadDelayTimer { x }
    } else if kk == 0x0A {
        Instruction::WaitForKey { x }
    } else if kk == 0x15 {
        Instruction::SetDelayTimer { x }
    } else if kk == 0x18 {
        Instruction::SetSoundTimer { x }
    } else if kk == 0x1E {
        Instruction::AddToIndex { x }
    } else if kk == 0x29 {
        Instruction::LoadGlyph { x }
    } else if kk == 0x33 {
        Instruction::StoreDecimal { x }
    } else if kk == 0x55 {
        Instruction::StoreRegisters { x }
    } else if kk == 0x65 {
        Instruction::LoadRegisters { x }
    } else {
        Instruction::Unknown { opcode }
    }
}

/// The instruction that a 16-bit word names. The family digit is looked at
/// first, then the digits that tell the members of a family apart; digits
/// that a family does not use are not looked at.
pub open spec fn decode_spec(opcode: u16) -> Instruction {
    let family = family_of(opcode);
    let x = x_of(opcode);
    let y = y_of(opcode);
    let kk = kk_of(opcode);
    let addr = nnn_of(opcode);
    if family == 0x0 {
        if kk == 0xE0 {
            Instruction::ClearScreen
        } else if kk == 0xEE {
            Instruction::Return
        } else {
            Instruction::Unknown { opcode }
        }
    } else if family == 0x1 {
        Instruction::Jump { addr }
    } else if family == 0x2 {
        Instruction::Call { addr }
    } else if family == 0x3 {
        Instruction::SkipIfEqual { x, kk }
    } else if family == 0x4 {
        Instruction::SkipIfNotEqual { x, kk }
    } else if family == 0x5 {
        Instruction::SkipIfRegistersEqual { x, y }
    } else if family == 0x6 {
        Instruction::LoadImmediate { x, kk }
    } else if family == 0x7 {
        Instruction::AddImmediate { x, kk }
    } else if family == 0x8 {
        decode_arithmetic(opcode)
    } else if family == 0x9 {
        Instruction::SkipIfRegistersNotEqual { x, y }
    } else if family == 0xA {
        Instruction::LoadIndex { addr }
    } else if family == 0xB {
        Instruction::JumpWithOffset { addr }
    } else if family == 0xC {
        Instruction::Random { x, kk }
    } else if family == 0xD {
        Instruction::Draw { x, y, n: n_of(opcode) }
    } else if family == 0xE {
        if kk == 0x9E {
            Instruction::SkipIfKeyDown { x }
        } else if kk == 0xA1 {
            Instruction::SkipIfKeyUp { x }
        } else {
            Instruction::Unknown { opcode }
        }
    } else {
        decode_miscellaneous(opcode)
    }
}

impl Instruction {
    /// Operands are in range: register selectors and sprite heights below 16,
    /// addresses below 4096.
    pub open spec fn wf(self) -> bool {
        match self {
            Instruction::ClearScreen | Instruction::Return => true,
            Instruction::Jump { addr }
            | Instruction::Call { addr }
            | Instruction::LoadIndex { addr }
            | Instruction::JumpWithOffset { addr } => addr < 0x1000,
            Instruction::SkipIfEqual { x, .. }
            | Instruction::SkipIfNotEqual { x, .. }
            | Instruction::LoadImmediate { x, .. }
            | Instruction::AddImmediate { x, .. }
            | Instruction::Random { x, .. }
            | Instruction::ShiftRight { x }
            | Instruction::ShiftLeft { x }
            | Instruction::SkipIfKeyDown { x }
            | Instruction::SkipIfKeyUp { x }
            | Instruction::ReadDelayTimer { x }
            | Instruction::WaitForKey { x }
            | Instruction::SetDelayTimer { x }
            | Instruction::SetSoundTimer { x }
            | Instruction::AddToIndex { x }
            | Instruction::LoadGlyph { x }
            | Instruction::StoreDecimal { x }
            | Instruction::StoreRegisters { x }
            | Instruction::LoadRegisters { x } => x < 16,
            Instruction::SkipIfRegistersEqual { x, y }
            | Instruction::Copy { x, y }
            | Instruction::Or { x, y }
            | Instruction::And { x, y }
            | Instruction::Xor { x, y }
            | Instruction::Add { x, y }
            | Instruction::Subtract { x, y }
            | Instruction::SubtractReversed { x, y }
            | Instruction::SkipIfRegistersNotEqual { x, y } => x < 16 && y < 16,
            Instruction::Draw { x, y, n } => x < 16 && y < 16 && n < 16,
            Instruction::Unknown { .. } => true,
        }
    }
}

/// The shifts and masks that pick a word apart yield its hexadecimal digits.
proof fn lemma_fields(opcode: u16)
    by (bit_vector)
    ensures
        (opcode >> 12) == opcode / 0x1000,
        (opcode >> 12) < 0x10,
        ((opcode >> 8) & 0xF) == (opcode / 0x100) % 0x10,
        ((opcode >> 4) & 0xF) == (opcode / 0x10) % 0x10,
        (opcode & 0xF) == opcode % 0x10,
        (opcode & 0xFF) == opcode % 0x100,
        (opcode & 0xFFF) == opcode % 0x1000,
{
}

/// Decodes the register-to-register family.
fn decode_8xyn(opcode: u16, x: u8, y: u8, n: u8) -> (ins: Instruction)
    requires
        family_of(opcode) == 0x8,
        x == x_of(opcode),
        y == y_of(opcode),
        n == n_of(opcode),
    ensures
        ins == decode_spec(opcode),
{
    match n {
        0x0 => Instruction::Copy { x, y },
        0x1 => Instruction::Or { x, y },
        0x2 => Instruction::And { x, y },
        0x3 => Instruction::Xor { x, y },
        0x4 => Instruction::Add { x, y },
        0x5 => Instruction::Subtract { x, y },
        0x6 => Instruction::ShiftRight { x },
        0x7 => Instruction::SubtractReversed { x, y },
        0xE => Instruction::ShiftLeft { x },
        _ => Instruction::Unknown { opcode },
    }
}

/// Decodes the timer, index and memory family.
fn decode_fxkk(opcode: u16, x: u8, kk: u8) -> (ins: Instruction)
    requires
        family_of(opcode) == 0xF,
        x == x_of(opcode),
        kk == kk_of(opcode),
    ensures
        ins == decode_spec(opcode),
{
    match kk {
        0x07 => Instruction::ReadDelayTimer { x },
        0x0A => Instruction::WaitForKey { x },
        0x15 => Instruction::SetDelayTimer { x },
        0x18 => Instruction::SetSoundTimer { x },
        0x1E => Instruction::AddToIndex { x },
        0x29 => Instruction::LoadGlyph { x },
        0x33 => Instruction::StoreDecimal { x },
        0x55 => Instruction::StoreRegisters { x },
        0x65 => Instruction::LoadRegisters { x },
        _ => Instruction::Unknown { opcode },
    }
}

/// Whether the word names the random instruction, the only one that
/// consumes a random byte.
pub fn is_random(opcode: u16) -> (random: bool)
    ensures
        random == (decode_spec(opcode) is Random),
{
    proof {
        lemma_fields(opcode);
    }
    opcode >> 12 == 0xC
}

/// Decodes one instruction word. Every word decodes: one that names no
/// instruction becomes `Unknown` and carries the word.
pub fn decode(opcode: u16) -> (ins: Instruction)
    ensures
        ins == decode_spec(opcode),
        ins.wf(),
{
    proof {
        lemma_fields(opcode);
    }
    let family: u16 = opcode >> 12;
    let x: u8 = ((opcode >> 8) & 0xF) as u8;
    let y: u8 = ((opcode >> 4) & 0xF) as u8;
    let n: u8 = (opcode & 0xF) as u8;
    let kk: u8 = (opcode & 0xFF) as u8;
    let addr: u16 = opcode & 0xFFF;
    match family {
        0x0 => match kk {
            0xE0 => Instruction::ClearScreen,
            0xEE => Instruction::Return,
            _ => Instruction::Unknown { opcode },
        },
        0x1 => Instruction::Jump { addr },
        0x2 => Instruction::Call { addr },
        0x3 => Instruction::SkipIfEqual { x, kk },
        0x4 => Instruction::SkipIfNotEqual { x, kk },
        0x5 => Instruction::SkipIfRegistersEqual { x, y },
        0x6 => Instruction::LoadImmediate { x, kk },
        0x7 => Instruction::AddImmediate { x, kk },
        0x8 => decode_8xyn(opcode, x, y, n),
        0x9 => Instruction::SkipIfRegistersNotEqual { x, y },
        0xA => Instruction::LoadIndex { addr },
        0xB => Instruction::JumpWithOffset { addr },
        0xC => Instruction::Random { x, kk },
        0xD => Instruction::Draw { x, y, n },
        0xE => match kk {
            0x9E => Instruction::SkipIfKeyDown { x },
            0xA1 => Instruction::SkipIfKeyUp { x },
            _ => Instruction::Unknown { opcode },
        },
        _ => decode_fxkk(opcode, x, kk),
    }
}

} // verus!
