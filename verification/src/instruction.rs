use vstd::prelude::*;

verus! {

/// One decoded instruction. Register operands are indices below sixteen,
/// addresses are below `0x1000`.
#[derive(Clone, Copy, Debug, PartialEq, Eq, Structural)]
pub enum Instruction {
    /// `00E0`: blank the display.
    ClearScreen,
    /// `00EE`: pop the call stack into the program counter.
    Return,
    /// `1nnn`: continue at `target`.
    Jump { target: u16 },
    /// `2nnn`: push the program counter, continue at `target`.
    Call { target: u16 },
    /// `3xkk`: skip the next instruction if `Vx == value`.
    SkipIfEqual { x: u8, value: u8 },
    /// `4xkk`: skip the next instruction if `Vx != value`.
    SkipIfNotEqual { x: u8, value: u8 },
    /// `5xy_` and `9xy_`: skip the next instruction if `Vx != Vy`.
    /// Both families test for inequality, and neither looks at the last nibble.
    SkipIfRegistersDiffer { x: u8, y: u8 },
    /// `6xkk`: `Vx = value`.
    Load { x: u8, value: u8 },
    /// `7xkk`: `Vx = Vx + value`, wrapping, flag untouched.
    AddValue { x: u8, value: u8 },
    /// `8xy0`: `Vx = Vy`.
    Move { x: u8, y: u8 },
    /// `8xy1`: `Vx = Vx | Vy`.
    Or { x: u8, y: u8 },
    /// `8xy2`: `Vx = Vx & Vy`.
    And { x: u8, y: u8 },
    /// `8xy3`: `Vx = Vx ^ Vy`.
    Xor { x: u8, y: u8 },
    /// `8xy4`: `Vx = Vx + Vy` truncated to a byte, flag set on carry.
    AddRegister { x: u8, y: u8 },
    /// `8xy5`: flag set if `Vx > Vy`, and `Vx = Vx - Vy`, wrapping; both
    /// taken of the registers as they were.
    Subtract { x: u8, y: u8 },
    /// `8xy6`: flag takes the lowest bit of `Vx`, and `Vx` is halved.
    ShiftRight { x: u8 },
    /// `8xy7`: flag set if `Vy > Vx`, and `Vx = Vy - Vx`, which must not be
    /// negative; both taken of the registers as they were.
    SubtractFrom { x: u8, y: u8 },
    /// `8xyE`: flag takes `Vx & 0x80`, and `Vx` is doubled, the top bit dropped.
    ShiftLeft { x: u8 },
    /// `Annn`: `I = address`.
    SetIndex { address: u16 },
    /// `Bnnn`: continue at `base + V0`. The sum is taken in full, so it may
    /// lie past the end of memory, where the next fetch faults.
    JumpOffset { base: u16 },
    /// `Cxkk`: `Vx` becomes a random byte masked by `mask`.
    Random { x: u8, mask: u8 },
    /// `Dxyn`: draw the `rows`-row sprite at `I` at `(Vx, Vy)`; the flag says
    /// whether a lit pixel went off.
    Draw { x: u8, y: u8, rows: u8 },
    /// `Ex9E`: skip the next instruction if key `Vx` is down.
    SkipIfKeyDown { x: u8 },
    /// `ExA1`: skip the next instruction if key `Vx` is up.
    SkipIfKeyUp { x: u8 },
    /// `Fx07`: `Vx` takes the delay timer.
    ReadDelay { x: u8 },
    /// `Fx0A`: stop and wait for a key, which will be written to `Vx`.
    AwaitKey { x: u8 },
    /// `Fx15`: the delay timer takes `Vx`.
    SetDelay { x: u8 },
    /// `Fx18`: the sound timer takes `Vx`.
    SetSound { x: u8 },
    /// `Fx1E`: `I = I + Vx`.
    AddToIndex { x: u8 },
    /// `Fx29`: `I` takes the address of the glyph for `Vx`.
    Glyph { x: u8 },
    /// `Fx33`: the three decimal digits of `Vx` go to memory at `I`.
    Decimal { x: u8 },
    /// `Fx55`: `V0..=Vx` go to memory at `I`.
    Store { x: u8 },
    /// `Fx65`: `V0..=Vx` are read back from memory at `I`.
    Restore { x: u8 },
    /// Anything else.
    Unknown,
}

/// The top nibble of an opcode: its instruction family.
pub open spec fn family(opcode: u16) -> int {
    opcode as int / 0x1000
}

/// The second nibble: the register operand `x`.
pub open spec fn operand_x(opcode: u16) -> u8 {
    ((opcode as int / 0x100) % 0x10) as u8
}

/// The third nibble: the register operand `y`.
pub open spec fn operand_y(opcode: u16) -> u8 {
    ((opcode as int / 0x10) % 0x10) as u8
}

/// The last nibble.
pub open spec fn operand_n(opcode: u16) -> u8 {
    (opcode as int % 0x10) as u8
}

/// The low byte.
pub open spec fn operand_kk(opcode: u16) -> u8 {
    (opcode as int % 0x100) as u8
}

/// The low twelve bits.
pub open spec fn operand_nnn(opcode: u16) -> u16 {
    (opcode as int % 0x1000) as u16
}

/// The instruction that a sixteen-bit opcode stands for.
pub open spec fn decoded(opcode: u16) -> Instruction {
    let x = operand_x(opcode);
    let y = operand_y(opcode);
    let n = operand_n(opcode);
    let kk = operand_kk(opcode);
    let nnn = operand_nnn(opcode);
    let f = family(opcode);
    if f == 0x0 {
        if opcode == 0x00E0 {
            Instruction::ClearScreen
        } else if opcode == 0x00EE {
            Instruction::Return
        } else {
            Instruction::Unknown
        }
    } else if f == 0x1 {
        Instruction::Jump { target: nnn }
    } else if f == 0x2 {
        Instruction::Call { target: nnn }
    } else if f == 0x3 {
        Instruction::SkipIfEqual { x, value: kk }
    } else if f == 0x4 {
        Instruction::SkipIfNotEqual { x, value: kk }
    } else if f == 0x5 || f == 0x9 {
        Instruction::SkipIfRegistersDiffer { x, y }
    } else if f == 0x6 {
        Instruction::Load { x, value: kk }
    } else if f == 0x7 {
        Instruction::AddValue { x, value: kk }
    } else if f == 0x8 {
        if n == 0x0 {
            Instruction::Move { x, y }
        } else if n == 0x1 {
            Instruction::Or { x, y }
        } else if n == 0x2 {
            Instruction::And { x, y }
        } else if n == 0x3 {
            Instruction::Xor { x, y }
        } else if n == 0x4 {
            Instruction::AddRegister { x, y }
        } else if n == 0x5 {
            Instruction::Subtract { x, y }
        } else if n == 0x6 {
            Instruction::ShiftRight { x }
        } else if n == 0x7 {
            Instruction::SubtractFrom { x, y }
        } else if n == 0xE {
            Instruction::ShiftLeft { x }
        } else {
            Instruction::Unknown
        }
    } else if f == 0xA {
        Instruction::SetIndex { address: nnn }
    } else if f == 0xB {
        Instruction::JumpOffset { base: nnn }
    } else if f == 0xC {
        Instruction::Random { x, mask: kk }
    } else if f == 0xD {
        Instruction::Draw { x, y, rows: n }
    } else if f == 0xE {
        if kk == 0x9E {
            Instruction::SkipIfKeyDown { x }
        } else if kk == 0xA1 {
            Instruction::SkipIfKeyUp { x }
        } else {
            Instruction::Unknown
        }
    } else {
        if kk == 0x07 {
            Instruction::ReadDelay { x }
        } else if kk == 0x0A {
            Instruction::AwaitKey { x }
        } else if kk == 0x15 {
            Instruction::SetDelay { x }
        } else if kk == 0x18 {
            Instruction::SetSound { x }
        } else if kk == 0x1E {
            Instruction::AddToIndex { x }
        } else if kk == 0x29 {
            Instruction::Glyph { x }
        } else if kk == 0x33 {
            Instruction::Decimal { x }
        } else if kk == 0x55 {
            Instruction::Store { x }
        } else if kk == 0x65 {
            Instruction::Restore { x }
        } else {
            Instruction::Unknown
        }
    }
}

impl Instruction {
    /// Register operands name one of the sixteen registers, addresses fit in
    /// twelve bits, and a sprite has at most fifteen rows.
    pub open spec fn wf(self) -> bool {
        match self {
            Instruction::ClearScreen | Instruction::Return | Instruction::Unknown => true,
            Instruction::Jump { target } | Instruction::Call { target } => target < 0x1000,
            Instruction::SetIndex { address } => address < 0x1000,
            Instruction::JumpOffset { base } => base < 0x1000,
            Instruction::SkipIfEqual { x, .. }
            | Instruction::SkipIfNotEqual { x, .. }
            | Instruction::Load { x, .. }
            | Instruction::AddValue { x, .. }
            | Instruction::Random { x, .. }
            | Instruction::ShiftRight { x }
            | Instruction::ShiftLeft { x }
            | Instruction::SkipIfKeyDown { x }
            | Instruction::SkipIfKeyUp { x }
            | Instruction::ReadDelay { x }
            | Instruction::AwaitKey { x }
            | Instruction::SetDelay { x }
            | Instruction::SetSound { x }
            | Instruction::AddToIndex { x }
            | Instruction::Glyph { x }
            | Instruction::Decimal { x }
            | Instruction::Store { x }
            | Instruction::Restore { x } => x < 16,
            Instruction::SkipIfRegistersDiffer { x, y }
            | Instruction::Move { x, y }
            | Instruction::Or { x, y }
            | Instruction::And { x, y }
            | Instruction::Xor { x, y }
            | Instruction::AddRegister { x, y }
            | Instruction::Subtract { x, y }
            | Instruction::SubtractFrom { x, y } => x < 16 && y < 16,
            Instruction::Draw { x, y, rows } => x < 16 && y < 16 && rows < 16,
        }
    }
}

/// Every opcode decodes to a well-formed instruction.
pub proof fn lemma_decoded_wf(opcode: u16)
    ensures
        decoded(opcode).wf(),
{
}

/// Splits an opcode into its family and operands and names the instruction.
pub fn decode(opcode: u16) -> (instr: Instruction)
    ensures
        instr == decoded(opcode),
        instr.wf(),
{
    let f: u16 = opcode >> 12;
    let x: u8 = ((opcode & 0x0F00) >> 8) as u8;
    let y: u8 = ((opcode & 0x00F0) >> 4) as u8;
    let n: u8 = (opcode & 0x000F) as u8;
    let kk: u8 = (opcode & 0x00FF) as u8;
    let nnn: u16 = opcode & 0x0FFF;
    proof {
        assert(opcode >> 12 == opcode / 0x1000) by (bit_vector);
        assert((opcode & 0x0F00) >> 8 == (opcode / 0x100) % 0x10) by (bit_vector);
        assert((opcode & 0x00F0) >> 4 == (opcode / 0x10) % 0x10) by (bit_vector);
        assert(opcode & 0x000F == opcode % 0x10) by (bit_vector);
        assert(opcode & 0x00FF == opcode % 0x100) by (bit_vector);
        assert(opcode & 0x0FFF == opcode % 0x1000) by (bit_vector);
        lemma_decoded_wf(opcode);
    }
    match f {
        0x0 => match opcode {
            0x00E0 => Instruction::ClearScreen,
            0x00EE => Instruction::Return,
            _ => Instruction::Unknown,
        },
        0x1 => Instruction::Jump { target: nnn },
        0x2 => Instruction::Call { target: nnn },
        0x3 => Instruction::SkipIfEqual { x, value: kk },
        0x4 => Instruction::SkipIfNotEqual { x, value: kk },
        0x5 | 0x9 => Instruction::SkipIfRegistersDiffer { x, y },
        0x6 => Instruction::Load { x, value: kk },
        0x7 => Instruction::AddValue { x, value: kk },
        0x8 => match n {
            0x0 => Instruction::Move { x, y },
            0x1 => Instruction::Or { x, y },
            0x2 => Instruction::And { x, y },
            0x3 => Instruction::Xor { x, y },
            0x4 => Instruction::AddRegister { x, y },
            0x5 => Instruction::Subtract { x, y },
            0x6 => Instruction::ShiftRight { x },
            0x7 => Instruction::SubtractFrom { x, y },
            0xE => Instruction::ShiftLeft { x },
            _ => Instruction::Unknown,
        },
        0xA => Instruction::SetIndex { address: nnn },
        0xB => Instruction::JumpOffset { base: nnn },
        0xC => Instruction::Random { x, mask: kk },
        0xD => Instruction::Draw { x, y, rows: n },
        0xE => match kk {
            0x9E => Instruction::SkipIfKeyDown { x },
            0xA1 => Instruction::SkipIfKeyUp { x },
            _ => Instruction::Unknown,
        },
        _ => match kk {
            0x07 => Instruction::ReadDelay { x },
            0x0A => Instruction::AwaitKey { x },
            0x15 => Instruction::SetDelay { x },
            0x18 => Instruction::SetSound { x },
            0x1E => Instruction::AddToIndex { x },
            0x29 => Instruction::Glyph { x },
            0x33 => Instruction::Decimal { x },
            0x55 => Instruction::Store { x },
            0x65 => Instruction::Restore { x },
            _ => Instruction::Unknown,
        },
    }
}

} // verus!
