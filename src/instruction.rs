use vstd::prelude::*;

verus! {

/// One decoded instruction. Register operands `x` and `y` are indices 0 through 15,
/// `kk` is an immediate byte, `addr` a 12-bit address and `n` a row count.
#[derive(Debug, Clone, Copy, PartialEq, Eq, Structural)]
pub enum Instruction {
    /// 00E0: clear the frame buffer.
    Clear,
    /// 00EE: return from a subroutine.
    Return,
    /// 1nnn: jump to `addr`.
    Jump { addr: u16 },
    /// 2nnn: call the subroutine at `addr`.
    Call { addr: u16 },
    /// 3xkk: skip the next instruction when Vx equals `kk`.
    SkipEqImm { x: u8, kk: u8 },
    /// 4xkk: skip the next instruction when Vx differs from `kk`.
    SkipNeImm { x: u8, kk: u8 },
    /// 5xy0: skip the next instruction when Vx equals Vy.
    SkipEqReg { x: u8, y: u8 },
    /// 6xkk: Vx = `kk`.
    LoadImm { x: u8, kk: u8 },
    /// 7xkk: Vx = Vx + `kk`, wrapping; the flag register is left alone.
    AddImm { x: u8, kk: u8 },
    /// 8xy0: Vx = Vy.
    Move { x: u8, y: u8 },
    /// 8xy1: Vx = Vx | Vy.
    Or { x: u8, y: u8 },
    /// 8xy2: Vx = Vx & Vy.
    And { x: u8, y: u8 },
    /// 8xy3: Vx = Vx ^ Vy.
    Xor { x: u8, y: u8 },
    /// 8xy4: Vx = Vx + Vy, wrapping; VF = 1 on carry.
    Add { x: u8, y: u8 },
    /// 8xy5: Vx = Vx - Vy, wrapping; VF = 1 when no borrow occurred.
    Sub { x: u8, y: u8 },
    /// 8xy6: VF = low bit of Vx; Vx = Vx >> 1.
    ShiftRight { x: u8 },
    /// 8xy7: Vx = Vy - Vx, wrapping; VF = 1 when no borrow occurred.
    SubReversed { x: u8, y: u8 },
    /// 8xyE: VF = high bit of Vx; Vx = Vx << 1.
    ShiftLeft { x: u8 },
    /// 9xy0: skip the next instruction when Vx differs from Vy.
    SkipNeReg { x: u8, y: u8 },
    /// Annn: I = `addr`.
    LoadIndex { addr: u16 },
    /// Bnnn: jump to `addr` + V0.
    JumpOffset { addr: u16 },
    /// Cxkk: Vx = a random byte & `kk`.
    Random { x: u8, kk: u8 },
    /// Dxyn: draw the `n`-row sprite at I at (Vx, Vy).
    Draw { x: u8, y: u8, n: u8 },
    /// Ex9E: skip the next instruction when the key in Vx is down.
    SkipKeyDown { x: u8 },
    /// ExA1: skip the next instruction when the key in Vx is up.
    SkipKeyUp { x: u8 },
    /// Fx07: Vx = delay timer.
    LoadDelay { x: u8 },
    /// Fx0A: wait until a key is down and store its index in Vx.
    WaitKey { x: u8 },
    /// Fx15: delay timer = Vx.
    SetDelay { x: u8 },
    /// Fx18: sound timer = Vx.
    SetSound { x: u8 },
    /// Fx1E: I = I + Vx, wrapping.
    AddIndex { x: u8 },
    /// Fx29: I = address of the glyph for the digit in Vx.
    LoadGlyph { x: u8 },
    /// Fx33: store the decimal digits of Vx at I, I+1, I+2.
    StoreBcd { x: u8 },
    /// Fx55: store V0 through Vx at I onwards.
    StoreRegisters { x: u8 },
    /// Fx65: load V0 through Vx from I onwards.
    LoadRegisters { x: u8 },
    /// Any other word: executed as a no-op.
    Unknown { opcode: u16 },
}

/// The first (most significant) nibble of an instruction word.
pub open spec fn nibble1(op: u16) -> u8 {
    (op / 4096) as u8
}

/// The second nibble: the `x` register operand.
pub open spec fn nibble2(op: u16) -> u8 {
    ((op / 256) % 16) as u8
}

/// The third nibble: the `y` register operand.
pub open spec fn nibble3(op: u16) -> u8 {
    ((op / 16) % 16) as u8
}

/// The last nibble.
pub open spec fn nibble4(op: u16) -> u8 {
    (op % 16) as u8
}

/// The low twelve bits: an address operand.
pub open spec fn addr_of(op: u16) -> u16 {
    (op % 4096) as u16
}

/// The low byte: an immediate operand.
pub open spec fn byte_of(op: u16) -> u8 {
    (op % 256) as u8
}

/// The instruction that an instruction word encodes.
pub open spec fn decode_spec(op: u16) -> Instruction {
    let (a, x, y, n) = (nibble1(op), nibble2(op), nibble3(op), nibble4(op));
    let addr = addr_of(op);
    let kk = byte_of(op);
    if op == 0x00E0 {
        Instruction::Clear
    } else if op == 0x00EE {
        Instruction::Return
    } else if a == 0x1 {
        Instruction::Jump { addr }
    } else if a == 0x2 {
        Instruction::Call { addr }
    } else if a == 0x3 {
        Instruction::SkipEqImm { x, kk }
    } else if a == 0x4 {
        Instruction::SkipNeImm { x, kk }
    } else if a == 0x5 && n == 0x0 {
        Instruction::SkipEqReg { x, y }
    } else if a == 0x6 {
        Instruction::LoadImm { x, kk }
    } else if a == 0x7 {
        Instruction::AddImm { x, kk }
    } else if a == 0x8 && n == 0x0 {
        Instruction::Move { x, y }
    } else if a == 0x8 && n == 0x1 {
        Instruction::Or { x, y }
    } else if a == 0x8 && n == 0x2 {
        Instruction::And { x, y }
    } else if a == 0x8 && n == 0x3 {
        Instruction::Xor { x, y }
    } else if a == 0x8 && n == 0x4 {
        Instruction::Add { x, y }
    } else if a == 0x8 && n == 0x5 {
        Instruction::Sub { x, y }
    } else if a == 0x8 && n == 0x6 {
        Instruction::ShiftRight { x }
    } else if a == 0x8 && n == 0x7 {
        Instruction::SubReversed { x, y }
    } else if a == 0x8 && n == 0xE {
        Instruction::ShiftLeft { x }
    } else if a == 0x9 && n == 0x0 {
        Instruction::SkipNeReg { x, y }
    } else if a == 0xA {
        Instruction::LoadIndex { addr }
    } else if a == 0xB {
        Instruction::JumpOffset { addr }
    } else if a == 0xC {
        Instruction::Random { x, kk }
    } else if a == 0xD {
        Instruction::Draw { x, y, n }
    } else if a == 0xE && kk == 0x9E {
        Instruction::SkipKeyDown { x }
    } else if a == 0xE && kk == 0xA1 {
        Instruction::SkipKeyUp { x }
    } else if a == 0xF && kk == 0x07 {
        Instruction::LoadDelay { x }
    } else if a == 0xF && kk == 0x0A {
        Instruction::WaitKey { x }
    } else if a == 0xF && kk == 0x15 {
        Instruction::SetDelay { x }
    } else if a == 0xF && kk == 0x18 {
        Instruction::SetSound { x }
    } else if a == 0xF && kk == 0x1E {
        Instruction::AddIndex { x }
    } else if a == 0xF && kk == 0x29 {
        Instruction::LoadGlyph { x }
    } else if a == 0xF && kk == 0x33 {
        Instruction::StoreBcd { x }
    } else if a == 0xF && kk == 0x55 {
        Instruction::StoreRegisters { x }
    } else if a == 0xF && kk == 0x65 {
        Instruction::LoadRegisters { x }
    } else {
        Instruction::Unknown { opcode: op }
    }
}

impl Instruction {
    /// Every register operand names one of the sixteen registers, and every
    /// sprite height fits in a nibble.
    pub open spec fn operands_in_range(self) -> bool {
        match self {
            Instruction::SkipEqImm { x, .. } | Instruction::SkipNeImm { x, .. }
            | Instruction::LoadImm { x, .. } | Instruction::AddImm { x, .. }
            | Instruction::ShiftRight { x } | Instruction::ShiftLeft { x }
            | Instruction::Random { x, .. } | Instruction::SkipKeyDown { x }
            | Instruction::SkipKeyUp { x } | Instruction::LoadDelay { x }
            | Instruction::WaitKey { x } | Instruction::SetDelay { x }
            | Instruction::SetSound { x } | Instruction::AddIndex { x }
            | Instruction::LoadGlyph { x } | Instruction::StoreBcd { x }
            | Instruction::StoreRegisters { x } | Instruction::LoadRegisters { x } => x < 16,
            Instruction::SkipEqReg { x, y } | Instruction::Move { x, y }
            | Instruction::Or { x, y } | Instruction::And { x, y }
            | Instruction::Xor { x, y } | Instruction::Add { x, y }
            | Instruction::Sub { x, y } | Instruction::SubReversed { x, y }
            | Instruction::SkipNeReg { x, y } => x < 16 && y < 16,
            Instruction::Draw { x, y, n } => x < 16 && y < 16 && n < 16,
            Instruction::Jump { addr } | Instruction::Call { addr }
            | Instruction::LoadIndex { addr } | Instruction::JumpOffset { addr } => addr < 4096,
            _ => true,
        }
    }
}

/// Decodes an instruction word by splitting it into four nibbles.
pub fn decode(op: u16) -> (r: Instruction)
    ensures
        r == decode_spec(op),
        r.operands_in_range(),
{
    let a = (op / 4096) as u8;
    let x = ((op / 256) % 16) as u8;
    let y = ((op / 16) % 16) as u8;
    let n = (op % 16) as u8;
    let addr = op % 4096;
    let kk = (op % 256) as u8;
    if op == 0x00E0 {
        Instruction::Clear
    } else if op == 0x00EE {
        Instruction::Return
    } else if a == 0x1 {
        Instruction::Jump { addr }
    } else if a == 0x2 {
        Instruction::Call { addr }
    } else if a == 0x3 {
        Instruction::SkipEqImm { x, kk }
    } else if a == 0x4 {
        Instruction::SkipNeImm { x, kk }
    } else if a == 0x5 && n == 0x0 {
        Instruction::SkipEqReg { x, y }
    } else if a == 0x6 {
        Instruction::LoadImm { x, kk }
    } else if a == 0x7 {
        Instruction::AddImm { x, kk }
    } else if a == 0x8 {
        match n {
            0x0 => Instruction::Move { x, y },
            0x1 => Instruction::Or { x, y },
            0x2 => Instruction::And { x, y },
            0x3 => Instruction::Xor { x, y },
            0x4 => Instruction::Add { x, y },
            0x5 => Instruction::Sub { x, y },
            0x6 => Instruction::ShiftRight { x },
            0x7 => Instruction::SubReversed { x, y },
            0xE => Instruction::ShiftLeft { x },
            _ => Instruction::Unknown { opcode: op },
        }
    } else if a == 0x9 && n == 0x0 {
        Instruction::SkipNeReg { x, y }
    } else if a == 0xA {
        Instruction::LoadIndex { addr }
    } else if a == 0xB {
        Instruction::JumpOffset { addr }
    } else if a == 0xC {
        Instruction::Random { x, kk }
    } else if a == 0xD {
        Instruction::Draw { x, y, n }
    } else if a == 0xE && kk == 0x9E {
        Instruction::SkipKeyDown { x }
    } else if a == 0xE && kk == 0xA1 {
        Instruction::SkipKeyUp { x }
    } else if a == 0xF {
        match kk {
            0x07 => Instruction::LoadDelay { x },
            0x0A => Instruction::WaitKey { x },
            0x15 => Instruction::SetDelay { x },
            0x18 => Instruction::SetSound { x },
            0x1E => Instruction::AddIndex { x },
            0x29 => Instruction::LoadGlyph { x },
            0x33 => Instruction::StoreBcd { x },
            0x55 => Instruction::StoreRegisters { x },
            0x65 => Instruction::LoadRegisters { x },
            _ => Instruction::Unknown { opcode: op },
        }
    } else {
        Instruction::Unknown { opcode: op }
    }
}

} // verus!
