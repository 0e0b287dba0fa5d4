//! Decoding of 16-bit opcodes into instructions.
use vstd::prelude::*;

verus! {

/// One decoded CHIP-8 instruction. Register operands `x` and `y` are
/// register indices below 16, `n` is below 16 and `addr` below 0x1000.
#[derive(Clone, Copy, Debug, PartialEq, Eq, Structural)]
pub enum Instr {
    /// 0000: stop the program.
    Halt,
    /// 00E0: clear the screen.
    ClearScreen,
    /// 00EE: return from a subroutine; faults on an empty stack.
    Return,
    /// 1nnn: jump to `addr`.
    Jump { addr: u16 },
    /// 2nnn: call the subroutine at `addr`; faults on a full stack.
    Call { addr: u16 },
    /// 3xkk: skip the next instruction if `Vx == kk`.
    SkipEqImm { x: u8, kk: u8 },
    /// 4xkk: skip the next instruction if `Vx != kk`.
    SkipNeImm { x: u8, kk: u8 },
    /// 5xy0: skip the next instruction if `Vx == Vy`.
    SkipEqReg { x: u8, y: u8 },
    /// 6xkk: `Vx = kk`.
    LoadImm { x: u8, kk: u8 },
    /// 7xkk: `Vx = Vx + kk`, wrapping, VF untouched.
    AddImm { x: u8, kk: u8 },
    /// 8xy0: `Vx = Vy`.
    LoadReg { x: u8, y: u8 },
    /// 8xy1: `Vx = Vx | Vy`.
    Or { x: u8, y: u8 },
    /// 8xy2: `Vx = Vx & Vy`.
    And { x: u8, y: u8 },
    /// 8xy3: `Vx = Vx ^ Vy`.
    Xor { x: u8, y: u8 },
    /// 8xy4: `Vx = Vx + Vy`, VF = carry.
    AddReg { x: u8, y: u8 },
    /// 8xy5: `Vx = Vx - Vy`, VF = not borrow.
    SubReg { x: u8, y: u8 },
    /// 8xy6: `Vx = Vx >> 1`, VF = the bit shifted out.
    ShiftRight { x: u8 },
    /// 8xy7: `Vx = Vy - Vx`, VF = not borrow.
    SubRegRev { x: u8, y: u8 },
    /// 8xyE: `Vx = Vx << 1`, VF = the bit shifted out.
    ShiftLeft { x: u8 },
    /// 9xy0: skip the next instruction if `Vx != Vy`.
    SkipNeReg { x: u8, y: u8 },
    /// Annn: `I = addr`.
    SetIndex { addr: u16 },
    /// Bnnn: jump to `V0 + addr`.
    JumpPlusV0 { addr: u16 },
    /// Cxkk: `Vx = random byte & kk`.
    Rand { x: u8, kk: u8 },
    /// Dxyn: XOR an `n`-row sprite from memory at `I` onto the screen at
    /// `(Vx, Vy)`, VF = collision; faults where the rows run past memory.
    Draw { x: u8, y: u8, n: u8 },
    /// Ex9E: skip the next instruction if key `Vx` is down; faults where
    /// `Vx` names no key.
    SkipKey { x: u8 },
    /// ExA1: skip the next instruction if key `Vx` is up; faults where
    /// `Vx` names no key.
    SkipNotKey { x: u8 },
    /// Fx07: `Vx = delay timer`.
    LoadDelay { x: u8 },
    /// Fx0A: wait for a key and store its index in `Vx`.
    AwaitKey { x: u8 },
    /// Fx15: `delay timer = Vx`.
    SetDelay { x: u8 },
    /// Fx18: `sound timer = Vx`.
    SetSound { x: u8 },
    /// Fx1E: `I = I + Vx`; faults where that runs past memory.
    AddIndex { x: u8 },
    /// Fx29: `I` = address of the font glyph for digit `Vx`.
    IndexDigit { x: u8 },
    /// Fx33: store the decimal digits of `Vx` at `I`, `I+1`, `I+2`; faults
    /// where they run past memory.
    BcdStore { x: u8 },
    /// Fx55: store `V0..=Vx` at `I..=I+x`; faults where that runs past memory.
    RegDump { x: u8 },
    /// Fx65: load `V0..=Vx` from `I..=I+x`; faults where that runs past memory.
    RegLoad { x: u8 },
}

/// The instruction family: the top nibble.
pub open spec fn op_family(op: u16) -> int {
    op as int / 0x1000
}

/// The first register operand: bits 8 to 11.
pub open spec fn op_x(op: u16) -> u8 {
    ((op as int / 0x100) % 0x10) as u8
}

/// The second register operand: bits 4 to 7.
pub open spec fn op_y(op: u16) -> u8 {
    ((op as int / 0x10) % 0x10) as u8
}

/// The low nibble.
pub open spec fn op_n(op: u16) -> u8 {
    (op as int % 0x10) as u8
}

/// The low byte.
pub open spec fn op_kk(op: u16) -> u8 {
    (op as int % 0x100) as u8
}

/// The low twelve bits.
pub open spec fn op_addr(op: u16) -> u16 {
    (op as int % 0x1000) as u16
}

/// The instruction that an opcode stands for, or `None` where no
/// instruction has that encoding.
pub open spec fn decode_spec(op: u16) -> Option<Instr> {
    let f = op_family(op);
    let x = op_x(op);
    let y = op_y(op);
    let n = op_n(op);
    let kk = op_kk(op);
    let addr = op_addr(op);
    if op == 0x0000 {
        Some(Instr::Halt)
    } else if op == 0x00E0 {
        Some(Instr::ClearScreen)
    } else if op == 0x00EE {
        Some(Instr::Return)
    } else if f == 0x1 {
        Some(Instr::Jump { addr })
    } else if f == 0x2 {
        Some(Instr::Call { addr })
    } else if f == 0x3 {
        Some(Instr::SkipEqImm { x, kk })
    } else if f == 0x4 {
        Some(Instr::SkipNeImm { x, kk })
    } else if f == 0x5 && n == 0 {
        Some(Instr::SkipEqReg { x, y })
    } else if f == 0x6 {
        Some(Instr::LoadImm { x, kk })
    } else if f == 0x7 {
        Some(Instr::AddImm { x, kk })
    } else if f == 0x8 {
        if n == 0x0 {
            Some(Instr::LoadReg { x, y })
        } else if n == 0x1 {
            Some(Instr::Or { x, y })
        } else if n == 0x2 {
            Some(Instr::And { x, y })
        } else if n == 0x3 {
            Some(Instr::Xor { x, y })
        } else if n == 0x4 {
            Some(Instr::AddReg { x, y })
        } else if n == 0x5 {
            Some(Instr::SubReg { x, y })
        } else if n == 0x6 {
            Some(Instr::ShiftRight { x })
        } else if n == 0x7 {
            Some(Instr::SubRegRev { x, y })
        } else if n == 0xE {
            Some(Instr::ShiftLeft { x })
        } else {
            None
        }
    } else if f == 0x9 && n == 0 {
        Some(Instr::SkipNeReg { x, y })
    } else if f == 0xA {
        Some(Instr::SetIndex { addr })
    } else if f == 0xB {
        Some(Instr::JumpPlusV0 { addr })
    } else if f == 0xC {
        Some(Instr::Rand { x, kk })
    } else if f == 0xD {
        Some(Instr::Draw { x, y, n })
    } else if f == 0xE && kk == 0x9E {
        Some(Instr::SkipKey { x })
    } else if f == 0xE && kk == 0xA1 {
        Some(Instr::SkipNotKey { x })
    } else if f == 0xF && kk == 0x07 {
        Some(Instr::LoadDelay { x })
    } else if f == 0xF && kk == 0x0A {
        Some(Instr::AwaitKey { x })
    } else if f == 0xF && kk == 0x15 {
        Some(Instr::SetDelay { x })
    } else if f == 0xF && kk == 0x18 {
        Some(Instr::SetSound { x })
    } else if f == 0xF && kk == 0x1E {
        Some(Instr::AddIndex { x })
    } else if f == 0xF && kk == 0x29 {
        Some(Instr::IndexDigit { x })
    } else if f == 0xF && kk == 0x33 {
        Some(Instr::BcdStore { x })
    } else if f == 0xF && kk == 0x55 {
        Some(Instr::RegDump { x })
    } else if f == 0xF && kk == 0x65 {
        Some(Instr::RegLoad { x })
    } else {
        None
    }
}

impl Instr {
    /// Operands lie in the ranges their opcode fields allow.
    pub open spec fn wf(self) -> bool {
        match self {
            Instr::Jump { addr } | Instr::Call { addr } | Instr::SetIndex { addr }
            | Instr::JumpPlusV0 { addr } => addr < 0x1000,
            Instr::SkipEqImm { x, .. } | Instr::SkipNeImm { x, .. } | Instr::LoadImm { x, .. }
            | Instr::AddImm { x, .. } | Instr::Rand { x, .. } | Instr::ShiftRight { x }
            | Instr::ShiftLeft { x } | Instr::SkipKey { x } | Instr::SkipNotKey { x }
            | Instr::LoadDelay { x } | Instr::AwaitKey { x } | Instr::SetDelay { x }
            | Instr::SetSound { x } | Instr::AddIndex { x } | Instr::IndexDigit { x }
            | Instr::BcdStore { x } | Instr::RegDump { x } | Instr::RegLoad { x } => x < 16,
            Instr::SkipEqReg { x, y } | Instr::LoadReg { x, y } | Instr::Or { x, y }
            | Instr::And { x, y } | Instr::Xor { x, y } | Instr::AddReg { x, y }
            | Instr::SubReg { x, y } | Instr::SubRegRev { x, y }
            | Instr::SkipNeReg { x, y } => x < 16 && y < 16,
            Instr::Draw { x, y, n } => x < 16 && y < 16 && n < 16,
            Instr::Halt | Instr::ClearScreen | Instr::Return => true,
        }
    }
}

/// Decodes an opcode; `None` where no instruction has that encoding.
pub fn decode(op: u16) -> (r: Option<Instr>)
    ensures
        r == decode_spec(op),
        r matches Some(i) ==> i.wf(),
{
    let f: u16 = op / 0x1000;
    let x: u8 = ((op / 0x100) % 0x10) as u8;
    let y: u8 = ((op / 0x10) % 0x10) as u8;
    let n: u8 = (op % 0x10) as u8;
    let kk: u8 = (op % 0x100) as u8;
    let addr: u16 = op % 0x1000;
    assert(f as int == op_family(op) && f <= 0xF);
    assert(x == op_x(op) && y == op_y(op) && n == op_n(op));
    assert(kk == op_kk(op) && addr == op_addr(op));
    if op == 0x0000 {
        Some(Instr::Halt)
    } else if op == 0x00E0 {
        Some(Instr::ClearScreen)
    } else if op == 0x00EE {
        Some(Instr::Return)
    } else if f == 0x0 {
        None
    } else if f == 0x1 {
        Some(Instr::Jump { addr })
    } else if f == 0x2 {
        Some(Instr::Call { addr })
    } else if f == 0x3 {
        Some(Instr::SkipEqImm { x, kk })
    } else if f == 0x4 {
        Some(Instr::SkipNeImm { x, kk })
    } else if f == 0x5 && n == 0 {
        Some(Instr::SkipEqReg { x, y })
    } else if f == 0x6 {
        Some(Instr::LoadImm { x, kk })
    } else if f == 0x7 {
        Some(Instr::AddImm { x, kk })
    } else if f == 0x8 {
        match n {
            0x0 => Some(Instr::LoadReg { x, y }),
            0x1 => Some(Instr::Or { x, y }),
            0x2 => Some(Instr::And { x, y }),
            0x3 => Some(Instr::Xor { x, y }),
            0x4 => Some(Instr::AddReg { x, y }),
            0x5 => Some(Instr::SubReg { x, y }),
            0x6 => Some(Instr::ShiftRight { x }),
            0x7 => Some(Instr::SubRegRev { x, y }),
            0xE => Some(Instr::ShiftLeft { x }),
            _ => None,
        }
    } else if f == 0x9 && n == 0 {
        Some(Instr::SkipNeReg { x, y })
    } else if f == 0xA {
        Some(Instr::SetIndex { addr })
    } else if f == 0xB {
        Some(Instr::JumpPlusV0 { addr })
    } else if f == 0xC {
        Some(Instr::Rand { x, kk })
    } else if f == 0xD {
        Some(Instr::Draw { x, y, n })
    } else if f == 0xE {
        match kk {
            0x9E => Some(Instr::SkipKey { x }),
            0xA1 => Some(Instr::SkipNotKey { x }),
            _ => None,
        }
    } else if f == 0xF {
        match kk {
            0x07 => Some(Instr::LoadDelay { x }),
            0x0A => Some(Instr::AwaitKey { x }),
            0x15 => Some(Instr::SetDelay { x }),
            0x18 => Some(Instr::SetSound { x }),
            0x1E => Some(Instr::AddIndex { x }),
            0x29 => Some(Instr::IndexDigit { x }),
            0x33 => Some(Instr::BcdStore { x }),
            0x55 => Some(Instr::RegDump { x }),
            0x65 => Some(Instr::RegLoad { x }),
            _ => None,
        }
    } else {
        None
    }
}

} // verus!
