//! The abstract machine state and the meaning of each instruction over it.
use vstd::prelude::*;
use crate::instruction::{Instr, decode_spec};

verus! {

/// Bytes of addressable memory.
pub const MEMORY_SIZE: usize = 4096;
/// Framebuffer width in cells.
pub const SCREEN_WIDTH: usize = 64;
/// Framebuffer height in cells.
pub const SCREEN_HEIGHT: usize = 32;
/// Number of framebuffer cells.
pub const SCREEN_CELLS: usize = 2048;
/// Where the font glyphs start in memory.
pub const FONT_BASE: usize = 0x50;
/// Where programs are loaded and execution starts.
pub const PROGRAM_START: usize = 0x200;
/// Capacity of the call stack.
pub const STACK_SIZE: usize = 16;
/// Index of the flag register VF.
pub const FLAG: usize = 15;

/// The hexadecimal digit glyphs 0 to F, five rows each.
pub const FONTSET: [u8; 80] = [
    0xF0, 0x90, 0x90, 0x90, 0xF0, 0x20, 0x60, 0x20, 0x20, 0x70,
    0xF0, 0x10, 0xF0, 0x80, 0xF0, 0xF0, 0x10, 0xF0, 0x10, 0xF0,
    0x90, 0x90, 0xF0, 0x10, 0x10, 0xF0, 0x80, 0xF0, 0x10, 0xF0,
    0xF0, 0x80, 0xF0, 0x90, 0xF0, 0xF0, 0x10, 0x20, 0x40, 0x40,
    0xF0, 0x90, 0xF0, 0x90, 0xF0, 0xF0, 0x90, 0xF0, 0x10, 0xF0,
    0xF0, 0x90, 0xF0, 0x90, 0x90, 0xE0, 0x90, 0xE0, 0x90, 0xE0,
    0xF0, 0x80, 0x80, 0x80, 0xF0, 0xE0, 0x90, 0x90, 0x90, 0xE0,
    0xF0, 0x80, 0xF0, 0x80, 0xF0, 0xF0, 0x80, 0xF0, 0x80, 0x80,
];

/// A fault that stops the run.
#[derive(Clone, Copy, Debug, PartialEq, Eq, Structural)]
pub enum Fault {
    /// A call with all sixteen stack slots in use.
    StackOverflow,
    /// A return with an empty stack.
    StackUnderflow,
    /// A memory or keypad access outside its bounds.
    OutOfBounds,
    /// An opcode that encodes no instruction.
    UnimplementedInstruction { opcode: u16 },
}

/// What a successful step leaves the interpreter in.
#[derive(Clone, Copy, Debug, PartialEq, Eq, Structural)]
pub enum Status {
    /// The program goes on.
    Running,
    /// The program executed the halt instruction.
    Halted,
}

/// The whole machine state as mathematical values.
pub struct Machine {
    /// V0 to VF.
    pub registers: Seq<u8>,
    /// One flag per keypad key, true while it is down.
    pub keys: Seq<bool>,
    pub memory: Seq<u8>,
    /// Return addresses; the first `sp` are in use.
    pub stack: Seq<u16>,
    pub sp: usize,
    pub pc: u16,
    /// The index register I.
    pub index: u16,
    pub delay_timer: u8,
    pub sound_timer: u8,
    /// The framebuffer, row by row, one cell per byte.
    pub gfx: Seq<u8>,
    /// Whether the framebuffer changed since the host last showed it.
    pub redraw: bool,
}

impl Machine {
    /// Every sequence has its fixed size and the stack pointer is within capacity.
    pub open spec fn wf(self) -> bool {
        &&& self.registers.len() == 16
        &&& self.keys.len() == 16
        &&& self.memory.len() == MEMORY_SIZE
        &&& self.stack.len() == STACK_SIZE
        &&& self.sp <= STACK_SIZE
        &&& self.gfx.len() == SCREEN_CELLS
    }

    pub open spec fn reg(self, x: u8) -> u8 {
        self.registers[x as int]
    }

    pub open spec fn set_reg(self, x: u8, v: u8) -> Machine {
        Machine { registers: self.registers.update(x as int, v), ..self }
    }

    /// Sets `Vx` to `v`, then the flag register to `flag`.
    pub open spec fn set_reg_flag(self, x: u8, v: u8, flag: u8) -> Machine {
        Machine { registers: self.registers.update(x as int, v).update(FLAG as int, flag), ..self }
    }

    pub open spec fn with_pc(self, pc: u16) -> Machine {
        Machine { pc, ..self }
    }

    /// The program counter moved past one more instruction, wrapping at 16 bits.
    pub open spec fn skip(self) -> Machine {
        self.with_pc(pc_plus_two(self.pc))
    }

    /// Skips the next instruction when `cond` holds.
    pub open spec fn skip_if(self, cond: bool) -> Machine {
        if cond { self.skip() } else { self }
    }
}

pub open spec fn pc_plus_two(pc: u16) -> u16 {
    ((pc as int + 2) % 0x10000) as u16
}

pub open spec fn pc_minus_two(pc: u16) -> u16 {
    ((pc as int + 0x10000 - 2) % 0x10000) as u16
}

/// The opcode at the program counter: two bytes, big-endian.
pub open spec fn fetch_spec(m: Machine) -> u16 {
    (m.memory[m.pc as int] as int * 256 + m.memory[m.pc as int + 1] as int) as u16
}

/// Whether the two bytes at the program counter lie in memory.
pub open spec fn can_fetch(m: Machine) -> bool {
    m.pc as int + 1 < MEMORY_SIZE
}

/// The lowest index at or above `i` of a key that is down.
pub open spec fn first_key_from(keys: Seq<bool>, i: int) -> Option<u8>
    decreases 16 - i,
{
    if i >= 16 || i < 0 {
        None
    } else if keys[i] {
        Some(i as u8)
    } else {
        first_key_from(keys, i + 1)
    }
}

/// The lowest index of a key that is down, if any.
pub open spec fn first_key(keys: Seq<bool>) -> Option<u8> {
    first_key_from(keys, 0)
}

/// The framebuffer cell that sprite row `row`, column `col` lands on when
/// the sprite's corner is at `(vx, vy)`: both wrap independently.
pub open spec fn cell_of(vx: int, vy: int, row: int, col: int) -> int {
    ((vy + row) % 32) * 64 + (vx + col) % 64
}

/// The sprite row that lands on cell `idx`, as `row` ranges over a full screen height.
pub open spec fn sprite_row_of(vy: int, idx: int) -> int {
    (idx / 64 - vy + 32) % 32
}

/// The sprite column that lands on cell `idx`, as `col` ranges over a full screen width.
pub open spec fn sprite_col_of(vx: int, idx: int) -> int {
    (idx % 64 - vx + 64) % 64
}

/// Bit `col` (from the left) of sprite row `row`, read from memory at `I + row`: 0 or 1.
pub open spec fn sprite_bit(m: Machine, row: int, col: int) -> u8 {
    (m.memory[m.index + row] >> ((7 - col) as u8)) & 1
}

/// Whether an `n`-row sprite at `(vx, vy)` covers cell `idx`.
pub open spec fn covers(vx: int, vy: int, n: int, idx: int) -> bool {
    sprite_row_of(vy, idx) < n && sprite_col_of(vx, idx) < 8
}

/// The framebuffer after XOR-ing an `n`-row sprite at `(vx, vy)` onto it.
pub open spec fn drawn_gfx(m: Machine, vx: int, vy: int, n: int) -> Seq<u8> {
    Seq::new(
        SCREEN_CELLS as nat,
        |idx: int|
            if covers(vx, vy, n, idx) {
                m.gfx[idx] ^ sprite_bit(m, sprite_row_of(vy, idx), sprite_col_of(vx, idx))
            } else {
                m.gfx[idx]
            },
    )
}

/// The sprite position that a cell is drawn from inverts the cell that a
/// sprite position lands on.
pub proof fn lemma_cell_of_inverse(vx: int, vy: int, row: int, col: int)
    requires
        0 <= vx < 64,
        0 <= vy < 32,
        0 <= row < 32,
        0 <= col < 64,
    ensures
        0 <= cell_of(vx, vy, row, col) < SCREEN_CELLS,
        sprite_row_of(vy, cell_of(vx, vy, row, col)) == row,
        sprite_col_of(vx, cell_of(vx, vy, row, col)) == col,
{
    let a = (vy + row) % 32;
    let b = (vx + col) % 64;
    let idx = a * 64 + b;
    assert(idx / 64 == a && idx % 64 == b) by (nonlinear_arith)
        requires
            0 <= a < 32,
            0 <= b < 64,
            idx == a * 64 + b,
    ;
}

/// Each cell is the landing cell of the sprite position it is drawn from.
pub proof fn lemma_cell_of_onto(vx: int, vy: int, idx: int)
    requires
        0 <= vx < 64,
        0 <= vy < 32,
        0 <= idx < SCREEN_CELLS,
    ensures
        cell_of(vx, vy, sprite_row_of(vy, idx), sprite_col_of(vx, idx)) == idx,
{
    let a = idx / 64;
    let b = idx % 64;
    assert(idx == a * 64 + b && 0 <= a < 32 && 0 <= b < 64) by (nonlinear_arith)
        requires
            0 <= idx < 2048,
            a == idx / 64,
            b == idx % 64,
    ;
}

/// Whether some set sprite bit lands on a cell that is set.
pub open spec fn collides(m: Machine, vx: int, vy: int, n: int) -> bool {
    exists|row: int, col: int|
        0 <= row < n && 0 <= col < 8 && #[trigger] m.gfx[cell_of(vx, vy, row, col)] == 1
            && #[trigger] sprite_bit(m, row, col) == 1
}

/// Whether sprite position `(r, c)` comes before `(row, col)` in drawing
/// order: row by row, each from the left.
pub open spec fn drawn_before(r: int, c: int, row: int, col: int) -> bool {
    r < row || (r == row && c < col)
}

/// The framebuffer with the sprite positions before `(row, col)` drawn.
pub open spec fn partly_drawn_gfx(m: Machine, vx: int, vy: int, n: int, row: int, col: int) -> Seq<u8> {
    Seq::new(
        SCREEN_CELLS as nat,
        |idx: int|
            if covers(vx, vy, n, idx) && drawn_before(
                sprite_row_of(vy, idx),
                sprite_col_of(vx, idx),
                row,
                col,
            ) {
                m.gfx[idx] ^ sprite_bit(m, sprite_row_of(vy, idx), sprite_col_of(vx, idx))
            } else {
                m.gfx[idx]
            },
    )
}

/// Whether a collision occurs among the sprite positions before `(row, col)`.
pub open spec fn collides_before(m: Machine, vx: int, vy: int, n: int, row: int, col: int) -> bool {
    exists|r: int, c: int|
        0 <= r < n && 0 <= c < 8 && drawn_before(r, c, row, col) && #[trigger] m.gfx[cell_of(
            vx,
            vy,
            r,
            c,
        )] == 1 && #[trigger] sprite_bit(m, r, c) == 1
}

/// Whether the sprite rows `I..I+n` lie in memory.
pub open spec fn sprite_in_bounds(m: Machine, n: u8) -> bool {
    m.index as int + n as int <= MEMORY_SIZE
}

/// The draw instruction on a machine whose sprite lies in memory.
pub open spec fn draw_spec(m: Machine, x: u8, y: u8, n: u8) -> Machine {
    let vx = m.reg(x) as int % 64;
    let vy = m.reg(y) as int % 32;
    Machine {
        gfx: drawn_gfx(m, vx, vy, n as int),
        registers: m.registers.update(FLAG as int, if collides(m, vx, vy, n as int) { 1u8 } else { 0u8 }),
        redraw: true,
        ..m
    }
}

/// Memory after storing the decimal digits of `v` at `I`, `I+1`, `I+2`.
pub open spec fn bcd_memory(m: Machine, v: u8) -> Seq<u8> {
    m.memory.update(m.index as int, v / 100).update(m.index + 1, (v / 10) % 10).update(
        m.index + 2,
        v % 10,
    )
}

/// Memory after storing `V0..=Vx` at `I..=I+x`.
pub open spec fn dumped_memory(m: Machine, x: u8) -> Seq<u8> {
    Seq::new(
        MEMORY_SIZE as nat,
        |a: int|
            if m.index <= a <= m.index + x {
                m.registers[a - m.index]
            } else {
                m.memory[a]
            },
    )
}

/// Registers after loading `V0..=Vx` from `I..=I+x`.
pub open spec fn loaded_registers(m: Machine, x: u8) -> Seq<u8> {
    Seq::new(16, |k: int| if k <= x { m.memory[m.index + k] } else { m.registers[k] })
}

/// The effect of one instruction, with the program counter already past it.
/// `rnd` is the random byte that the random instruction draws.
pub open spec fn execute_spec(m: Machine, ins: Instr, rnd: u8) -> Result<Machine, Fault> {
    match ins {
        Instr::Halt => Ok(m),
        Instr::ClearScreen => Ok(
            Machine { gfx: Seq::new(SCREEN_CELLS as nat, |i: int| 0u8), redraw: true, ..m },
        ),
        Instr::Return => if m.sp == 0 {
            Err(Fault::StackUnderflow)
        } else {
            Ok(Machine { sp: (m.sp - 1) as usize, pc: m.stack[m.sp - 1], ..m })
        },
        Instr::Jump { addr } => Ok(m.with_pc(addr)),
        Instr::Call { addr } => if m.sp >= STACK_SIZE {
            Err(Fault::StackOverflow)
        } else {
            Ok(Machine { stack: m.stack.update(m.sp as int, m.pc), sp: (m.sp + 1) as usize, pc: addr, ..m })
        },
        Instr::SkipEqImm { x, kk } => Ok(m.skip_if(m.reg(x) == kk)),
        Instr::SkipNeImm { x, kk } => Ok(m.skip_if(m.reg(x) != kk)),
        Instr::SkipEqReg { x, y } => Ok(m.skip_if(m.reg(x) == m.reg(y))),
        Instr::SkipNeReg { x, y } => Ok(m.skip_if(m.reg(x) != m.reg(y))),
        Instr::LoadImm { x, kk } => Ok(m.set_reg(x, kk)),
        Instr::AddImm { x, kk } => Ok(m.set_reg(x, ((m.reg(x) + kk) % 256) as u8)),
        Instr::LoadReg { x, y } => Ok(m.set_reg(x, m.reg(y))),
        Instr::Or { x, y } => Ok(m.set_reg(x, m.reg(x) | m.reg(y))),
        Instr::And { x, y } => Ok(m.set_reg(x, m.reg(x) & m.reg(y))),
        Instr::Xor { x, y } => Ok(m.set_reg(x, m.reg(x) ^ m.reg(y))),
        Instr::AddReg { x, y } => Ok(
            m.set_reg_flag(
                x,
                ((m.reg(x) + m.reg(y)) % 256) as u8,
                if m.reg(x) + m.reg(y) > 255 { 1 } else { 0 },
            ),
        ),
        Instr::SubReg { x, y } => Ok(
            m.set_reg_flag(
                x,
                ((m.reg(x) - m.reg(y) + 256) % 256) as u8,
                if m.reg(x) < m.reg(y) { 0 } else { 1 },
            ),
        ),
        Instr::SubRegRev { x, y } => Ok(
            m.set_reg_flag(
                x,
                ((m.reg(y) - m.reg(x) + 256) % 256) as u8,
                if m.reg(y) < m.reg(x) { 0 } else { 1 },
            ),
        ),
        Instr::ShiftRight { x } => Ok(m.set_reg_flag(x, m.reg(x) >> 1, m.reg(x) & 1)),
        Instr::ShiftLeft { x } => Ok(m.set_reg_flag(x, ((m.reg(x) as int * 2) % 256) as u8, (m.reg(x) >> 7) & 1)),
        Instr::SetIndex { addr } => Ok(Machine { index: addr, ..m }),
        Instr::JumpPlusV0 { addr } => Ok(m.with_pc((m.reg(0) + addr) as u16)),
        Instr::Rand { x, kk } => Ok(m.set_reg(x, rnd & kk)),
        Instr::Draw { x, y, n } => if sprite_in_bounds(m, n) {
            Ok(draw_spec(m, x, y, n))
        } else {
            Err(Fault::OutOfBounds)
        },
        Instr::SkipKey { x } => if m.reg(x) < 16 {
            Ok(m.skip_if(m.keys[m.reg(x) as int]))
        } else {
            Err(Fault::OutOfBounds)
        },
        Instr::SkipNotKey { x } => if m.reg(x) < 16 {
            Ok(m.skip_if(!m.keys[m.reg(x) as int]))
        } else {
            Err(Fault::OutOfBounds)
        },
        Instr::LoadDelay { x } => Ok(m.set_reg(x, m.delay_timer)),
        Instr::AwaitKey { x } => match first_key(m.keys) {
            Some(k) => Ok(m.set_reg(x, k)),
            None => Ok(m.with_pc(pc_minus_two(m.pc))),
        },
        Instr::SetDelay { x } => Ok(Machine { delay_timer: m.reg(x), ..m }),
        Instr::SetSound { x } => Ok(Machine { sound_timer: m.reg(x), ..m }),
        Instr::AddIndex { x } => if m.index + m.reg(x) < MEMORY_SIZE {
            Ok(Machine { index: (m.index + m.reg(x)) as u16, ..m })
        } else {
            Err(Fault::OutOfBounds)
        },
        Instr::IndexDigit { x } => Ok(Machine { index: (FONT_BASE + m.reg(x) * 5) as u16, ..m }),
        Instr::BcdStore { x } => if m.index + 2 < MEMORY_SIZE {
            Ok(Machine { memory: bcd_memory(m, m.reg(x)), ..m })
        } else {
            Err(Fault::OutOfBounds)
        },
        Instr::RegDump { x } => if m.index + x < MEMORY_SIZE {
            Ok(Machine { memory: dumped_memory(m, x), ..m })
        } else {
            Err(Fault::OutOfBounds)
        },
        Instr::RegLoad { x } => if m.index + x < MEMORY_SIZE {
            Ok(Machine { registers: loaded_registers(m, x), ..m })
        } else {
            Err(Fault::OutOfBounds)
        },
    }
}

/// One fetch-decode-execute cycle: the machine after it and its outcome.
/// A fault leaves the machine as it was.
pub open spec fn step_spec(m: Machine, rnd: u8) -> (Machine, Result<Status, Fault>) {
    if !can_fetch(m) {
        (m, Err(Fault::OutOfBounds))
    } else {
        let op = fetch_spec(m);
        let next = m.with_pc((m.pc + 2) as u16);
        match decode_spec(op) {
            None => (m, Err(Fault::UnimplementedInstruction { opcode: op })),
            Some(Instr::Halt) => (next, Ok(Status::Halted)),
            Some(ins) => match execute_spec(next, ins, rnd) {
                Ok(m2) => (m2, Ok(Status::Running)),
                Err(e) => (m, Err(e)),
            },
        }
    }
}

/// Advancing both timers by one tick: each counts down to zero and stays there.
pub open spec fn tick_spec(m: Machine) -> Machine {
    Machine {
        delay_timer: if m.delay_timer > 0 { (m.delay_timer - 1) as u8 } else { 0 },
        sound_timer: if m.sound_timer > 0 { (m.sound_timer - 1) as u8 } else { 0 },
        ..m
    }
}

/// Memory with `bytes` written from `start` on.
pub open spec fn written_memory(mem: Seq<u8>, start: int, bytes: Seq<u8>) -> Seq<u8> {
    Seq::new(
        mem.len(),
        |a: int| if start <= a < start + bytes.len() { bytes[a - start] } else { mem[a] },
    )
}

/// The state a fresh interpreter starts in: everything zero, the font at
/// its base address and the program counter at the program origin.
pub open spec fn initial_machine() -> Machine {
    Machine {
        registers: Seq::new(16, |i: int| 0u8),
        keys: Seq::new(16, |i: int| false),
        memory: written_memory(Seq::new(MEMORY_SIZE as nat, |a: int| 0u8), FONT_BASE as int, FONTSET@),
        stack: Seq::new(STACK_SIZE as nat, |i: int| 0u16),
        sp: 0,
        pc: PROGRAM_START as u16,
        index: 0,
        delay_timer: 0,
        sound_timer: 0,
        gfx: Seq::new(SCREEN_CELLS as nat, |i: int| 0u8),
        redraw: false,
    }
}

/// Whether a call's result `r` and the state `new` it left behind are what
/// `expected` prescribes: on success its machine, on a fault the untouched `old`.
pub open spec fn outcome_is(
    old: Machine,
    new: Machine,
    r: Result<(), Fault>,
    expected: Result<Machine, Fault>,
) -> bool {
    match expected {
        Ok(m) => r == Ok::<(), Fault>(()) && new == m,
        Err(e) => r == Err::<(), Fault>(e) && new == old,
    }
}

/// Whether an instruction that cannot fault, run on some machine, gives `m`.
pub open spec fn yields(r: Result<Machine, Fault>, m: Machine) -> bool {
    r == Ok::<Machine, Fault>(m)
}

/// Running the steps that draw the random bytes `rs` in turn, stopping at
/// the first halt or fault.
pub open spec fn run_spec(m: Machine, rs: Seq<u8>) -> (Machine, Result<Status, Fault>)
    decreases rs.len(),
{
    if rs.len() == 0 {
        (m, Ok(Status::Running))
    } else {
        let (m0, o0) = run_spec(m, rs.drop_last());
        if o0 == Ok::<Status, Fault>(Status::Running) {
            step_spec(m0, rs.last())
        } else {
            (m0, o0)
        }
    }
}

} // verus!
