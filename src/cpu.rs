//! The interpreter: machine state and the fetch-decode-execute cycle.
use vstd::prelude::*;
use crate::instruction::{Instr, decode};
use crate::machine::{
    FLAG, FONT_BASE, FONTSET, Fault, MEMORY_SIZE, Machine, PROGRAM_START, SCREEN_CELLS,
    SCREEN_HEIGHT, SCREEN_WIDTH, STACK_SIZE, Status, can_fetch, cell_of, collides,
    collides_before, drawn_before, drawn_gfx, dumped_memory, execute_spec, fetch_spec, first_key,
    first_key_from, initial_machine, lemma_cell_of_inverse, lemma_cell_of_onto, loaded_registers,
    outcome_is, partly_drawn_gfx, run_spec, sprite_bit, step_spec, tick_spec, written_memory,
    yields,
};
use rand::Rng;

verus! {

/// Relies on rand's `thread_rng` and `Rng::gen`: some byte, drawn from the
/// thread-local generator; nothing is known of which.
#[verifier::external_body]
fn rand_u8() -> (r: u8) {
    let mut rng = rand::thread_rng();
    rng.gen::<u8>()
}

/// A CHIP-8 interpreter. `registers` (V0 to VF) and `keys` (the keypad,
/// one flag per hexadecimal key) are open to the host.
pub struct CPU {
    pub registers: [u8; 16],
    pub keys: [bool; 16],
    pc: u16,
    memory: [u8; 4096],
    stack: [u16; 16],
    stack_pointer: usize,
    memory_pointer: u16,
    gfx: [u8; 2048],
    delay_timer: u8,
    sound_timer: u8,
    redraw: bool,
}

impl View for CPU {
    type V = Machine;

    closed spec fn view(&self) -> Machine {
        Machine {
            registers: self.registers@,
            keys: self.keys@,
            memory: self.memory@,
            stack: self.stack@,
            sp: self.stack_pointer,
            pc: self.pc,
            index: self.memory_pointer,
            delay_timer: self.delay_timer,
            sound_timer: self.sound_timer,
            gfx: self.gfx@,
            redraw: self.redraw,
        }
    }
}

impl CPU {
    /// Whether the state is well formed: the stack pointer is within capacity.
    pub closed spec fn wf(&self) -> bool {
        self@.wf()
    }

    /// A fresh interpreter: memory zeroed with the font loaded, the program
    /// counter at the program origin.
    pub fn new() -> (r: CPU)
        ensures
            r.wf(),
            r@ == initial_machine(),
    {
        let mut cpu = CPU {
            registers: [0u8; 16],
            memory: [0u8; 4096],
            pc: PROGRAM_START as u16,
            stack: [0u16; 16],
            stack_pointer: 0,
            memory_pointer: 0,
            gfx: [0u8; 2048],
            keys: [false; 16],
            delay_timer: 0,
            sound_timer: 0,
            redraw: false,
        };
        assert(cpu.registers@ =~= Seq::new(16, |i: int| 0u8));
        assert(cpu.keys@ =~= Seq::new(16, |i: int| false));
        assert(cpu.stack@ =~= Seq::new(STACK_SIZE as nat, |i: int| 0u16));
        assert(cpu.gfx@ =~= Seq::new(SCREEN_CELLS as nat, |i: int| 0u8));
        assert(cpu.memory@ =~= Seq::new(MEMORY_SIZE as nat, |a: int| 0u8));
        cpu.load_fontset();
        cpu
    }

    fn load_fontset(&mut self)
        requires
            old(self).wf(),
        ensures
            final(self)@ == (Machine {
                memory: written_memory(old(self)@.memory, FONT_BASE as int, FONTSET@),
                ..old(self)@
            }),
    {
        let ghost m0 = self@;
        let font = FONTSET;
        let mut i: usize = 0;
        while i < 80
            invariant
                0 <= i <= 80,
                font@ == FONTSET@,
                self@ == (Machine { memory: self@.memory, ..m0 }),
                self@.memory =~= written_memory(m0.memory, FONT_BASE as int, font@.subrange(0, i as int)),
            decreases 80 - i,
        {
            self.memory[FONT_BASE + i] = font[i];
            i += 1;
            assert(self@.memory =~= written_memory(m0.memory, FONT_BASE as int, font@.subrange(0, i as int)));
        }
        assert(font@.subrange(0, 80) =~= font@);
    }

    /// Writes `bytes` into memory from `addr` on; fails with `OutOfBounds`,
    /// writing nothing, where they would run past the end of memory.
    pub fn write_memory(&mut self, addr: usize, bytes: &[u8]) -> (r: Result<(), Fault>)
        requires
            old(self).wf(),
        ensures
            final(self).wf(),
            outcome_is(
                old(self)@,
                final(self)@,
                r,
                if addr as int + bytes@.len() <= MEMORY_SIZE {
                    Ok(Machine { memory: written_memory(old(self)@.memory, addr as int, bytes@), ..old(self)@ })
                } else {
                    Err(Fault::OutOfBounds)
                },
            ),
    {
        if addr > MEMORY_SIZE || bytes.len() > MEMORY_SIZE - addr {
            return Err(Fault::OutOfBounds);
        }
        let ghost m0 = self@;
        let mut i: usize = 0;
        while i < bytes.len()
            invariant
                0 <= i <= bytes@.len(),
                addr + bytes@.len() <= MEMORY_SIZE,
                self@ == (Machine { memory: self@.memory, ..m0 }),
                self@.memory =~= written_memory(m0.memory, addr as int, bytes@.subrange(0, i as int)),
            decreases bytes@.len() - i,
        {
            self.memory[addr + i] = bytes[i];
            i += 1;
            assert(self@.memory =~= written_memory(m0.memory, addr as int, bytes@.subrange(0, i as int)));
        }
        assert(bytes@.subrange(0, bytes@.len() as int) =~= bytes@);
        Ok(())
    }

    /// Loads a program at the program origin; fails with `OutOfBounds`,
    /// loading nothing, where it does not fit in memory.
    pub fn load_program(&mut self, program: Vec<u8>) -> (r: Result<(), Fault>)
        requires
            old(self).wf(),
        ensures
            final(self).wf(),
            outcome_is(
                old(self)@,
                final(self)@,
                r,
                if PROGRAM_START + program@.len() <= MEMORY_SIZE {
                    Ok(Machine {
                        memory: written_memory(old(self)@.memory, PROGRAM_START as int, program@),
                        ..old(self)@
                    })
                } else {
                    Err(Fault::OutOfBounds)
                },
            ),
    {
        self.write_memory(PROGRAM_START, program.as_slice())
    }

    fn read_opcode(&self) -> (r: Result<u16, Fault>)
        requires
            self.wf(),
        ensures
            r == (if can_fetch(self@) { Ok(fetch_spec(self@)) } else { Err(Fault::OutOfBounds) }),
    {
        let p = self.pc as usize;
        if p + 1 >= MEMORY_SIZE {
            return Err(Fault::OutOfBounds);
        }
        let op_byte1 = self.memory[p] as u16;
        let op_byte2 = self.memory[p + 1] as u16;
        Ok(op_byte1 * 256 + op_byte2)
    }

    fn get_register(&self, location: u8) -> (r: u8)
        requires
            self.wf(),
            location < 16,
        ensures
            r == self@.reg(location),
    {
        self.registers[location as usize]
    }

    fn set_flag_register(&mut self, x: u8, v: u8, flag: u8)
        requires
            old(self).wf(),
            x < 16,
        ensures
            final(self)@ == old(self)@.set_reg_flag(x, v, flag),
    {
        self.registers[x as usize] = v;
        self.registers[FLAG] = flag;
    }

    fn skip_if(&mut self, cond: bool)
        requires
            old(self).wf(),
        ensures
            final(self)@ == old(self)@.skip_if(cond),
    {
        if cond {
            self.pc = self.pc.wrapping_add(2);
        }
    }

    // 00E0: clear the screen
    fn clear_screen(&mut self)
        requires
            old(self).wf(),
        ensures
            yields(execute_spec(old(self)@, Instr::ClearScreen, 0), final(self)@),
    {
        let ghost m0 = self@;
        let mut i: usize = 0;
        while i < SCREEN_CELLS
            invariant
                0 <= i <= SCREEN_CELLS,
                self@ == (Machine { gfx: self@.gfx, ..m0 }),
                self@.gfx.len() == SCREEN_CELLS,
                forall|j: int| 0 <= j < i ==> self@.gfx[j] == 0,
            decreases SCREEN_CELLS - i,
        {
            self.gfx[i] = 0;
            i += 1;
        }
        self.redraw = true;
        assert(self@.gfx =~= Seq::new(SCREEN_CELLS as nat, |i: int| 0u8));
    }

    // 1nnn: jump to nnn
    fn jmp(&mut self, addr: u16)
        requires
            old(self).wf(),
        ensures
            yields(execute_spec(old(self)@, Instr::Jump { addr }, 0), final(self)@),
    {
        self.pc = addr;
    }

    // 2nnn: call the subroutine at nnn
    fn call(&mut self, addr: u16) -> (r: Result<(), Fault>)
        requires
            old(self).wf(),
        ensures
            outcome_is(old(self)@, final(self)@, r, execute_spec(old(self)@, Instr::Call { addr }, 0)),
    {
        let sp = self.stack_pointer;
        if sp >= STACK_SIZE {
            return Err(Fault::StackOverflow);
        }
        self.stack[sp] = self.pc;
        self.stack_pointer = sp + 1;
        self.jmp(addr);
        Ok(())
    }

    // 00EE: return from a subroutine
    fn ret(&mut self) -> (r: Result<(), Fault>)
        requires
            old(self).wf(),
        ensures
            outcome_is(old(self)@, final(self)@, r, execute_spec(old(self)@, Instr::Return, 0)),
    {
        if self.stack_pointer == 0 {
            return Err(Fault::StackUnderflow);
        }
        self.stack_pointer -= 1;
        self.pc = self.stack[self.stack_pointer];
        Ok(())
    }

    // 3xkk: skip if Vx == kk
    fn se(&mut self, x: u8, kk: u8)
        requires
            old(self).wf(),
            x < 16,
        ensures
            yields(execute_spec(old(self)@, Instr::SkipEqImm { x, kk }, 0), final(self)@),
    {
        let v = self.get_register(x);
        self.skip_if(v == kk);
    }

    // 4xkk: skip if Vx != kk
    fn sne(&mut self, x: u8, kk: u8)
        requires
            old(self).wf(),
            x < 16,
        ensures
            yields(execute_spec(old(self)@, Instr::SkipNeImm { x, kk }, 0), final(self)@),
    {
        let v = self.get_register(x);
        self.skip_if(v != kk);
    }

    // 5xy0: skip if Vx == Vy
    fn sev(&mut self, x: u8, y: u8)
        requires
            old(self).wf(),
            x < 16,
            y < 16,
        ensures
            yields(execute_spec(old(self)@, Instr::SkipEqReg { x, y }, 0), final(self)@),
    {
        let vx = self.get_register(x);
        let vy = self.get_register(y);
        self.skip_if(vx == vy);
    }

    // 9xy0: skip if Vx != Vy
    fn snev(&mut self, x: u8, y: u8)
        requires
            old(self).wf(),
            x < 16,
            y < 16,
        ensures
            yields(execute_spec(old(self)@, Instr::SkipNeReg { x, y }, 0), final(self)@),
    {
        let vx = self.get_register(x);
        let vy = self.get_register(y);
        self.skip_if(vx != vy);
    }

    // 6xkk: Vx = kk
    fn ld(&mut self, x: u8, kk: u8)
        requires
            old(self).wf(),
            x < 16,
        ensures
            yields(execute_spec(old(self)@, Instr::LoadImm { x, kk }, 0), final(self)@),
    {
        self.registers[x as usize] = kk;
    }

    // 7xkk: Vx = Vx + kk, wrapping, VF untouched
    fn add(&mut self, x: u8, kk: u8)
        requires
            old(self).wf(),
            x < 16,
        ensures
            yields(execute_spec(old(self)@, Instr::AddImm { x, kk }, 0), final(self)@),
    {
        let v = self.get_register(x);
        self.registers[x as usize] = v.wrapping_add(kk);
    }

    // 8xy1: Vx = Vx | Vy
    fn or_xy(&mut self, x: u8, y: u8)
        requires
            old(self).wf(),
            x < 16,
            y < 16,
        ensures
            yields(execute_spec(old(self)@, Instr::Or { x, y }, 0), final(self)@),
    {
        let vx = self.get_register(x);
        let vy = self.get_register(y);
        self.registers[x as usize] = vx | vy;
    }

    // 8xy2: Vx = Vx & Vy
    fn and_xy(&mut self, x: u8, y: u8)
        requires
            old(self).wf(),
            x < 16,
            y < 16,
        ensures
            yields(execute_spec(old(self)@, Instr::And { x, y }, 0), final(self)@),
    {
        let vx = self.get_register(x);
        let vy = self.get_register(y);
        self.registers[x as usize] = vx & vy;
    }

    // 8xy3: Vx = Vx ^ Vy
    fn xor_xy(&mut self, x: u8, y: u8)
        requires
            old(self).wf(),
            x < 16,
            y < 16,
        ensures
            yields(execute_spec(old(self)@, Instr::Xor { x, y }, 0), final(self)@),
    {
        let vx = self.get_register(x);
        let vy = self.get_register(y);
        self.registers[x as usize] = vx ^ vy;
    }

    // 8xy4: Vx = Vx + Vy, VF = carry
    fn add_xy(&mut self, x: u8, y: u8)
        requires
            old(self).wf(),
            x < 16,
            y < 16,
        ensures
            yields(execute_spec(old(self)@, Instr::AddReg { x, y }, 0), final(self)@),
    {
        let arg1 = self.get_register(x);
        let arg2 = self.get_register(y);
        let val = arg1.wrapping_add(arg2);
        let carry: u8 = if arg1 as u16 + arg2 as u16 > 255 { 1 } else { 0 };
        self.set_flag_register(x, val, carry);
    }

    // 8xy5: Vx = Vx - Vy, VF = not borrow
    fn sub_xy(&mut self, x: u8, y: u8)
        requires
            old(self).wf(),
            x < 16,
            y < 16,
        ensures
            yields(execute_spec(old(self)@, Instr::SubReg { x, y }, 0), final(self)@),
    {
        let arg1 = self.get_register(x);
        let arg2 = self.get_register(y);
        let val = arg1.wrapping_sub(arg2);
        let not_borrow: u8 = if arg1 < arg2 { 0 } else { 1 };
        self.set_flag_register(x, val, not_borrow);
    }

    // 8xy7: Vx = Vy - Vx, VF = not borrow
    fn sub_y_from_x(&mut self, x: u8, y: u8)
        requires
            old(self).wf(),
            x < 16,
            y < 16,
        ensures
            yields(execute_spec(old(self)@, Instr::SubRegRev { x, y }, 0), final(self)@),
    {
        let arg1 = self.get_register(x);
        let arg2 = self.get_register(y);
        let val = arg2.wrapping_sub(arg1);
        let not_borrow: u8 = if arg2 < arg1 { 0 } else { 1 };
        self.set_flag_register(x, val, not_borrow);
    }

    // 8xy6: Vx = Vx >> 1, VF = the bit shifted out
    fn shift_right(&mut self, x: u8)
        requires
            old(self).wf(),
            x < 16,
        ensures
            yields(execute_spec(old(self)@, Instr::ShiftRight { x }, 0), final(self)@),
    {
        let v = self.get_register(x);
        let previous_lsb = v & 1;
        self.set_flag_register(x, v >> 1, previous_lsb);
    }

    // 8xyE: Vx = Vx << 1, VF = the bit shifted out
    fn shift_left(&mut self, x: u8)
        requires
            old(self).wf(),
            x < 16,
        ensures
            yields(execute_spec(old(self)@, Instr::ShiftLeft { x }, 0), final(self)@),
    {
        let v = self.get_register(x);
        let previous_msb = (v >> 7) & 1;
        let shifted = ((v as u16 * 2) % 256) as u8;
        self.set_flag_register(x, shifted, previous_msb);
    }

    // Annn: I = nnn
    fn set_index(&mut self, addr: u16)
        requires
            old(self).wf(),
        ensures
            yields(execute_spec(old(self)@, Instr::SetIndex { addr }, 0), final(self)@),
    {
        self.memory_pointer = addr;
    }

    // Bnnn: jump to V0 + nnn
    fn jmp_plus_register(&mut self, addr: u16)
        requires
            old(self).wf(),
            addr < 0x1000,
        ensures
            yields(execute_spec(old(self)@, Instr::JumpPlusV0 { addr }, 0), final(self)@),
    {
        self.pc = self.registers[0] as u16 + addr;
    }

    // Cxkk: Vx = random byte & kk
    fn rand(&mut self, x: u8, kk: u8, rnd: u8)
        requires
            old(self).wf(),
            x < 16,
        ensures
            yields(execute_spec(old(self)@, Instr::Rand { x, kk }, rnd), final(self)@),
    {
        self.registers[x as usize] = rnd & kk;
    }

    // Dxyn: XOR an n-row sprite from memory at I onto the screen at (Vx, Vy)
    fn draw_sprite(&mut self, x: u8, y: u8, height: u8) -> (r: Result<(), Fault>)
        requires
            old(self).wf(),
            x < 16,
            y < 16,
            height < 16,
        ensures
            outcome_is(
                old(self)@,
                final(self)@,
                r,
                execute_spec(old(self)@, Instr::Draw { x, y, n: height }, 0),
            ),
    {
        let start = self.memory_pointer as usize;
        if start + height as usize > MEMORY_SIZE {
            return Err(Fault::OutOfBounds);
        }
        let vx = self.get_register(x) as usize % SCREEN_WIDTH;
        let vy = self.get_register(y) as usize % SCREEN_HEIGHT;
        let ghost m0 = self@;
        let ghost n = height as int;
        let mut collided = false;
        let mut row: u8 = 0;
        while row < height
            invariant
                self.wf(),
                row <= height < 16,
                start + height <= MEMORY_SIZE,
                start == m0.index,
                n == height,
                vx < 64,
                vy < 32,
                vx == m0.reg(x) % 64,
                vy == m0.reg(y) % 32,
                self@ == (Machine { gfx: self@.gfx, ..m0 }),
                self@.gfx == partly_drawn_gfx(m0, vx as int, vy as int, n, row as int, 0),
                collided == collides_before(m0, vx as int, vy as int, n, row as int, 0),
            decreases height - row,
        {
            let line = self.memory[start + row as usize];
            let y_coord = (vy + row as usize) % SCREEN_HEIGHT;
            let mut bit: u8 = 0;
            while bit < 8
                invariant
                    self.wf(),
                    row < height < 16,
                    bit <= 8,
                    start + height <= MEMORY_SIZE,
                    start == m0.index,
                    n == height,
                    vx < 64,
                    vy < 32,
                    line == m0.memory[start + row],
                    y_coord == (vy + row) % 32,
                    self@ == (Machine { gfx: self@.gfx, ..m0 }),
                    self@.gfx == partly_drawn_gfx(m0, vx as int, vy as int, n, row as int, bit as int),
                    collided == collides_before(m0, vx as int, vy as int, n, row as int, bit as int),
                decreases 8 - bit,
            {
                let x_coord = (vx + bit as usize) % SCREEN_WIDTH;
                let pixel = (line >> (7 - bit)) & 1;
                let idx = y_coord * SCREEN_WIDTH + x_coord;
                let ghost g0 = self@.gfx;
                let ghost c0 = collided;
                proof {
                    lemma_cell_of_inverse(vx as int, vy as int, row as int, bit as int);
                    assert(idx == cell_of(vx as int, vy as int, row as int, bit as int));
                    assert(pixel == sprite_bit(m0, row as int, bit as int));
                }
                let screen_pixel = self.gfx[idx];
                assert(screen_pixel == m0.gfx[idx as int]);
                if screen_pixel == 1 && pixel == 1 {
                    collided = true;
                }
                self.gfx[idx] = screen_pixel ^ pixel;
                proof {
                    let next = partly_drawn_gfx(m0, vx as int, vy as int, n, row as int, bit + 1);
                    assert forall|i: int| 0 <= i < SCREEN_CELLS implies self@.gfx[i] == next[i] by {
                        if i != idx {
                            lemma_cell_of_onto(vx as int, vy as int, i);
                        }
                    }
                    assert(self@.gfx =~= next);
                    if collided && !c0 {
                        assert(m0.gfx[cell_of(vx as int, vy as int, row as int, bit as int)] == 1);
                        assert(collides_before(m0, vx as int, vy as int, n, row as int, bit + 1));
                    }
                    if collides_before(m0, vx as int, vy as int, n, row as int, bit + 1) {
                        let (r, c) = choose|r: int, c: int|
                            0 <= r < n && 0 <= c < 8 && drawn_before(r, c, row as int, bit + 1)
                                && #[trigger] m0.gfx[cell_of(vx as int, vy as int, r, c)] == 1
                                && #[trigger] sprite_bit(m0, r, c) == 1;
                        if r != row || c != bit {
                            assert(collides_before(m0, vx as int, vy as int, n, row as int, bit as int));
                        }
                    }
                }
                bit += 1;
            }
            proof {
                assert(partly_drawn_gfx(m0, vx as int, vy as int, n, row as int, 8) =~= partly_drawn_gfx(
                    m0,
                    vx as int,
                    vy as int,
                    n,
                    row + 1,
                    0,
                ));
                if collided {
                    let (r, c) = choose|r: int, c: int|
                        0 <= r < n && 0 <= c < 8 && drawn_before(r, c, row as int, 8)
                            && #[trigger] m0.gfx[cell_of(vx as int, vy as int, r, c)] == 1
                            && #[trigger] sprite_bit(m0, r, c) == 1;
                    assert(drawn_before(r, c, row + 1, 0));
                }
                if collides_before(m0, vx as int, vy as int, n, row + 1, 0) {
                    let (r, c) = choose|r: int, c: int|
                        0 <= r < n && 0 <= c < 8 && drawn_before(r, c, row + 1, 0)
                            && #[trigger] m0.gfx[cell_of(vx as int, vy as int, r, c)] == 1
                            && #[trigger] sprite_bit(m0, r, c) == 1;
                    assert(drawn_before(r, c, row as int, 8));
                }
            }
            row += 1;
        }
        proof {
            assert(self@.gfx =~= drawn_gfx(m0, vx as int, vy as int, n));
            if collided {
                let (r, c) = choose|r: int, c: int|
                    0 <= r < n && 0 <= c < 8 && drawn_before(r, c, n, 0)
                        && #[trigger] m0.gfx[cell_of(vx as int, vy as int, r, c)] == 1
                        && #[trigger] sprite_bit(m0, r, c) == 1;
                assert(collides(m0, vx as int, vy as int, n));
            }
            if collides(m0, vx as int, vy as int, n) {
                let (r, c) = choose|r: int, c: int|
                    0 <= r < n && 0 <= c < 8 && #[trigger] m0.gfx[cell_of(vx as int, vy as int, r, c)] == 1
                        && #[trigger] sprite_bit(m0, r, c) == 1;
                assert(drawn_before(r, c, n, 0));
            }
        }
        self.registers[FLAG] = if collided { 1 } else { 0 };
        self.redraw = true;
        Ok(())
    }

    // Ex9E: skip if key Vx is down
    fn skp(&mut self, x: u8) -> (r: Result<(), Fault>)
        requires
            old(self).wf(),
            x < 16,
        ensures
            outcome_is(old(self)@, final(self)@, r, execute_spec(old(self)@, Instr::SkipKey { x }, 0)),
    {
        let k = self.get_register(x);
        if k >= 16 {
            return Err(Fault::OutOfBounds);
        }
        let down = self.keys[k as usize];
        self.skip_if(down);
        Ok(())
    }

    // ExA1: skip if key Vx is up
    fn sknp(&mut self, x: u8) -> (r: Result<(), Fault>)
        requires
            old(self).wf(),
            x < 16,
        ensures
            outcome_is(old(self)@, final(self)@, r, execute_spec(old(self)@, Instr::SkipNotKey { x }, 0)),
    {
        let k = self.get_register(x);
        if k >= 16 {
            return Err(Fault::OutOfBounds);
        }
        let down = self.keys[k as usize];
        self.skip_if(!down);
        Ok(())
    }

    // Fx07: Vx = delay timer
    fn load_td(&mut self, x: u8)
        requires
            old(self).wf(),
            x < 16,
        ensures
            yields(execute_spec(old(self)@, Instr::LoadDelay { x }, 0), final(self)@),
    {
        self.registers[x as usize] = self.delay_timer;
    }

    // Fx0A: wait for a key; without one, run this instruction again
    fn await_keypress(&mut self, x: u8)
        requires
            old(self).wf(),
            x < 16,
        ensures
            yields(execute_spec(old(self)@, Instr::AwaitKey { x }, 0), final(self)@),
    {
        let mut i: usize = 0;
        while i < 16
            invariant
                0 <= i <= 16,
                x < 16,
                self.wf(),
                self@ == old(self)@,
                first_key(self@.keys) == first_key_from(self@.keys, i as int),
            decreases 16 - i,
        {
            if self.keys[i] {
                self.registers[x as usize] = i as u8;
                return;
            }
            i += 1;
        }
        self.pc = self.pc.wrapping_sub(2);
    }

    // Fx15: delay timer = Vx
    fn set_dt(&mut self, x: u8)
        requires
            old(self).wf(),
            x < 16,
        ensures
            yields(execute_spec(old(self)@, Instr::SetDelay { x }, 0), final(self)@),
    {
        self.delay_timer = self.get_register(x);
    }

    // Fx18: sound timer = Vx
    fn set_st(&mut self, x: u8)
        requires
            old(self).wf(),
            x < 16,
        ensures
            yields(execute_spec(old(self)@, Instr::SetSound { x }, 0), final(self)@),
    {
        self.sound_timer = self.get_register(x);
    }

    // Fx1E: I = I + Vx
    fn add_vx_to_index(&mut self, x: u8) -> (r: Result<(), Fault>)
        requires
            old(self).wf(),
            x < 16,
        ensures
            outcome_is(old(self)@, final(self)@, r, execute_spec(old(self)@, Instr::AddIndex { x }, 0)),
    {
        let sum = self.memory_pointer as usize + self.get_register(x) as usize;
        if sum >= MEMORY_SIZE {
            return Err(Fault::OutOfBounds);
        }
        self.memory_pointer = sum as u16;
        Ok(())
    }

    // Fx29: I = address of the glyph for digit Vx
    fn index_digit(&mut self, x: u8)
        requires
            old(self).wf(),
            x < 16,
        ensures
            yields(execute_spec(old(self)@, Instr::IndexDigit { x }, 0), final(self)@),
    {
        self.memory_pointer = FONT_BASE as u16 + self.get_register(x) as u16 * 5;
    }

    // Fx33: decimal digits of Vx at I, I+1, I+2
    fn bcd_to_i(&mut self, x: u8) -> (r: Result<(), Fault>)
        requires
            old(self).wf(),
            x < 16,
        ensures
            outcome_is(old(self)@, final(self)@, r, execute_spec(old(self)@, Instr::BcdStore { x }, 0)),
    {
        let i = self.memory_pointer as usize;
        if i + 2 >= MEMORY_SIZE {
            return Err(Fault::OutOfBounds);
        }
        let value = self.get_register(x);
        self.memory[i] = value / 100;
        self.memory[i + 1] = (value / 10) % 10;
        self.memory[i + 2] = value % 10;
        Ok(())
    }

    // Fx55: store V0..=Vx at I..=I+x
    fn load_registers(&mut self, x: u8) -> (r: Result<(), Fault>)
        requires
            old(self).wf(),
            x < 16,
        ensures
            outcome_is(old(self)@, final(self)@, r, execute_spec(old(self)@, Instr::RegDump { x }, 0)),
    {
        let start = self.memory_pointer as usize;
        if start + x as usize >= MEMORY_SIZE {
            return Err(Fault::OutOfBounds);
        }
        let ghost m0 = self@;
        let mut k: usize = 0;
        while k <= x as usize
            invariant
                0 <= k <= x + 1,
                x < 16,
                start == m0.index,
                start + x < MEMORY_SIZE,
                self@ == (Machine { memory: self@.memory, ..m0 }),
                self@.memory =~= written_memory(m0.memory, start as int, m0.registers.subrange(0, k as int)),
            decreases x + 1 - k,
        {
            self.memory[start + k] = self.registers[k];
            k += 1;
            assert(self@.memory =~= written_memory(m0.memory, start as int, m0.registers.subrange(0, k as int)));
        }
        assert(self@.memory =~= dumped_memory(m0, x));
        Ok(())
    }

    // Fx65: load V0..=Vx from I..=I+x
    fn read_registers(&mut self, x: u8) -> (r: Result<(), Fault>)
        requires
            old(self).wf(),
            x < 16,
        ensures
            outcome_is(old(self)@, final(self)@, r, execute_spec(old(self)@, Instr::RegLoad { x }, 0)),
    {
        let start = self.memory_pointer as usize;
        if start + x as usize >= MEMORY_SIZE {
            return Err(Fault::OutOfBounds);
        }
        let ghost m0 = self@;
        let mut k: usize = 0;
        while k <= x as usize
            invariant
                0 <= k <= x + 1,
                x < 16,
                start == m0.index,
                start + x < MEMORY_SIZE,
                self@ == (Machine { registers: self@.registers, ..m0 }),
                self@.registers =~= Seq::new(16, |j: int| if j < k { m0.memory[start + j] } else { m0.registers[j] }),
            decreases x + 1 - k,
        {
            self.registers[k] = self.memory[start + k];
            k += 1;
            assert(self@.registers =~= Seq::new(16, |j: int| if j < k { m0.memory[start + j] } else { m0.registers[j] }));
        }
        assert(self@.registers =~= loaded_registers(m0, x));
        Ok(())
    }

    /// Executes one decoded instruction, with the program counter already
    /// past it; `rnd` is the byte that the random instruction draws. A fault
    /// leaves the interpreter as it was.
    pub fn execute(&mut self, ins: Instr, rnd: u8) -> (r: Result<(), Fault>)
        requires
            old(self).wf(),
            ins.wf(),
        ensures
            final(self).wf(),
            outcome_is(old(self)@, final(self)@, r, execute_spec(old(self)@, ins, rnd)),
    {
        match ins {
            Instr::Halt => Ok(()),
            Instr::ClearScreen => {
                self.clear_screen();
                Ok(())
            },
            Instr::Return => self.ret(),
            Instr::Jump { addr } => {
                self.jmp(addr);
                Ok(())
            },
            Instr::Call { addr } => self.call(addr),
            Instr::SkipEqImm { x, kk } => {
                self.se(x, kk);
                Ok(())
            },
            Instr::SkipNeImm { x, kk } => {
                self.sne(x, kk);
                Ok(())
            },
            Instr::SkipEqReg { x, y } => {
                self.sev(x, y);
                Ok(())
            },
            Instr::SkipNeReg { x, y } => {
                self.snev(x, y);
                Ok(())
            },
            Instr::LoadImm { x, kk } => {
                self.ld(x, kk);
                Ok(())
            },
            Instr::AddImm { x, kk } => {
                self.add(x, kk);
                Ok(())
            },
            Instr::LoadReg { x, y } => {
                let v = self.get_register(y);
                self.ld(x, v);
                Ok(())
            },
            Instr::Or { x, y } => {
                self.or_xy(x, y);
                Ok(())
            },
            Instr::And { x, y } => {
                self.and_xy(x, y);
                Ok(())
            },
            Instr::Xor { x, y } => {
                self.xor_xy(x, y);
                Ok(())
            },
            Instr::AddReg { x, y } => {
                self.add_xy(x, y);
                Ok(())
            },
            Instr::SubReg { x, y } => {
                self.sub_xy(x, y);
                Ok(())
            },
            Instr::ShiftRight { x } => {
                self.shift_right(x);
                Ok(())
            },
            Instr::SubRegRev { x, y } => {
                self.sub_y_from_x(x, y);
                Ok(())
            },
            Instr::ShiftLeft { x } => {
                self.shift_left(x);
                Ok(())
            },
            Instr::SetIndex { addr } => {
                self.set_index(addr);
                Ok(())
            },
            Instr::JumpPlusV0 { addr } => {
                self.jmp_plus_register(addr);
                Ok(())
            },
            Instr::Rand { x, kk } => {
                self.rand(x, kk, rnd);
                Ok(())
            },
            Instr::Draw { x, y, n } => self.draw_sprite(x, y, n),
            Instr::SkipKey { x } => self.skp(x),
            Instr::SkipNotKey { x } => self.sknp(x),
            Instr::LoadDelay { x } => {
                self.load_td(x);
                Ok(())
            },
            Instr::AwaitKey { x } => {
                self.await_keypress(x);
                Ok(())
            },
            Instr::SetDelay { x } => {
                self.set_dt(x);
                Ok(())
            },
            Instr::SetSound { x } => {
                self.set_st(x);
                Ok(())
            },
            Instr::AddIndex { x } => self.add_vx_to_index(x),
            Instr::IndexDigit { x } => {
                self.index_digit(x);
                Ok(())
            },
            Instr::BcdStore { x } => self.bcd_to_i(x),
            Instr::RegDump { x } => self.load_registers(x),
            Instr::RegLoad { x } => self.read_registers(x),
        }
    }

    /// One fetch-decode-execute cycle in which the random instruction, if
    /// that is what runs, draws `rnd`.
    pub fn step_with(&mut self, rnd: u8) -> (r: Result<Status, Fault>)
        requires
            old(self).wf(),
        ensures
            final(self).wf(),
            (final(self)@, r) == step_spec(old(self)@, rnd),
    {
        let op = match self.read_opcode() {
            Ok(op) => op,
            Err(e) => return Err(e),
        };
        let ins = match decode(op) {
            Some(ins) => ins,
            None => return Err(Fault::UnimplementedInstruction { opcode: op }),
        };
        let saved = self.pc;
        self.pc = saved + 2;
        match ins {
            Instr::Halt => Ok(Status::Halted),
            _ => match self.execute(ins, rnd) {
                Ok(()) => Ok(Status::Running),
                Err(e) => {
                    self.pc = saved;
                    Err(e)
                },
            },
        }
    }

    /// One fetch-decode-execute cycle, the random instruction drawing from
    /// the thread-local generator: the outcome is that of `step_with` for
    /// some byte.
    pub fn step(&mut self) -> (r: Result<Status, Fault>)
        requires
            old(self).wf(),
        ensures
            final(self).wf(),
            exists|b: u8| (final(self)@, r) == step_spec(old(self)@, b),
    {
        let b = rand_u8();
        self.step_with(b)
    }

    /// Steps until the program halts or faults, or `max_steps` steps have
    /// run. The outcome is that of `run_spec` for some sequence of random
    /// bytes, one per step; all of `max_steps` of them where it returns
    /// `Running`.
    pub fn run(&mut self, max_steps: u64) -> (r: Result<Status, Fault>)
        requires
            old(self).wf(),
        ensures
            final(self).wf(),
            exists|rs: Seq<u8>|
                rs.len() <= max_steps && (final(self)@, r) == run_spec(old(self)@, rs) && (r
                    == Ok::<Status, Fault>(Status::Running) ==> rs.len() == max_steps),
    {
        let ghost m0 = self@;
        let ghost rs: Seq<u8> = Seq::empty();
        let mut i: u64 = 0;
        while i < max_steps
            invariant
                self.wf(),
                i <= max_steps,
                rs.len() == i,
                m0 == old(self)@,
                run_spec(m0, rs) == (self@, Ok::<Status, Fault>(Status::Running)),
            decreases max_steps - i,
        {
            let ghost before = self@;
            let o = self.step();
            let ghost b = choose|b: u8| (self@, o) == step_spec(before, b);
            proof {
                let rs2 = rs.push(b);
                assert(rs2.drop_last() =~= rs);
                assert(run_spec(m0, rs2) == (self@, o));
                rs = rs2;
            }
            i += 1;
            match o {
                Ok(Status::Running) => {},
                _ => {
                    assert(rs.len() <= max_steps && (self@, o) == run_spec(m0, rs) && o
                        != Ok::<Status, Fault>(Status::Running));
                    return o;
                },
            }
        }
        assert(rs.len() == max_steps);
        Ok(Status::Running)
    }

    /// Advances both timers by one tick, each stopping at zero.
    pub fn tick_timers(&mut self)
        requires
            old(self).wf(),
        ensures
            final(self).wf(),
            final(self)@ == tick_spec(old(self)@),
    {
        if self.delay_timer > 0 {
            self.delay_timer -= 1;
        }
        if self.sound_timer > 0 {
            self.sound_timer -= 1;
        }
    }

    /// Sets whether keypad key `key` is down.
    pub fn set_key(&mut self, key: usize, pressed: bool)
        requires
            old(self).wf(),
            key < 16,
        ensures
            final(self).wf(),
            final(self)@ == (Machine { keys: old(self)@.keys.update(key as int, pressed), ..old(self)@ }),
    {
        self.keys[key] = pressed;
    }

    /// Moves the program counter to `pc`.
    pub fn set_pc(&mut self, pc: u16)
        requires
            old(self).wf(),
        ensures
            final(self).wf(),
            final(self)@ == old(self)@.with_pc(pc),
    {
        self.pc = pc;
    }

    /// The program counter.
    pub fn pc(&self) -> (r: u16)
        ensures
            r == self@.pc,
    {
        self.pc
    }

    /// The index register I.
    pub fn index(&self) -> (r: u16)
        ensures
            r == self@.index,
    {
        self.memory_pointer
    }

    /// How many return addresses the call stack holds.
    pub fn stack_pointer(&self) -> (r: usize)
        ensures
            r == self@.sp,
    {
        self.stack_pointer
    }

    /// The delay timer.
    pub fn delay_timer(&self) -> (r: u8)
        ensures
            r == self@.delay_timer,
    {
        self.delay_timer
    }

    /// The sound timer.
    pub fn sound_timer(&self) -> (r: u8)
        ensures
            r == self@.sound_timer,
    {
        self.sound_timer
    }

    /// The byte at memory address `addr`.
    pub fn memory_at(&self, addr: usize) -> (r: u8)
        requires
            self.wf(),
            addr < MEMORY_SIZE,
        ensures
            r == self@.memory[addr as int],
    {
        self.memory[addr]
    }

    /// The framebuffer, row by row, one cell per byte (1 for set).
    pub fn framebuffer(&self) -> (r: &[u8; 2048])
        ensures
            r@ == self@.gfx,
    {
        &self.gfx
    }

    /// Whether the framebuffer changed since the host last cleared this flag.
    pub fn redraw_requested(&self) -> (r: bool)
        ensures
            r == self@.redraw,
    {
        self.redraw
    }

    /// Clears the redraw flag once the host has shown the framebuffer.
    pub fn clear_redraw(&mut self)
        requires
            old(self).wf(),
        ensures
            final(self).wf(),
            final(self)@ == (Machine { redraw: false, ..old(self)@ }),
    {
        self.redraw = false;
    }
}

} // verus!
