//! Properties of the instruction set that hold on every machine state.
use vstd::prelude::*;
use crate::instruction::{Instr, decode_spec};
use crate::machine::{
    FLAG, Fault, Machine, STACK_SIZE, Status, can_fetch, cell_of, collides, drawn_gfx,
    execute_spec, fetch_spec, first_key, pc_minus_two, lemma_cell_of_inverse, run_spec, sprite_bit,
    sprite_in_bounds, step_spec,
};

verus! {

/// Adding `kk` to a register and then `256 - kk` (mod 256) gives back the
/// machine it started from: the register is restored and nothing else moved.
pub proof fn lemma_add_imm_round_trip(m: Machine, x: u8, kk: u8, rnd: u8)
    requires
        m.wf(),
        x < 16,
    ensures
        execute_spec(m, Instr::AddImm { x, kk }, rnd) matches Ok(m1) && execute_spec(
            m1,
            Instr::AddImm { x, kk: ((256 - kk as int) % 256) as u8 },
            rnd,
        ) == Ok::<Machine, Fault>(m),
{
    let back = ((256 - kk as int) % 256) as u8;
    let v = m.reg(x);
    let v1 = ((v + kk) % 256) as u8;
    let m1 = m.set_reg(x, v1);
    assert(execute_spec(m, Instr::AddImm { x, kk }, rnd) == Ok::<Machine, Fault>(m1));
    assert(((v1 + back) % 256) as u8 == v);
    assert(m1.set_reg(x, v).registers =~= m.registers);
    assert(m1.set_reg(x, v) == m);
}

/// Adding registers sets VF to 1 exactly when the true sum exceeds 255.
pub proof fn lemma_add_reg_carry(m: Machine, x: u8, y: u8, rnd: u8)
    requires
        m.wf(),
        x < 16,
        y < 16,
    ensures
        execute_spec(m, Instr::AddReg { x, y }, rnd) matches Ok(m1) && m1.reg(FLAG as u8) == (if m.reg(x)
            + m.reg(y) > 255 {
            1u8
        } else {
            0u8
        }),
{
}

/// Subtracting registers sets VF to 0 exactly when `Vx < Vy` (a borrow), else 1.
pub proof fn lemma_sub_reg_borrow(m: Machine, x: u8, y: u8, rnd: u8)
    requires
        m.wf(),
        x < 16,
        y < 16,
    ensures
        execute_spec(m, Instr::SubReg { x, y }, rnd) matches Ok(m1) && m1.reg(FLAG as u8) == (if m.reg(x)
            < m.reg(y) {
            0u8
        } else {
            1u8
        }),
{
}

/// A right shift puts the bit shifted out (the old lowest bit) in VF;
/// unless Vx is VF itself, the shifted value and the flag together give
/// back the old value.
pub proof fn lemma_shift_right_flag(m: Machine, x: u8, rnd: u8)
    requires
        m.wf(),
        x < 16,
    ensures
        execute_spec(m, Instr::ShiftRight { x }, rnd) matches Ok(m1) && m1.reg(FLAG as u8) == m.reg(x)
            % 2 && (x != FLAG ==> m1.reg(x) * 2 + m1.reg(FLAG as u8) == m.reg(x)),
{
    let v = m.reg(x);
    assert(v & 1 == v % 2 && v >> 1 == v / 2) by (bit_vector);
}

/// A left shift puts the bit shifted out (the old highest bit) in VF;
/// unless Vx is VF itself, the flag and the shifted value together give
/// back the old value.
pub proof fn lemma_shift_left_flag(m: Machine, x: u8, rnd: u8)
    requires
        m.wf(),
        x < 16,
    ensures
        execute_spec(m, Instr::ShiftLeft { x }, rnd) matches Ok(m1) && m1.reg(FLAG as u8) == m.reg(x)
            / 128 && (x != FLAG ==> m1.reg(FLAG as u8) * 128 + m1.reg(x) / 2 == m.reg(x)),
{
    let v = m.reg(x);
    assert((v >> 7) & 1 == v / 128) by (bit_vector);
}

/// A call followed at its target by a return comes back to the instruction
/// after the call, with the stack pointer where it was before the call.
pub proof fn lemma_call_then_return(m: Machine, addr: u16, rnd1: u8, rnd2: u8)
    requires
        m.wf(),
        can_fetch(m),
        decode_spec(fetch_spec(m)) == Some(Instr::Call { addr }),
        m.sp < STACK_SIZE,
        can_fetch(m.with_pc(addr)),
        decode_spec(fetch_spec(m.with_pc(addr))) == Some(Instr::Return),
    ensures
        ({
            let (m1, o1) = step_spec(m, rnd1);
            let (m2, o2) = step_spec(m1, rnd2);
            &&& o1 == Ok::<Status, Fault>(Status::Running)
            &&& o2 == Ok::<Status, Fault>(Status::Running)
            &&& m2.pc == m.pc + 2
            &&& m2.sp == m.sp
        }),
{
    let (m1, o1) = step_spec(m, rnd1);
    assert(m1.memory == m.memory && m1.pc == addr);
    assert(m1 == (Machine { stack: m1.stack, sp: m1.sp, ..m.with_pc(addr) }));
}

/// While no key is down, a step at a wait-for-key instruction changes
/// nothing, so any number of steps leaves the machine where it was.
pub proof fn lemma_await_key_waits(m: Machine, x: u8, rs: Seq<u8>)
    requires
        m.wf(),
        can_fetch(m),
        decode_spec(fetch_spec(m)) == Some(Instr::AwaitKey { x }),
        first_key(m.keys) is None,
    ensures
        run_spec(m, rs) == (m, Ok::<Status, Fault>(Status::Running)),
    decreases rs.len(),
{
    if rs.len() > 0 {
        lemma_await_key_waits(m, x, rs.drop_last());
        assert(pc_minus_two((m.pc + 2) as u16) == m.pc);
    }
}

/// Once a key is down, a step at a wait-for-key instruction moves past it
/// and stores the index of the lowest key that is down in `Vx`.
pub proof fn lemma_await_key_takes_key(m: Machine, x: u8, rnd: u8)
    requires
        m.wf(),
        can_fetch(m),
        decode_spec(fetch_spec(m)) == Some(Instr::AwaitKey { x }),
        first_key(m.keys) is Some,
    ensures
        ({
            let (m1, o) = step_spec(m, rnd);
            &&& o == Ok::<Status, Fault>(Status::Running)
            &&& m1 == m.with_pc((m.pc + 2) as u16).set_reg(x, first_key(m.keys)->Some_0)
        }),
{
}

/// Drawing the same sprite twice at the same place gives back the
/// framebuffer it started from. On a region that was blank, the first draw
/// reports no collision, and the second reports one exactly when the sprite
/// has a set bit. The coordinates are not taken from VF, which the first
/// draw overwrites.
pub proof fn lemma_draw_twice(m: Machine, x: u8, y: u8, n: u8, rnd: u8)
    requires
        m.wf(),
        x < 15,
        y < 15,
        n < 16,
        sprite_in_bounds(m, n),
    ensures
        ({
            let vx = m.reg(x) as int % 64;
            let vy = m.reg(y) as int % 32;
            let d = Instr::Draw { x, y, n };
            let m1 = execute_spec(m, d, rnd)->Ok_0;
            let m2 = execute_spec(m1, d, rnd)->Ok_0;
            &&& execute_spec(m, d, rnd) is Ok
            &&& execute_spec(m1, d, rnd) is Ok
            &&& m2.gfx == m.gfx
            &&& (forall|r: int, c: int|
                0 <= r < n && 0 <= c < 8 ==> #[trigger] m.gfx[cell_of(vx, vy, r, c)] == 0) ==> {
                &&& m1.reg(FLAG as u8) == 0
                &&& (m2.reg(FLAG as u8) == 1 <==> exists|r: int, c: int|
                    0 <= r < n && 0 <= c < 8 && #[trigger] sprite_bit(m, r, c) == 1)
            }
        }),
{
    let vx = m.reg(x) as int % 64;
    let vy = m.reg(y) as int % 32;
    let d = Instr::Draw { x, y, n };
    let m1 = execute_spec(m, d, rnd)->Ok_0;
    assert(m1.reg(x) == m.reg(x) && m1.reg(y) == m.reg(y));
    assert forall|r: int, c: int| #[trigger] sprite_bit(m1, r, c) == sprite_bit(m, r, c) by {}
    assert forall|a: u8, b: u8| #[trigger] ((a ^ b) ^ b) == a by {
        assert((a ^ b) ^ b == a) by (bit_vector);
    }
    assert(drawn_gfx(m1, vx, vy, n as int) =~= m.gfx);
    if forall|r: int, c: int| 0 <= r < n && 0 <= c < 8 ==> #[trigger] m.gfx[cell_of(vx, vy, r, c)] == 0 {
        assert forall|r: int, c: int| 0 <= r < n && 0 <= c < 8 implies m1.gfx[cell_of(vx, vy, r, c)]
            == #[trigger] sprite_bit(m, r, c) by {
            lemma_cell_of_inverse(vx, vy, r, c);
            let b = sprite_bit(m, r, c);
            assert(0u8 ^ b == b) by (bit_vector);
        }
        assert(!collides(m, vx, vy, n as int));
        if exists|r: int, c: int| 0 <= r < n && 0 <= c < 8 && #[trigger] sprite_bit(m, r, c) == 1 {
            let (r, c) = choose|r: int, c: int| 0 <= r < n && 0 <= c < 8 && #[trigger] sprite_bit(m, r, c) == 1;
            assert(m1.gfx[cell_of(vx, vy, r, c)] == 1);
            assert(sprite_bit(m1, r, c) == 1);
            assert(collides(m1, vx, vy, n as int));
        }
        if collides(m1, vx, vy, n as int) {
            let (r, c) = choose|r: int, c: int|
                0 <= r < n && 0 <= c < 8 && #[trigger] m1.gfx[cell_of(vx, vy, r, c)] == 1
                    && #[trigger] sprite_bit(m1, r, c) == 1;
            assert(sprite_bit(m, r, c) == 1);
        }
    }
}

} // verus!
