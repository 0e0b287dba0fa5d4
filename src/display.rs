//! Turning framebuffer cells into pixel colours for a host window.
use vstd::prelude::*;
use vstd::arithmetic::div_mod::lemma_add_mod_noop;
use crate::machine::{SCREEN_CELLS, SCREEN_HEIGHT, SCREEN_WIDTH, cell_of, drawn_before, lemma_cell_of_inverse};

verus! {

/// The colour of a lit pixel.
pub const WHITE: u32 = 0xFFFFFF;
/// The colour of a dark pixel.
pub const BLACK: u32 = 0x000000;

/// The colour shown for a framebuffer cell: white where it is 1.
pub open spec fn pixel_color(cell: u8) -> u32 {
    if cell == 1 { WHITE } else { BLACK }
}

/// Whether bit `col` (from the left) of `byte` is set.
pub open spec fn bit_set(byte: u8, col: int) -> bool {
    byte & (0x80u8 >> (col as u8)) != 0
}

/// Whether some set bit among the sprite positions before `(row, col)`
/// lands on cell `idx`, with the sprite's corner at `(vx, vy)`.
pub open spec fn painted_before(vx: int, vy: int, sprite: Seq<u8>, row: int, col: int, idx: int) -> bool {
    exists|r: int, c: int|
        0 <= r < sprite.len() && 0 <= c < 8 && drawn_before(r, c, row, col) && #[trigger] bit_set(
            sprite[r],
            c,
        ) && #[trigger] cell_of(vx, vy, r, c) == idx
}

/// `buffer` with every cell that a set bit of `sprite` lands on turned white,
/// among the positions before `(row, col)`.
pub open spec fn painted(buffer: Seq<u32>, vx: int, vy: int, sprite: Seq<u8>, row: int, col: int) -> Seq<u32> {
    Seq::new(
        buffer.len(),
        |idx: int| if painted_before(vx, vy, sprite, row, col, idx) { WHITE } else { buffer[idx] },
    )
}

/// Host-side rendering helpers.
pub struct IOHandler;

impl IOHandler {
    /// One colour per framebuffer cell: white where the cell is 1, else black.
    pub fn draw(gfx: &[u8; 2048]) -> (r: Vec<u32>)
        ensures
            r@.len() == SCREEN_CELLS,
            forall|i: int| 0 <= i < SCREEN_CELLS ==> r@[i] == pixel_color(#[trigger] gfx@[i]),
    {
        let mut buffer: Vec<u32> = Vec::with_capacity(SCREEN_CELLS);
        let mut i: usize = 0;
        while i < SCREEN_CELLS
            invariant
                0 <= i <= SCREEN_CELLS,
                buffer@.len() == i,
                forall|j: int| 0 <= j < i ==> buffer@[j] == pixel_color(#[trigger] gfx@[j]),
            decreases SCREEN_CELLS - i,
        {
            let color = if gfx[i] == 1 { WHITE } else { BLACK };
            buffer.push(color);
            i += 1;
        }
        buffer
    }

    /// Turns white every cell of `buffer` that a set bit of `sprite` lands
    /// on, with the sprite's corner at `(x, y)`; rows and columns wrap at the
    /// screen edges. Other cells keep their colour.
    pub fn draw_sprite(buffer: &mut Vec<u32>, x: usize, y: usize, sprite: &[u8])
        requires
            old(buffer)@.len() == SCREEN_CELLS,
        ensures
            final(buffer)@ == painted(
                old(buffer)@,
                x as int % 64,
                y as int % 32,
                sprite@,
                sprite@.len() as int,
                0,
            ),
    {
        let vx = x % SCREEN_WIDTH;
        let vy = y % SCREEN_HEIGHT;
        let ghost b0 = buffer@;
        let ghost s = sprite@;
        let mut row: usize = 0;
        while row < sprite.len()
            invariant
                row <= s.len(),
                s == sprite@,
                vx == x % 64,
                vy == y % 32,
                buffer@ == painted(b0, vx as int, vy as int, s, row as int, 0),
                b0.len() == SCREEN_CELLS,
            decreases s.len() - row,
        {
            let byte = sprite[row];
            let mut bit: usize = 0;
            while bit < 8
                invariant
                    row < s.len(),
                    bit <= 8,
                    s == sprite@,
                    byte == s[row as int],
                    vx == x % 64,
                    vy == y % 32,
                    buffer@ == painted(b0, vx as int, vy as int, s, row as int, bit as int),
                    b0.len() == SCREEN_CELLS,
                decreases 8 - bit,
            {
                let pixel_x = (vx + bit) % SCREEN_WIDTH;
                let pixel_y = (vy + row % SCREEN_HEIGHT) % SCREEN_HEIGHT;
                let index = pixel_y * SCREEN_WIDTH + pixel_x;
                proof {
                    lemma_add_mod_noop(vy as int, row as int, 32);
                    lemma_cell_of_inverse(vx as int, vy as int, (row % 32) as int, bit as int);
                    lemma_add_mod_noop(vy as int, (row % 32) as int, 32);
                    assert(index == cell_of(vx as int, vy as int, row as int, bit as int));
                }
                let set = (byte & (0x80u8 >> (bit as u8))) != 0;
                if set {
                    buffer.set(index, WHITE);
                }
                proof {
                    let next = painted(b0, vx as int, vy as int, s, row as int, bit + 1);
                    assert forall|i: int| 0 <= i < SCREEN_CELLS implies buffer@[i] == next[i] by {
                        if painted_before(vx as int, vy as int, s, row as int, bit + 1, i) {
                            let (r, c) = choose|r: int, c: int|
                                0 <= r < s.len() && 0 <= c < 8 && drawn_before(r, c, row as int, bit + 1)
                                    && #[trigger] bit_set(s[r], c) && #[trigger] cell_of(vx as int, vy as int, r, c) == i;
                            if r != row || c != bit {
                                assert(painted_before(vx as int, vy as int, s, row as int, bit as int, i));
                            }
                        }
                        if i == index && set {
                            assert(bit_set(s[row as int], bit as int));
                            assert(painted_before(vx as int, vy as int, s, row as int, bit + 1, i));
                        }
                        if painted_before(vx as int, vy as int, s, row as int, bit as int, i) {
                            let (r, c) = choose|r: int, c: int|
                                0 <= r < s.len() && 0 <= c < 8 && drawn_before(r, c, row as int, bit as int)
                                    && #[trigger] bit_set(s[r], c) && #[trigger] cell_of(vx as int, vy as int, r, c) == i;
                            assert(drawn_before(r, c, row as int, bit + 1));
                        }
                    }
                    assert(buffer@ =~= next);
                }
                bit += 1;
            }
            proof {
                let a = painted(b0, vx as int, vy as int, s, row as int, 8);
                let b = painted(b0, vx as int, vy as int, s, row + 1, 0);
                assert forall|i: int| 0 <= i < SCREEN_CELLS implies a[i] == b[i] by {
                    if painted_before(vx as int, vy as int, s, row as int, 8, i) {
                        let (r, c) = choose|r: int, c: int|
                            0 <= r < s.len() && 0 <= c < 8 && drawn_before(r, c, row as int, 8)
                                && #[trigger] bit_set(s[r], c) && #[trigger] cell_of(vx as int, vy as int, r, c) == i;
                        assert(drawn_before(r, c, row + 1, 0));
                    }
                    if painted_before(vx as int, vy as int, s, row + 1, 0, i) {
                        let (r, c) = choose|r: int, c: int|
                            0 <= r < s.len() && 0 <= c < 8 && drawn_before(r, c, row + 1, 0)
                                && #[trigger] bit_set(s[r], c) && #[trigger] cell_of(vx as int, vy as int, r, c) == i;
                        assert(drawn_before(r, c, row as int, 8));
                    }
                }
                assert(a =~= b);
            }
            row += 1;
        }
    }
}

} // verus!
