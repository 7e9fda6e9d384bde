//! The framebuffer: clearing it and drawing sprites on it.

use vstd::prelude::*;
use crate::machine::{blank_screen, CPU, Machine};

verus! {

/// The pixel in column `col` of a sprite row, counted from the left: bit `7 - col`.
pub open spec fn row_bit(byte: u8, col: int) -> bool {
    (byte >> ((7 - col) as u8)) & 1 == 1
}

/// Whether the sprite of `n` rows that starts at the index register, drawn with its
/// top-left corner at `(vx, vy)`, has a set pixel at row `r`, column `c` of the
/// framebuffer. Coordinates wrap around both edges.
pub open spec fn sprite_covers(s: Machine, vx: int, vy: int, n: int, r: int, c: int) -> bool {
    let row = (r - vy) % 32;
    let col = (c - vx) % 64;
    row < n && col < 8 && row_bit(s.memory[s.i_reg + row], col)
}

/// Whether drawing that sprite turns off a pixel that is on.
pub open spec fn sprite_collides(s: Machine, vx: int, vy: int, n: int) -> bool {
    exists|r: int, c: int|
        0 <= r < 32 && 0 <= c < 64 && s.screen[r][c] && #[trigger] sprite_covers(
            s,
            vx,
            vy,
            n,
            r,
            c,
        )
}

/// The machine with every pixel off.
pub open spec fn clear_screen(s: Machine) -> Machine {
    Machine { screen: blank_screen(), ..s }
}

/// The machine after drawing the sprite of `n` rows at `(Vx, Vy)`: every pixel that
/// the sprite covers is flipped, and `VF` says whether one of them was on.
pub open spec fn draw_sprite(s: Machine, x: int, y: int, n: int) -> Machine {
    let vx = s.v_reg[x] as int;
    let vy = s.v_reg[y] as int;
    Machine {
        screen: Seq::new(
            32,
            |r: int| Seq::new(64, |c: int| s.screen[r][c] != sprite_covers(s, vx, vy, n, r, c)),
        ),
        v_reg: s.v_reg.update(0xF, if sprite_collides(s, vx, vy, n) { 1u8 } else { 0u8 }),
        ..s
    }
}

/// As `sprite_covers`, but only for the first `k` sprite pixels in drawing order
/// (row by row, eight to a row).
spec fn covers_before(s: Machine, vx: int, vy: int, n: int, k: int, r: int, c: int) -> bool {
    sprite_covers(s, vx, vy, n, r, c) && 8 * ((r - vy) % 32) + (c - vx) % 64 < k
}

/// As `sprite_collides`, but only for the first `k` sprite pixels in drawing order.
spec fn collides_before(s: Machine, vx: int, vy: int, n: int, k: int) -> bool {
    exists|r: int, c: int|
        0 <= r < 32 && 0 <= c < 64 && s.screen[r][c] && #[trigger] covers_before(
            s,
            vx,
            vy,
            n,
            k,
            r,
            c,
        )
}

/// Once all `8 * n` sprite pixels are drawn, the partial collision test is the whole one.
proof fn lemma_collides_before_all(s: Machine, vx: int, vy: int, n: int)
    requires
        0 <= n,
    ensures
        collides_before(s, vx, vy, n, 8 * n) == sprite_collides(s, vx, vy, n),
{
    if collides_before(s, vx, vy, n, 8 * n) {
        let (r, c) = choose|r: int, c: int|
            0 <= r < 32 && 0 <= c < 64 && s.screen[r][c] && #[trigger] covers_before(
                s,
                vx,
                vy,
                n,
                8 * n,
                r,
                c,
            );
        assert(sprite_covers(s, vx, vy, n, r, c));
    }
    if sprite_collides(s, vx, vy, n) {
        let (r, c) = choose|r: int, c: int|
            0 <= r < 32 && 0 <= c < 64 && s.screen[r][c] && #[trigger] sprite_covers(
                s,
                vx,
                vy,
                n,
                r,
                c,
            );
        assert(covers_before(s, vx, vy, n, 8 * n, r, c));
    }
}

/// Drawing sprite pixel `k` (row `k / 8`, column `k % 8`) extends the partial
/// collision test by the one framebuffer pixel it lands on.
proof fn lemma_collides_before_step(s: Machine, vx: int, vy: int, n: int, row: int, col: int)
    requires
        0 <= vx,
        0 <= vy,
        0 <= row < n <= 32,
        0 <= col < 8,
    ensures
        ({
            let py = (vy + row) % 32;
            let px = (vx + col) % 64;
            let bit = row_bit(s.memory[s.i_reg + row], col);
            &&& collides_before(s, vx, vy, n, 8 * row + col + 1) == (collides_before(
                s,
                vx,
                vy,
                n,
                8 * row + col,
            ) || (bit && s.screen[py][px]))
            &&& forall|r: int, c: int|
                0 <= r < 32 && 0 <= c < 64 ==> #[trigger] covers_before(
                    s,
                    vx,
                    vy,
                    n,
                    8 * row + col + 1,
                    r,
                    c,
                ) == (covers_before(s, vx, vy, n, 8 * row + col, r, c) || (bit && r == py && c
                    == px))
        }),
{
    let k = 8 * row + col;
    let py = (vy + row) % 32;
    let px = (vx + col) % 64;
    let bit = row_bit(s.memory[s.i_reg + row], col);
    assert((py - vy) % 32 == row);
    assert((px - vx) % 64 == col);
    assert forall|r: int, c: int| 0 <= r < 32 && 0 <= c < 64 implies #[trigger] covers_before(
        s,
        vx,
        vy,
        n,
        k + 1,
        r,
        c,
    ) == (covers_before(s, vx, vy, n, k, r, c) || (bit && r == py && c == px)) by {
        if (r - vy) % 32 == row && (c - vx) % 64 == col {
            assert(r == py);
            assert(c == px);
        }
    }
    if collides_before(s, vx, vy, n, k + 1) {
        let (r, c) = choose|r: int, c: int|
            0 <= r < 32 && 0 <= c < 64 && s.screen[r][c] && #[trigger] covers_before(
                s,
                vx,
                vy,
                n,
                k + 1,
                r,
                c,
            );
        assert(covers_before(s, vx, vy, n, k, r, c) || (bit && r == py && c == px));
    }
    if collides_before(s, vx, vy, n, k) {
        let (r, c) = choose|r: int, c: int|
            0 <= r < 32 && 0 <= c < 64 && s.screen[r][c] && #[trigger] covers_before(
                s,
                vx,
                vy,
                n,
                k,
                r,
                c,
            );
        assert(covers_before(s, vx, vy, n, k + 1, r, c));
    }
    if bit && s.screen[py][px] {
        assert(covers_before(s, vx, vy, n, k + 1, py, px));
    }
}

impl CPU {
    /// Turns every pixel off.
    pub fn op_00e0(&mut self)
        ensures
            final(self)@ == clear_screen(old(self)@),
    {
        self.screen_data = [[false; 64]; 32];
        assert(self@.screen =~~= blank_screen());
    }

    /// Draws the sprite of `n` rows found at the index register with its top-left
    /// corner at `(Vx, Vy)`, wrapping around the edges, and records in `VF` whether
    /// a lit pixel was turned off.
    pub fn op_dxyn(&mut self, x: usize, y: usize, n: u8)
        requires
            x < 16,
            y < 16,
            n < 16,
            n == 0 || old(self).i_reg + n <= 4096,
        ensures
            final(self)@ == draw_sprite(old(self)@, x as int, y as int, n as int),
    {
        let vx = self.v_reg[x] as usize;
        let vy = self.v_reg[y] as usize;
        self.v_reg[0xF] = 0;
        let ghost s = old(self)@;
        assert(!collides_before(s, vx as int, vy as int, n as int, 0));
        let mut row: u8 = 0;
        while row < n
            invariant
                row <= n < 16,
                vx < 256,
                vy < 256,
                s == old(self)@,
                n == 0 || s.i_reg + n <= 4096,
                self@ == (Machine { screen: self@.screen, v_reg: self@.v_reg, ..s }),
                self@.v_reg == s.v_reg.update(
                    0xF,
                    if collides_before(s, vx as int, vy as int, n as int, 8 * row) {
                        1u8
                    } else {
                        0u8
                    },
                ),
                forall|r: int, c: int|
                    0 <= r < 32 && 0 <= c < 64 ==> self.screen_data@[r]@[c] == (s.screen[r][c]
                        != #[trigger] covers_before(
                        s,
                        vx as int,
                        vy as int,
                        n as int,
                        8 * row,
                        r,
                        c,
                    )),
            decreases n - row,
        {
            let py = (vy + row as usize) % 32;
            let sprite_data = self.memory[self.i_reg as usize + row as usize];
            let mut b: u8 = 0;
            while b < 8
                invariant
                    b <= 8,
                    row < n < 16,
                    vx < 256,
                    vy < 256,
                    py == (vy + row) % 32,
                    s == old(self)@,
                    s.i_reg + n <= 4096,
                    sprite_data == s.memory[s.i_reg + row],
                    self@ == (Machine { screen: self@.screen, v_reg: self@.v_reg, ..s }),
                    self@.v_reg == s.v_reg.update(
                        0xF,
                        if collides_before(s, vx as int, vy as int, n as int, 8 * row + b) {
                            1u8
                        } else {
                            0u8
                        },
                    ),
                    forall|r: int, c: int|
                        0 <= r < 32 && 0 <= c < 64 ==> self.screen_data@[r]@[c] == (
                        s.screen[r][c] != #[trigger] covers_before(
                            s,
                            vx as int,
                            vy as int,
                            n as int,
                            8 * row + b,
                            r,
                            c,
                        )),
                decreases 8 - b,
            {
                let px = (vx + b as usize) % 64;
                let sprite_pixel = (sprite_data >> (7 - b)) & 1;
                proof {
                    lemma_collides_before_step(
                        s,
                        vx as int,
                        vy as int,
                        n as int,
                        row as int,
                        b as int,
                    );
                    assert(!covers_before(
                        s,
                        vx as int,
                        vy as int,
                        n as int,
                        8 * row + b,
                        py as int,
                        px as int,
                    ));
                }
                if sprite_pixel == 1 {
                    if self.screen_data[py][px] {
                        self.v_reg[0xF] = 1;
                    }
                    self.screen_data[py][px] ^= true;
                }
                b += 1;
            }
            row += 1;
        }
        proof {
            lemma_collides_before_all(s, vx as int, vy as int, n as int);
            let drawn = draw_sprite(s, x as int, y as int, n as int);
            assert forall|r: int, c: int| 0 <= r < 32 && 0 <= c < 64 implies self@.screen[r][c]
                == drawn.screen[r][c] by {
                assert(covers_before(s, vx as int, vy as int, n as int, 8 * n, r, c)
                    == sprite_covers(s, vx as int, vy as int, n as int, r, c));
            }
            assert(self@.screen =~~= drawn.screen);
        }
    }
}

} // verus!
