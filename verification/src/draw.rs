//! Drawing a sprite on the screen.

use vstd::prelude::*;
use crate::config::{DISPLAY_HEIGHT, DISPLAY_WIDTH};
use crate::cpu::{PcJump, CPU};
use crate::error::Error;
use crate::machine::Machine;
use crate::ram::MEMORY_SIZE;

verus! {

/// What `Dxyn` draws: the registers that hold the place, and the number of
/// rows.
pub struct Sprite {
    pub x: int,
    pub y: int,
    pub n: int,
}

impl Sprite {
    /// Whether the sprite has a set bit on pixel `p`.
    pub open spec fn covers(self, m: Machine, p: int) -> bool {
        m.sprite_covers(self.x, self.y, self.n, p)
    }

    /// Whether the sprite has a set bit on pixel `p` in a row before row `j`,
    /// or in row `j` in a column before `b`: the part that is drawn first.
    pub open spec fn drawn_before(self, m: Machine, p: int, j: int, b: int) -> bool {
        let row = (p / 64 - m.v[self.y]) % 32;
        let col = (p % 64 - m.v[self.x]) % 64;
        self.covers(m, p) && (row < j || (row == j && col < b))
    }

    /// Whether the part that is drawn before row `j`, column `b` meets a lit
    /// pixel.
    pub open spec fn hits_before(self, m: Machine, j: int, b: int) -> bool {
        exists|p: int| 0 <= p < 2048 && m.vram[p] && #[trigger] self.drawn_before(m, p, j, b)
    }

    /// The screen with the part of the sprite on it that is drawn before row
    /// `j`, column `b`.
    pub open spec fn screen_before(self, m: Machine, j: int, b: int) -> Seq<bool> {
        Seq::new(2048, |p: int| m.vram[p] ^ self.drawn_before(m, p, j, b))
    }
}

/// On a ring of 32 rows, row `r` lies `j` below row `v` exactly if it is row
/// `v + j` wrapped.
proof fn lemma_wrap_rows(r: int, v: int, j: int)
    requires
        0 <= r < 32,
        0 <= j < 32,
        0 <= v < 256,
    ensures
        ((r - v) % 32 == j) <==> (r == (v + j) % 32),
{
}

/// On a ring of 64 columns, column `c` lies `b` right of column `v` exactly
/// if it is column `v + b` wrapped.
proof fn lemma_wrap_columns(c: int, v: int, b: int)
    requires
        0 <= c < 64,
        0 <= b < 64,
        0 <= v < 256,
    ensures
        ((c - v) % 64 == b) <==> (c == (v + b) % 64),
{
}

/// Row `j`, column `b` of a sprite at `(vx, vy)` lands on exactly one pixel.
proof fn lemma_pixel_of_sprite(vx: int, vy: int, j: int, b: int, p: int)
    requires
        0 <= vx < 256,
        0 <= vy < 256,
        0 <= j < 32,
        0 <= b < 64,
        0 <= p < 2048,
    ensures
        ((p / 64 - vy) % 32 == j && (p % 64 - vx) % 64 == b) <==> p == ((vy + j) % 32) * 64 + (vx
            + b) % 64,
{
    let r = p / 64;
    let c = p % 64;
    let row = (vy + j) % 32;
    let col = (vx + b) % 64;
    lemma_wrap_rows(r, vy, j);
    lemma_wrap_columns(c, vx, b);
    assert(p == r * 64 + c);
    assert((r == row && c == col) <==> p == row * 64 + col);
}

impl CPU {
    /// `Dxyn`: draws the `n` bytes at `I` as a sprite of `n` rows of eight
    /// pixels at `(Vx, Vy)`, wrapping round the screen, by exclusive or.
    /// `VF` is 1 if a lit pixel went off, else 0, and the screen is marked as
    /// changed. Fails, with nothing drawn, unless the `n` bytes are in memory.
    pub fn op_dxyn(&mut self, x: usize, y: usize, n: u8) -> (jump: Result<PcJump, Error>)
        requires
            x < 16,
            y < 16,
            n < 16,
        ensures
            match old(self)@.draw_sprite(x as int, y as int, n as int) {
                Ok(m) => jump == Ok::<PcJump, Error>(PcJump::Next) && final(self)@ == m,
                Err(e) => jump == Err::<PcJump, Error>(e) && final(self)@ == old(self)@,
            },
    {
        let vx: usize = self.v[x] as usize;
        let vy: usize = self.v[y] as usize;
        let base: usize = self.i as usize;
        let rows: usize = n as usize;
        if rows > 0 && base + rows > MEMORY_SIZE {
            return Err(Error::OutOfBounds);
        }
        let ghost before = old(self)@;
        let ghost sprite = Sprite { x: x as int, y: y as int, n: n as int };
        let mut hit = false;
        let mut j: usize = 0;
        while j < rows
            invariant
                0 <= sprite.x < 16,
                0 <= sprite.y < 16,
                rows == sprite.n,
                rows < 16,
                j <= rows,
                vx == before.v[sprite.x],
                vy == before.v[sprite.y],
                base == before.i,
                rows > 0 ==> base + rows <= MEMORY_SIZE,
                self@ == (Machine { vram: self.vram@, ..before }),
                self.vram@ == sprite.screen_before(before, j as int, 0),
                hit == sprite.hits_before(before, j as int, 0),
            decreases rows - j,
        {
            let row: usize = (vy + j) % DISPLAY_HEIGHT;
            let byte: u8 = self.ram[base + j];
            let mut b: u8 = 0;
            while b < 8
                invariant
                    0 <= sprite.x < 16,
                    0 <= sprite.y < 16,
                    rows == sprite.n,
                    j < rows < 16,
                    b <= 8,
                    vx == before.v[sprite.x],
                    vy == before.v[sprite.y],
                    base == before.i,
                    base + rows <= MEMORY_SIZE,
                    row == (vy + j) % 32,
                    byte == before.ram[base + j],
                    self@ == (Machine { vram: self.vram@, ..before }),
                    self.vram@ == sprite.screen_before(before, j as int, b as int),
                    hit == sprite.hits_before(before, j as int, b as int),
                decreases 8 - b,
            {
                let col: usize = (vx + b as usize) % DISPLAY_WIDTH;
                let at: usize = row * DISPLAY_WIDTH + col;
                let was: bool = self.vram[at];
                let bit: bool = byte & (0x80u8 >> b) != 0;
                let ghost hit_before = hit;
                if was && bit {
                    hit = true;
                }
                self.vram[at] = bit ^ was;
                proof {
                    let ji = j as int;
                    let bi = b as int;
                    assert forall|p: int| 0 <= p < 2048 implies (#[trigger] sprite.drawn_before(
                        before,
                        p,
                        ji,
                        bi + 1,
                    ) == (sprite.drawn_before(before, p, ji, bi) || (p == at && bit))) by {
                        lemma_pixel_of_sprite(vx as int, vy as int, ji, bi, p);
                    }
                    assert(!sprite.drawn_before(before, at as int, ji, bi)) by {
                        lemma_pixel_of_sprite(vx as int, vy as int, ji, bi, at as int);
                    }
                    assert(was == before.vram[at as int]);
                    assert(self.vram@ =~= sprite.screen_before(before, ji, bi + 1));
                    if hit_before {
                        let w = choose|p: int|
                            0 <= p < 2048 && before.vram[p] && #[trigger] sprite.drawn_before(
                                before,
                                p,
                                ji,
                                bi,
                            );
                        assert(sprite.drawn_before(before, w, ji, bi + 1));
                    } else if hit {
                        assert(sprite.drawn_before(before, at as int, ji, bi + 1));
                    }
                }
                b += 1;
            }
            proof {
                let ji = j as int;
                assert forall|p: int| 0 <= p < 2048 implies (#[trigger] sprite.drawn_before(
                    before,
                    p,
                    ji + 1,
                    0,
                ) == sprite.drawn_before(before, p, ji, 8)) by {}
                assert(self.vram@ =~= sprite.screen_before(before, ji + 1, 0));
                if hit {
                    let w = choose|p: int|
                        0 <= p < 2048 && before.vram[p] && #[trigger] sprite.drawn_before(
                            before,
                            p,
                            ji,
                            8,
                        );
                    assert(sprite.drawn_before(before, w, ji + 1, 0));
                }
            }
            j += 1;
        }
        proof {
            assert forall|p: int| 0 <= p < 2048 implies (#[trigger] sprite.drawn_before(
                before,
                p,
                sprite.n,
                0,
            ) == sprite.covers(before, p)) by {}
            if before.collides(sprite.x, sprite.y, sprite.n) {
                let w = choose|p: int|
                    0 <= p < 2048 && before.vram[p] && #[trigger] before.sprite_covers(
                        sprite.x,
                        sprite.y,
                        sprite.n,
                        p,
                    );
                assert(sprite.drawn_before(before, w, sprite.n, 0));
            }
            assert(hit == before.collides(sprite.x, sprite.y, sprite.n));
            assert(self.vram@ =~= Seq::new(
                2048,
                |p: int| before.vram[p] ^ before.sprite_covers(sprite.x, sprite.y, sprite.n, p),
            ));
        }
        self.v[0xf] = if hit { 1 } else { 0 };
        self.draw = true;
        Ok(PcJump::Next)
    }
}

} // verus!
