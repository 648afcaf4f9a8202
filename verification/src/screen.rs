//! The monochrome 64 by 32 pixel grid. Sprites are composed onto it by XOR,
//! eight pixels per sprite byte with the most significant bit leftmost;
//! drawing reports whether any pixel went from set to unset (a collision).
//! Pixels that fall beyond the edges are clipped, not wrapped.

use vstd::prelude::*;

verus! {

/// Width of the screen in pixels.
pub const SCREEN_WIDTH: usize = 64;

/// Height of the screen in pixels.
pub const SCREEN_HEIGHT: usize = 32;

/// Number of pixels on the screen.
pub const PIXEL_COUNT: usize = 2048;

/// Index of pixel `(x, y)` in the row-major pixel sequence.
pub open spec fn pixel_index(x: int, y: int) -> int {
    y * SCREEN_WIDTH + x
}

/// Pixel `col` of a sprite row byte, leftmost pixel first.
pub open spec fn sprite_row_bit(b: u8, col: int) -> bool {
    ((b >> ((7 - col) as u8)) & 1) == 1
}

/// Whether the on-screen pixel `(px, py)` is touched by a sprite of `rows`
/// rows drawn at `(x, y)`.
pub open spec fn sprite_covers(x: int, y: int, rows: int, px: int, py: int) -> bool {
    &&& x <= px < x + 8
    &&& y <= py < y + rows
    &&& 0 <= px < SCREEN_WIDTH
    &&& 0 <= py < SCREEN_HEIGHT
}

/// How a finished draw relates the screen before (`pre`) and after (`post`):
/// every pixel the sprite covers is XORed with the sprite bit, every other
/// pixel is kept.
pub open spec fn draw_applied(pre: Seq<bool>, post: Seq<bool>, x: int, y: int, sprite: Seq<u8>) -> bool {
    &&& post.len() == pre.len()
    &&& forall|px: int, py: int|
        0 <= px < SCREEN_WIDTH && 0 <= py < SCREEN_HEIGHT ==> post[#[trigger] pixel_index(px, py)]
            == (if sprite_covers(x, y, sprite.len() as int, px, py) {
                pre[pixel_index(px, py)] != sprite_row_bit(sprite[py - y], px - x)
            } else {
                pre[pixel_index(px, py)]
            })
}

/// Whether drawing `sprite` at `(x, y)` on the screen `pre` turns some set
/// pixel unset.
pub open spec fn draw_collides(pre: Seq<bool>, x: int, y: int, sprite: Seq<u8>) -> bool {
    exists|px: int, py: int|
        #![trigger pixel_index(px, py)]
        sprite_covers(x, y, sprite.len() as int, px, py) && pre[pixel_index(px, py)]
            && sprite_row_bit(sprite[py - y], px - x)
}

/// The pixel grid; its view is the row-major sequence of pixels.
pub struct Screen {
    pixels: [bool; PIXEL_COUNT],
}

impl View for Screen {
    type V = Seq<bool>;

    closed spec fn view(&self) -> Seq<bool> {
        self.pixels@
    }
}

impl Screen {
    /// A screen with every pixel unset.
    pub fn new() -> (s: Screen)
        ensures
            s@.len() == PIXEL_COUNT,
            forall|i: int| 0 <= i < PIXEL_COUNT ==> !s@[i],
    {
        Screen { pixels: [false; PIXEL_COUNT] }
    }

    /// Reset every pixel to unset.
    pub fn clear(&mut self)
        ensures
            final(self)@.len() == PIXEL_COUNT,
            forall|i: int| 0 <= i < PIXEL_COUNT ==> !final(self)@[i],
    {
        self.pixels = [false; PIXEL_COUNT];
    }

    /// Whether pixel `(x, y)` is set.
    pub fn pixel(&self, x: usize, y: usize) -> (r: bool)
        requires
            x < SCREEN_WIDTH,
            y < SCREEN_HEIGHT,
        ensures
            r == self@[pixel_index(x as int, y as int)],
    {
        self.pixels[y * SCREEN_WIDTH + x]
    }

    /// XOR `sprite` onto the grid at `(x, y)`, one byte per row, most
    /// significant bit leftmost, clipping at the right and bottom edges;
    /// report whether any pixel was turned from set to unset.
    pub fn draw_sprite(&mut self, x: usize, y: usize, sprite: &[u8]) -> (collision: bool)
        requires
            x <= 0xFF,
            y <= 0xFF,
        ensures
            draw_applied(old(self)@, final(self)@, x as int, y as int, sprite@),
            collision == draw_collides(old(self)@, x as int, y as int, sprite@),
    {
        let ghost rows = sprite@.len() as int;
        let mut collision = false;
        let mut line: usize = 0;
        while line < sprite.len()
            invariant
                x <= 0xFF,
                y <= 0xFF,
                line <= sprite@.len(),
                rows == sprite@.len() as int,
                self@.len() == old(self)@.len(),
                forall|px: int, py: int|
                    0 <= px < SCREEN_WIDTH && 0 <= py < SCREEN_HEIGHT ==> self@[
                        #[trigger] pixel_index(px, py)]
                        == (if sprite_covers(x as int, y as int, rows, px, py) && py - y < line {
                            old(self)@[pixel_index(px, py)] != sprite_row_bit(
                                sprite@[py - y],
                                px - x,
                            )
                        } else {
                            old(self)@[pixel_index(px, py)]
                        }),
                collision == exists|px: int, py: int|
                    #![trigger pixel_index(px, py)]
                    sprite_covers(x as int, y as int, rows, px, py) && py - y < line && old(
                        self,
                    )@[pixel_index(px, py)] && sprite_row_bit(sprite@[py - y], px - x),
            decreases sprite@.len() - line,
        {
            let line_byte = sprite[line];
            if line < SCREEN_HEIGHT && y + line < SCREEN_HEIGHT {
                let py = y + line;
                let mut col: usize = 0;
                while col < 8
                    invariant
                        x <= 0xFF,
                        y <= 0xFF,
                        col <= 8,
                        line < sprite@.len(),
                        py == y + line,
                        py < SCREEN_HEIGHT,
                        rows == sprite@.len() as int,
                        line_byte == sprite@[line as int],
                        self@.len() == old(self)@.len(),
                        forall|px: int, qy: int|
                            0 <= px < SCREEN_WIDTH && 0 <= qy < SCREEN_HEIGHT ==> self@[
                                #[trigger] pixel_index(px, qy)]
                                == (if sprite_covers(x as int, y as int, rows, px, qy) && (qy - y
                                    < line || (qy - y == line && px - x < col)) {
                                    old(self)@[pixel_index(px, qy)] != sprite_row_bit(
                                        sprite@[qy - y],
                                        px - x,
                                    )
                                } else {
                                    old(self)@[pixel_index(px, qy)]
                                }),
                        collision == exists|px: int, qy: int|
                            #![trigger pixel_index(px, qy)]
                            sprite_covers(x as int, y as int, rows, px, qy) && (qy - y < line || (
                            qy - y == line && px - x < col)) && old(self)@[pixel_index(px, qy)]
                                && sprite_row_bit(sprite@[qy - y], px - x),
                    decreases 8 - col,
                {
                    if x + col < SCREEN_WIDTH {
                        let px = x + col;
                        let idx = py * SCREEN_WIDTH + px;
                        let shift: u8 = (7 - col) as u8;
                        let sprite_pixel = ((line_byte >> shift) & 1) == 1;
                        let was = self.pixels[idx];
                        self.pixels[idx] = was != sprite_pixel;
                        if was && sprite_pixel {
                            collision = true;
                        }
                        proof {
                            let pxi = px as int;
                            let pyi = py as int;
                            assert(idx == pixel_index(pxi, pyi));
                            assert(sprite_covers(x as int, y as int, rows, pxi, pyi));
                            assert(shift == (7 - (pxi - x)) as u8);
                            assert(sprite_pixel == sprite_row_bit(sprite@[pyi - y], pxi - x));
                            assert(was == old(self)@[pixel_index(pxi, pyi)]);
                            assert(forall|ox: int, oy: int|
                                0 <= ox < SCREEN_WIDTH && 0 <= oy < SCREEN_HEIGHT && !(ox == pxi
                                    && oy == pyi) ==> #[trigger] pixel_index(ox, oy)
                                    != pixel_index(pxi, pyi));
                            if was && sprite_pixel {
                                assert(old(self)@[pixel_index(pxi, pyi)] && sprite_row_bit(
                                    sprite@[pyi - y],
                                    pxi - x,
                                ));
                            } else {
                                assert(!(old(self)@[pixel_index(pxi, pyi)] && sprite_row_bit(
                                    sprite@[pyi - y],
                                    pxi - x,
                                )));
                            }
                        }
                    } else {
                        proof {
                            assert(forall|ax: int, qy: int|
                                sprite_covers(x as int, y as int, rows, ax, qy) && qy - y == line
                                    && ax - x == col ==> false);
                        }
                    }
                    col = col + 1;
                }
            } else {
                proof {
                    assert(forall|px: int, qy: int|
                        sprite_covers(x as int, y as int, rows, px, qy) && qy - y == line ==> false);
                }
            }
            line = line + 1;
        }
        collision
    }
}

/// XOR idempotence law: drawing the same sprite at the same position twice in
/// succession restores the screen to its state before the first draw.
pub proof fn lemma_draw_twice_restores(
    s0: Seq<bool>,
    s1: Seq<bool>,
    s2: Seq<bool>,
    x: int,
    y: int,
    sprite: Seq<u8>,
)
    requires
        s0.len() == PIXEL_COUNT,
        draw_applied(s0, s1, x, y, sprite),
        draw_applied(s1, s2, x, y, sprite),
    ensures
        s2 == s0,
{
    assert forall|i: int| 0 <= i < PIXEL_COUNT implies s2[i] == s0[i] by {
        let px = i % 64;
        let py = i / 64;
        assert(pixel_index(px, py) == i);
        assert(s2[pixel_index(px, py)] == s0[pixel_index(px, py)]);
    }
    assert(s2 =~= s0);
}

} // verus!
