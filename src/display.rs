//! The 64x32 monochrome framebuffer and its XOR sprite blit.
use vstd::prelude::*;

use crate::error::{Error, Result};

verus! {

/// Width of the framebuffer in pixels.
pub const WIDTH: usize = 64;

/// Height of the framebuffer in pixels.
pub const HEIGHT: usize = 32;

/// Whether column `col` (0 to 7, 0 leftmost) of a sprite row is set; the
/// most significant bit is the leftmost pixel.
pub open spec fn bit_set(row: u8, col: int) -> bool {
    0 <= col < 8 && row & (0x80u8 >> (col as u8)) != 0
}

/// Whether the sprite `rows`, drawn with its top-left corner at `(x0, y0)`,
/// has a set bit over pixel `(x, y)`.
pub open spec fn covers(x0: int, y0: int, rows: Seq<u8>, x: int, y: int) -> bool {
    y0 <= y < y0 + rows.len() && bit_set(rows[y - y0], x - x0)
}

/// The grid with every pixel covered by the sprite toggled. Pixels the
/// sprite would reach past the right or bottom edge are not drawn: the
/// sprite is clipped, never wrapped.
pub open spec fn blit(p: Seq<Seq<bool>>, x0: int, y0: int, rows: Seq<u8>) -> Seq<Seq<bool>> {
    Seq::new(
        HEIGHT as nat,
        |y: int| Seq::new(WIDTH as nat, |x: int| p[y][x] != covers(x0, y0, rows, x, y)),
    )
}

/// Whether drawing the sprite turns some lit pixel off.
pub open spec fn collides(p: Seq<Seq<bool>>, x0: int, y0: int, rows: Seq<u8>) -> bool {
    exists|x: int, y: int|
        0 <= x < WIDTH && 0 <= y < HEIGHT && #[trigger] p[y][x] && covers(x0, y0, rows, x, y)
}

/// Whether the sprite shows at least one pixel inside the grid.
pub open spec fn shows_pixel(x0: int, y0: int, rows: Seq<u8>) -> bool {
    exists|x: int, y: int| 0 <= x < WIDTH && 0 <= y < HEIGHT && #[trigger] covers(x0, y0, rows, x, y)
}

/// Drawing the same sprite twice at the same place gives the framebuffer
/// back. When no pixel under the sprite is lit beforehand, the first draw
/// reports no collision, and the second reports one exactly when the
/// sprite shows a pixel at all.
pub proof fn lemma_draw_twice(p: Seq<Seq<bool>>, x0: int, y0: int, rows: Seq<u8>)
    requires
        is_grid(p),
    ensures
        blit(blit(p, x0, y0, rows), x0, y0, rows) == p,
        (forall|x: int, y: int|
            0 <= x < WIDTH && 0 <= y < HEIGHT && #[trigger] covers(x0, y0, rows, x, y) ==> !p[y][x])
            ==> !collides(p, x0, y0, rows) && (collides(blit(p, x0, y0, rows), x0, y0, rows)
            <==> shows_pixel(x0, y0, rows)),
{
    assert(blit(blit(p, x0, y0, rows), x0, y0, rows) =~~= p);
    let q = blit(p, x0, y0, rows);
    if forall|x: int, y: int|
        0 <= x < WIDTH && 0 <= y < HEIGHT && #[trigger] covers(x0, y0, rows, x, y) ==> !p[y][x] {
        if collides(p, x0, y0, rows) {
            let (wx, wy) = choose|x: int, y: int|
                0 <= x < WIDTH && 0 <= y < HEIGHT && #[trigger] p[y][x] && covers(x0, y0, rows, x, y);
            assert(covers(x0, y0, rows, wx, wy));
        }
        if shows_pixel(x0, y0, rows) {
            let (wx, wy) = choose|x: int, y: int|
                0 <= x < WIDTH && 0 <= y < HEIGHT && #[trigger] covers(x0, y0, rows, x, y);
            assert(q[wy][wx]);
        }
        if collides(q, x0, y0, rows) {
            let (wx, wy) = choose|x: int, y: int|
                0 <= x < WIDTH && 0 <= y < HEIGHT && #[trigger] q[y][x] && covers(x0, y0, rows, x, y);
            assert(covers(x0, y0, rows, wx, wy));
        }
    }
}

/// The grid with every pixel off.
pub open spec fn blank() -> Seq<Seq<bool>> {
    Seq::new(HEIGHT as nat, |y: int| Seq::new(WIDTH as nat, |x: int| false))
}

/// Whether `p` is a grid of `HEIGHT` rows of `WIDTH` pixels.
pub open spec fn is_grid(p: Seq<Seq<bool>>) -> bool {
    p.len() == HEIGHT && forall|y: int| 0 <= y < HEIGHT ==> (#[trigger] p[y]).len() == WIDTH
}

/// The pixel `(x, y)` of the row-major storage `v`.
spec fn pix(v: Seq<bool>, x: int, y: int) -> bool {
    v[y * WIDTH + x]
}

/// The part of the sprite drawn so far: all rows before `r`, and the
/// columns before `c` of row `r`.
spec fn drawn(x0: int, y0: int, rows: Seq<u8>, r: int, c: int, x: int, y: int) -> bool {
    let dy = y - y0;
    let dx = x - x0;
    0 <= dy < rows.len() && (dy < r || (dy == r && dx < c)) && bit_set(rows[dy], dx)
}

/// The framebuffer: `WIDTH` x `HEIGHT` pixels, each on or off.
#[derive(Debug)]
pub struct Display {
    pixels: Vec<bool>,
}

impl View for Display {
    type V = Seq<Seq<bool>>;

    /// The rows of the grid, top first; `self@[y][x]` is pixel `(x, y)`.
    closed spec fn view(&self) -> Seq<Seq<bool>> {
        Seq::new(
            HEIGHT as nat,
            |y: int| Seq::new(WIDTH as nat, |x: int| pix(self.pixels@, x, y)),
        )
    }
}

impl Default for Display {
    fn default() -> (r: Self)
        ensures
            r.wf(),
            r@ == blank(),
    {
        let r = Display { pixels: vec![false; WIDTH * HEIGHT] };
        assert(r@ =~~= blank());
        r
    }
}

impl Display {
    pub closed spec fn wf(&self) -> bool {
        self.pixels@.len() == WIDTH * HEIGHT
    }

    /// The view is always a full grid.
    pub proof fn lemma_grid(&self)
        ensures
            is_grid(self@),
    {
    }

    /// Turns every pixel off.
    pub fn clear(&mut self)
        requires
            old(self).wf(),
        ensures
            final(self).wf(),
            final(self)@ == blank(),
    {
        self.pixels = vec![false; WIDTH * HEIGHT];
        assert(self@ =~~= blank());
    }

    /// Whether pixel `(x, y)` is on.
    pub fn is_on(&self, x: usize, y: usize) -> (r: Result<bool>)
        requires
            self.wf(),
        ensures
            x < WIDTH && y < HEIGHT ==> r == Ok::<bool, Error>(self@[y as int][x as int]),
            !(x < WIDTH && y < HEIGHT) ==> r == Err::<bool, Error>(Error::PixelOutOfBounds { x, y }),
    {
        if x < WIDTH && y < HEIGHT {
            Ok(self.pixels[y * WIDTH + x])
        } else {
            Err(Error::PixelOutOfBounds { x, y })
        }
    }

    /// Turns pixel `(x, y)` on or off.
    pub fn set(&mut self, x: usize, y: usize, state: bool) -> (r: Result<()>)
        requires
            old(self).wf(),
        ensures
            final(self).wf(),
            x < WIDTH && y < HEIGHT ==> r is Ok && final(self)@ == old(self)@.update(
                y as int,
                old(self)@[y as int].update(x as int, state),
            ),
            !(x < WIDTH && y < HEIGHT) ==> r == Err::<(), Error>(Error::PixelOutOfBounds { x, y })
                && final(self)@ == old(self)@,
    {
        if x < WIDTH && y < HEIGHT {
            self.pixels.set(y * WIDTH + x, state);
            assert forall|yy: int, xx: int| 0 <= yy < HEIGHT && 0 <= xx < WIDTH implies pix(
                self.pixels@,
                xx,
                yy,
            ) == (if yy == y && xx == x {
                state
            } else {
                pix(old(self).pixels@, xx, yy)
            }) by {
                if yy != y {
                    assert(yy * WIDTH + xx != y * WIDTH + x) by (nonlinear_arith)
                        requires
                            yy != y,
                            0 <= xx < WIDTH,
                            0 <= x < WIDTH,
                    ;
                }
            }
            assert(self@ =~~= old(self)@.update(
                y as int,
                old(self)@[y as int].update(x as int, state),
            ));
            Ok(())
        } else {
            Err(Error::PixelOutOfBounds { x, y })
        }
    }

    /// Draws the sprite `rows` (one byte per row, high bit leftmost) with
    /// its top-left corner at `(origin_x mod 64, origin_y mod 64)`, toggling
    /// every pixel under a set bit. What would fall past the right or bottom
    /// edge is clipped. Returns whether a lit pixel was turned off.
    pub fn draw_sprite(&mut self, origin_x: u8, origin_y: u8, rows: &[u8]) -> (collision: bool)
        requires
            old(self).wf(),
        ensures
            final(self).wf(),
            final(self)@ == blit(old(self)@, origin_x as int % 64, origin_y as int % 64, rows@),
            collision == collides(old(self)@, origin_x as int % 64, origin_y as int % 64, rows@),
    {
        let x0: usize = (origin_x as usize) % WIDTH;
        let y0: usize = (origin_y as usize) % WIDTH;
        let ghost initial = old(self).pixels@;
        let mut collision = false;
        let mut r: usize = 0;
        while r < rows.len() && y0 + r < HEIGHT
            invariant
                self.wf(),
                initial.len() == WIDTH * HEIGHT,
                initial == old(self).pixels@,
                x0 < WIDTH,
                y0 < WIDTH,
                x0 == origin_x % 64,
                y0 == origin_y % 64,
                r <= rows@.len(),
                r == 0 || y0 + r <= HEIGHT,
                forall|x: int, y: int|
                    0 <= x < WIDTH && 0 <= y < HEIGHT ==> #[trigger] pix(self.pixels@, x, y) == (pix(
                        initial,
                        x,
                        y,
                    ) != drawn(x0 as int, y0 as int, rows@, r as int, 0, x, y)),
                collision == exists|x: int, y: int|
                    0 <= x < WIDTH && 0 <= y < HEIGHT && #[trigger] pix(initial, x, y) && drawn(
                        x0 as int,
                        y0 as int,
                        rows@,
                        r as int,
                        0,
                        x,
                        y,
                    ),
            decreases rows@.len() - r,
        {
            let y = y0 + r;
            let row = rows[r];
            let mut c: usize = 0;
            while c < 8 && x0 + c < WIDTH
                invariant
                    self.wf(),
                    initial.len() == WIDTH * HEIGHT,
                    x0 < WIDTH,
                    y == y0 + r,
                    y < HEIGHT,
                    r < rows@.len(),
                    row == rows@[r as int],
                    c <= 8,
                    forall|x: int, y: int|
                        0 <= x < WIDTH && 0 <= y < HEIGHT ==> #[trigger] pix(self.pixels@, x, y) == (
                        pix(initial, x, y) != drawn(x0 as int, y0 as int, rows@, r as int, c as int, x, y)),
                    collision == exists|x: int, y: int|
                        0 <= x < WIDTH && 0 <= y < HEIGHT && #[trigger] pix(initial, x, y) && drawn(
                            x0 as int,
                            y0 as int,
                            rows@,
                            r as int,
                            c as int,
                            x,
                            y,
                        ),
                decreases 8 - c,
            {
                let mask: u8 = 0x80u8 >> (c as u8);
                let ghost before = self.pixels@;
                let ghost xc = (x0 + c) as int;
                if row & mask != 0 {
                    let i = y * WIDTH + x0 + c;
                    let was = self.pixels[i];
                    assert(!drawn(x0 as int, y0 as int, rows@, r as int, c as int, xc, y as int));
                    assert(was == pix(before, xc, y as int));
                    assert(was == pix(initial, xc, y as int));
                    if was {
                        collision = true;
                    }
                    self.pixels.set(i, !was);
                }
                proof {
                    assert forall|x: int, yy: int|
                        0 <= x < WIDTH && 0 <= yy < HEIGHT && !(x == xc && yy == y) implies pix(
                        self.pixels@,
                        x,
                        yy,
                    ) == pix(before, x, yy) by {
                        if yy != y {
                            assert(yy * WIDTH + x != y * WIDTH + xc) by (nonlinear_arith)
                                requires
                                    yy != y,
                                    0 <= x < WIDTH,
                                    0 <= xc < WIDTH,
                            ;
                        }
                    }
                    assert(bit_set(row, c as int) == (row & mask != 0));
                    assert(!drawn(x0 as int, y0 as int, rows@, r as int, c as int, xc, y as int));
                    assert(pix(before, xc, y as int) == pix(initial, xc, y as int));
                    assert forall|x: int, yy: int|
                        0 <= x < WIDTH && 0 <= yy < HEIGHT implies #[trigger] pix(self.pixels@, x, yy) == (
                        pix(initial, x, yy) != drawn(x0 as int, y0 as int, rows@, r as int, c + 1, x, yy)) by {
                        if x == xc && yy == y {
                            if row & mask != 0 {
                                assert(drawn(x0 as int, y0 as int, rows@, r as int, c + 1, x, yy));
                                assert(pix(self.pixels@, x, yy) == !pix(before, x, yy));
                            } else {
                                assert(!drawn(x0 as int, y0 as int, rows@, r as int, c + 1, x, yy));
                                assert(pix(self.pixels@, x, yy) == pix(before, x, yy));
                            }
                        } else {
                            assert(pix(self.pixels@, x, yy) == pix(before, x, yy));
                            assert(drawn(x0 as int, y0 as int, rows@, r as int, c as int, x, yy)
                                == drawn(x0 as int, y0 as int, rows@, r as int, c + 1, x, yy));
                        }
                    }
                    if collision && !(row & mask != 0 && pix(initial, xc, y as int)) {
                        let (wx, wy) = choose|x: int, y: int|
                            0 <= x < WIDTH && 0 <= y < HEIGHT && #[trigger] pix(initial, x, y) && drawn(
                                x0 as int,
                                y0 as int,
                                rows@,
                                r as int,
                                c as int,
                                x,
                                y,
                            );
                        assert(drawn(x0 as int, y0 as int, rows@, r as int, c + 1, wx, wy));
                    }
                    if row & mask != 0 && pix(initial, xc, y as int) {
                        assert(drawn(x0 as int, y0 as int, rows@, r as int, c + 1, xc, y as int));
                    }
                }
                c += 1;
            }
            proof {
                assert forall|x: int, yy: int| 0 <= x < WIDTH && 0 <= yy < HEIGHT implies drawn(
                    x0 as int,
                    y0 as int,
                    rows@,
                    r as int,
                    c as int,
                    x,
                    yy,
                ) == drawn(x0 as int, y0 as int, rows@, r + 1, 0, x, yy) by {}
            }
            r += 1;
        }
        proof {
            assert forall|x: int, y: int| 0 <= x < WIDTH && 0 <= y < HEIGHT implies drawn(
                x0 as int,
                y0 as int,
                rows@,
                r as int,
                0,
                x,
                y,
            ) == covers(x0 as int, y0 as int, rows@, x, y) by {}
            assert(self@ =~~= blit(old(self)@, origin_x as int % 64, origin_y as int % 64, rows@));
            if collision {
                let (wx, wy) = choose|x: int, y: int|
                    0 <= x < WIDTH && 0 <= y < HEIGHT && #[trigger] pix(initial, x, y) && drawn(
                        x0 as int,
                        y0 as int,
                        rows@,
                        r as int,
                        0,
                        x,
                        y,
                    );
                assert(old(self)@[wy][wx]);
            }
            if collides(old(self)@, origin_x as int % 64, origin_y as int % 64, rows@) {
                let (wx, wy) = choose|x: int, y: int|
                    0 <= x < WIDTH && 0 <= y < HEIGHT && #[trigger] old(self)@[y][x] && covers(
                        x0 as int,
                        y0 as int,
                        rows@,
                        x,
                        y,
                    );
                assert(pix(initial, wx, wy));
            }
        }
        collision
    }
}

} // verus!
