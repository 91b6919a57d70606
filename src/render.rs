//! Rasterisation of the game into a row-major framebuffer.
use vstd::prelude::*;
use vstd::arithmetic::div_mod::{lemma_fundamental_div_mod, lemma_fundamental_div_mod_converse};
use crate::arena::{BLUE_STEP, FULL, HEIGHT, WIDTH};
use crate::game::Daisy;
use crate::geometry::Bounds;

verus! {

/// A colour; each channel counts hundredths of full intensity.
#[derive(Clone, Copy, Debug, PartialEq, Eq, Structural)]
pub struct Pixel {
    pub red: i32,
    pub green: i32,
    pub blue: i32,
    pub alpha: i32,
}

/// Number of pixels in the framebuffer.
pub open spec fn frame_len() -> int {
    WIDTH * HEIGHT
}

/// Opaque white, the target's colour.
pub open spec fn white() -> Pixel {
    Pixel { red: FULL, green: FULL, blue: FULL, alpha: FULL }
}

/// The background at index `i`: the two player-driven channels and a blue
/// that sweeps up by `BLUE_STEP` per index and wraps at full intensity.
pub open spec fn background(red: i32, green: i32, i: int) -> Pixel {
    Pixel { red, green, blue: ((i * BLUE_STEP + FULL) % (FULL as int)) as i32, alpha: FULL }
}

/// `pixels` with every pixel whose coordinates lie in `b` set to `color`.
pub open spec fn painted(pixels: Seq<Pixel>, color: Pixel, b: Bounds) -> Seq<Pixel> {
    Seq::new(
        pixels.len(),
        |j: int|
            if b.covers(j % (WIDTH as int), j / (WIDTH as int)) {
                color
            } else {
                pixels[j]
            },
    )
}

impl Daisy {
    /// The dot's colour: the inverse of the two background channels.
    pub open spec fn dot_color(self) -> Pixel {
        Pixel { red: (FULL - self.red) as i32, green: (FULL - self.green) as i32, blue: 50, alpha: FULL }
    }

    /// The background alone.
    pub open spec fn backdrop(self) -> Seq<Pixel> {
        Seq::new(frame_len() as nat, |i: int| background(self.red, self.green, i))
    }

    /// The whole frame: the background, the dot over it, the target over both.
    pub open spec fn frame(self) -> Seq<Pixel> {
        painted(painted(self.backdrop(), self.dot_color(), self.dot.bounds()), white(), self.target.bounds())
    }

    /// Draws the frame: every pixel is overwritten, so what is left depends on
    /// the state alone.
    pub fn render(&self, pixels: &mut [Pixel])
        requires
            self.wf(),
            old(pixels)@.len() == frame_len(),
        ensures
            final(pixels)@ == self.frame(),
    {
        let mut i: usize = 0;
        while i < pixels.len()
            invariant
                pixels@.len() == frame_len(),
                0 <= i <= pixels@.len(),
                forall|j: int| 0 <= j < i ==> pixels@[j] == background(self.red, self.green, j),
            decreases pixels@.len() - i,
        {
            pixels[i] = Pixel {
                red: self.red,
                green: self.green,
                blue: ((i * BLUE_STEP + FULL as usize) % FULL as usize) as i32,
                alpha: FULL,
            };
            i += 1;
        }
        assert(pixels@ == self.backdrop());

        let color = Pixel { red: FULL - self.red, green: FULL - self.green, blue: 50, alpha: FULL };
        draw(pixels, color, self.dot.get_bounds());

        let white = Pixel { red: FULL, green: FULL, blue: FULL, alpha: FULL };
        draw(pixels, white, self.target.get_bounds());
    }
}

/// The framebuffer index of the pixel `(x, y)`, if it lies on the framebuffer.
pub fn index_of(x: i32, y: i32) -> (r: Option<usize>)
    ensures
        r == (if 0 <= x < WIDTH && 0 <= y < HEIGHT {
            Some((y * WIDTH + x) as usize)
        } else {
            None
        }),
{
    if x < 0 || x >= WIDTH || y < 0 || y >= HEIGHT {
        None
    } else {
        let index = y * WIDTH + x;
        Some(index as usize)
    }
}

/// Every index of the framebuffer is the index of its coordinates.
proof fn lemma_coords(j: int)
    requires
        0 <= j < frame_len(),
    ensures
        0 <= j % (WIDTH as int) < WIDTH,
        0 <= j / (WIDTH as int) < HEIGHT,
        j == (j / (WIDTH as int)) * WIDTH + j % (WIDTH as int),
{
    lemma_fundamental_div_mod(j, WIDTH as int);
}

/// The coordinates of a pixel's index are the pixel's coordinates.
proof fn lemma_index(x: int, y: int)
    requires
        0 <= x < WIDTH,
        0 <= y < HEIGHT,
    ensures
        0 <= y * WIDTH + x < frame_len(),
        (y * WIDTH + x) % (WIDTH as int) == x,
        (y * WIDTH + x) / (WIDTH as int) == y,
{
    lemma_fundamental_div_mod_converse(y * WIDTH + x, WIDTH as int, y, x);
}

/// Sets every pixel of `b` that lies on the framebuffer to `color`; parts of
/// `b` off the framebuffer are skipped.
pub fn draw(pixels: &mut [Pixel], color: Pixel, b: Bounds)
    requires
        old(pixels)@.len() == frame_len(),
        b.right < i32::MAX,
        b.bottom < i32::MAX,
    ensures
        final(pixels)@ == painted(old(pixels)@, color, b),
{
    let mut tx = b.left;
    while tx <= b.right
        invariant
            pixels@.len() == frame_len(),
            old(pixels)@.len() == frame_len(),
            b.right < i32::MAX,
            b.bottom < i32::MAX,
            b.left <= tx,
            tx <= b.right + 1 || tx == b.left,
            forall|j: int|
                0 <= j < frame_len() ==> #[trigger] pixels@[j] == (if b.left <= j % (WIDTH as int) < tx
                    && b.top <= j / (WIDTH as int) <= b.bottom {
                    color
                } else {
                    old(pixels)@[j]
                }),
        decreases b.right + 1 - tx,
    {
        let mut ty = b.top;
        while ty <= b.bottom
            invariant
                pixels@.len() == frame_len(),
                old(pixels)@.len() == frame_len(),
                b.right < i32::MAX,
                b.bottom < i32::MAX,
                b.left <= tx <= b.right,
                b.top <= ty,
                ty <= b.bottom + 1 || ty == b.top,
                forall|j: int|
                    0 <= j < frame_len() ==> #[trigger] pixels@[j] == (if (b.left <= j % (WIDTH as int) < tx
                        && b.top <= j / (WIDTH as int) <= b.bottom) || (j % (WIDTH as int) == tx
                        && b.top <= j / (WIDTH as int) < ty) {
                        color
                    } else {
                        old(pixels)@[j]
                    }),
            decreases b.bottom + 1 - ty,
        {
            let ghost before = pixels@;
            if let Some(i) = index_of(tx, ty) {
                pixels[i] = color;
                proof {
                    lemma_index(tx as int, ty as int);
                }
            }
            assert forall|j: int| 0 <= j < frame_len() implies #[trigger] pixels@[j] == (if (b.left <= j
                % (WIDTH as int) < tx && b.top <= j / (WIDTH as int) <= b.bottom) || (j % (WIDTH as int)
                == tx && b.top <= j / (WIDTH as int) < ty + 1) {
                color
            } else {
                old(pixels)@[j]
            }) by {
                lemma_coords(j);
                assert(before[j] == pixels@[j] || j == ty * WIDTH + tx);
            }
            ty += 1;
        }
        tx += 1;
    }
    assert(pixels@ == painted(old(pixels)@, color, b));
}

} // verus!
