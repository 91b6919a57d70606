//! The target to catch, and its random placement.
use vstd::prelude::*;
use crate::arena::{DOT_HEIGHT, DOT_WIDTH, HEIGHT, MAX_X, MAX_Y, MIN_X, MIN_Y, WIDTH};
use crate::geometry::{bounds_of, Bounds};

verus! {

/// Relies on rand's `Rng::gen_range(low, high)` on `thread_rng()`: a value in
/// `low..high`, drawn anew on every call; it panics when `low >= high`.
#[verifier::external_body]
fn random_in(low: i32, high: i32) -> (r: i32)
    requires
        low < high,
    ensures
        low <= r < high,
{
    rand::Rng::gen_range(&mut rand::thread_rng(), low, high)
}

/// Whether a target may be centred at `(x, y)`: inside the walls, never on
/// the far ones.
pub open spec fn spawn_spot(x: int, y: int) -> bool {
    MIN_X <= x < MAX_X && MIN_Y <= y < MAX_Y
}

/// The target, centred at `(x, y)`; its size is the dot's starting size.
#[derive(Clone, Copy, Debug, PartialEq, Eq, Structural)]
pub struct Target {
    pub x: i32,
    pub y: i32,
}

impl Target {
    pub open spec fn wf(self) -> bool {
        spawn_spot(self.x as int, self.y as int)
    }

    /// The target's bounding box.
    pub open spec fn bounds(self) -> Bounds {
        bounds_of(self.x as int, self.y as int, DOT_WIDTH as int, DOT_HEIGHT as int)
    }

    /// A target at a random spot within the walls.
    pub fn new() -> (t: Target)
        ensures
            t.wf(),
    {
        let x = random_in(MIN_X, MAX_X);
        let y = random_in(MIN_Y, MAX_Y);

        Target::at(x, y)
    }

    /// A target at the given spot.
    pub fn at(x: i32, y: i32) -> (t: Target)
        requires
            spawn_spot(x as int, y as int),
        ensures
            t.wf(),
            t == (Target { x, y }),
    {
        Target { x: x, y: y }
    }

    pub fn get_x(&self) -> (r: i32)
        ensures
            r == self.x,
    {
        self.x
    }

    pub fn get_y(&self) -> (r: i32)
        ensures
            r == self.y,
    {
        self.y
    }

    pub fn get_width(&self) -> (r: i32)
        ensures
            r == DOT_WIDTH,
    {
        DOT_WIDTH
    }

    pub fn get_height(&self) -> (r: i32)
        ensures
            r == DOT_HEIGHT,
    {
        DOT_HEIGHT
    }

    /// The target's bounding box, which lies wholly on the framebuffer.
    pub fn get_bounds(&self) -> (b: Bounds)
        requires
            self.wf(),
        ensures
            b == self.bounds(),
            0 <= b.left <= b.right < WIDTH,
            0 <= b.top <= b.bottom < HEIGHT,
    {
        Bounds::of(self.x, self.y, DOT_WIDTH, DOT_HEIGHT)
    }
}

} // verus!
