//! The player's dot: momentum per axis, wall stops and growth.
use vstd::prelude::*;
use crate::arena::{
    DOT_DOWN_DELTA, DOT_HEIGHT, DOT_MAX_VELOCITY, DOT_UP_DELTA, DOT_WIDTH, HEIGHT, MAX_X, MAX_Y,
    MIN_X, MIN_Y, SUBPIXELS, WIDTH,
};
use crate::geometry::{bounds_of, Bounds};
use crate::target::Target;

verus! {

/// A held direction on one axis: -1, 0 or 1.
pub open spec fn is_direction(d: int) -> bool {
    -1 <= d <= 1
}

/// `v` moved toward zero by the deceleration step (it may pass zero).
pub open spec fn slowed(v: int) -> int {
    if v > 0 {
        v - DOT_DOWN_DELTA
    } else if v < 0 {
        v + DOT_DOWN_DELTA
    } else {
        0
    }
}

/// `v` clamped into `lo..=hi`.
pub open spec fn clamp(v: int, lo: int, hi: int) -> int {
    if v > hi {
        hi
    } else if v < lo {
        lo
    } else {
        v
    }
}

/// Whole pixels in a velocity, truncated toward zero.
pub open spec fn whole_pixels(v: int) -> int {
    if v >= 0 {
        v / SUBPIXELS as int
    } else {
        -((-v) / SUBPIXELS as int)
    }
}

/// Velocity after one tick of steering in direction `dir`: deceleration when
/// coasting or reversing, then acceleration toward the held direction, capped
/// at the maximum speed on the held side only.
pub open spec fn steered_velocity(v: int, dir: int) -> int {
    if dir == 0 {
        slowed(v)
    } else if dir > 0 {
        let pushed = (if v < 0 { slowed(v) } else { v }) + DOT_UP_DELTA;
        if pushed < DOT_MAX_VELOCITY { pushed } else { DOT_MAX_VELOCITY as int }
    } else {
        let pushed = (if v > 0 { slowed(v) } else { v }) - DOT_UP_DELTA;
        if pushed > -DOT_MAX_VELOCITY { pushed } else { -DOT_MAX_VELOCITY }
    }
}

/// Position and velocity on one axis after one tick: the position moves by the
/// whole pixels of the steered velocity and is clamped to `lo..=hi`; a velocity
/// that drives into the wall just reached becomes zero.
pub open spec fn axis_step(pos: int, v: int, dir: int, lo: int, hi: int) -> (int, int) {
    let nv = steered_velocity(v, dir);
    let np = clamp(pos + whole_pixels(nv), lo, hi);
    if (np == lo && nv < 0) || (np == hi && nv > 0) {
        (np, 0)
    } else {
        (np, nv)
    }
}

/// A side after one growth: half as large again, rounded down.
pub open spec fn grown_side(s: int) -> int {
    s * 3 / 2
}

/// The player's dot. Velocities `dx`, `dy` are in hundredths of a pixel per
/// tick; `x_dir`, `y_dir` are the directions held on each axis.
#[derive(Clone, Copy, Debug, PartialEq, Eq, Structural)]
pub struct Dot {
    pub x: i32,
    pub y: i32,
    pub x_dir: i32,
    pub dx: i32,
    pub y_dir: i32,
    pub dy: i32,
    pub width: i32,
    pub height: i32,
}

impl Dot {
    /// The dot stays in the arena, its speed within the cap and its size
    /// below half the arena.
    pub open spec fn wf(self) -> bool {
        &&& is_direction(self.x_dir as int)
        &&& is_direction(self.y_dir as int)
        &&& -DOT_MAX_VELOCITY <= self.dx <= DOT_MAX_VELOCITY
        &&& -DOT_MAX_VELOCITY <= self.dy <= DOT_MAX_VELOCITY
        &&& MIN_X <= self.x <= MAX_X
        &&& MIN_Y <= self.y <= MAX_Y
        &&& DOT_WIDTH <= self.width < WIDTH / 2
        &&& DOT_HEIGHT <= self.height < HEIGHT / 2
    }

    /// The dot after one tick of motion on both axes.
    pub open spec fn stepped(self) -> Dot {
        let (x, dx) = axis_step(self.x as int, self.dx as int, self.x_dir as int, MIN_X as int, MAX_X as int);
        let (y, dy) = axis_step(self.y as int, self.dy as int, self.y_dir as int, MIN_Y as int, MAX_Y as int);
        Dot { x: x as i32, dx: dx as i32, y: y as i32, dy: dy as i32, ..self }
    }

    /// The dot after a catch: both sides grow by half, and both go back to the
    /// starting size once either reaches half the arena.
    pub open spec fn grown(self) -> Dot {
        let w = grown_side(self.width as int);
        let h = grown_side(self.height as int);
        if w >= WIDTH / 2 || h >= HEIGHT / 2 {
            Dot { width: DOT_WIDTH, height: DOT_HEIGHT, ..self }
        } else {
            Dot { width: w as i32, height: h as i32, ..self }
        }
    }

    /// The dot after `n` catches in a row.
    pub open spec fn grown_times(self, n: nat) -> Dot
        decreases n,
    {
        if n == 0 {
            self
        } else {
            self.grown_times((n - 1) as nat).grown()
        }
    }

    /// The dot's bounding box.
    pub open spec fn bounds(self) -> Bounds {
        bounds_of(self.x as int, self.y as int, self.width as int, self.height as int)
    }

    /// A dot at rest at `(x, y)`, of the starting size, with no direction held.
    pub open spec fn new_spec(x: i32, y: i32) -> Dot {
        Dot { x, y, x_dir: 0, dx: 0, y_dir: 0, dy: 0, width: DOT_WIDTH, height: DOT_HEIGHT }
    }

    /// A dot at rest at `(x, y)`, of the starting size, with no direction held.
    pub fn new(x: i32, y: i32) -> (d: Dot)
        requires
            MIN_X <= x <= MAX_X,
            MIN_Y <= y <= MAX_Y,
        ensures
            d.wf(),
            d == Dot::new_spec(x, y),
    {
        Dot { x: x, y: y, y_dir: 0, dy: 0, x_dir: 0, dx: 0, width: DOT_WIDTH, height: DOT_HEIGHT }
    }

    pub fn get_x(&self) -> (r: i32)
        ensures
            r == self.x,
    {
        self.x
    }

    pub fn get_y(&self) -> (r: i32)
        ensures
            r == self.y,
    {
        self.y
    }

    pub fn get_width(&self) -> (r: i32)
        ensures
            r == self.width,
    {
        self.width
    }

    pub fn get_height(&self) -> (r: i32)
        ensures
            r == self.height,
    {
        self.height
    }

    /// Grows the dot after a catch, wrapping back to the starting size.
    pub fn grow(&mut self)
        requires
            old(self).wf(),
        ensures
            final(self).wf(),
            *final(self) == old(self).grown(),
    {
        self.width = self.width * 3 / 2;
        self.height = self.height * 3 / 2;

        if self.width >= WIDTH / 2 || self.height >= HEIGHT / 2 {
            self.width = DOT_WIDTH;
            self.height = DOT_HEIGHT;
        }
    }

    /// Moves the dot by one tick on both axes.
    pub fn step(&mut self)
        requires
            old(self).wf(),
        ensures
            final(self).wf(),
            *final(self) == old(self).stepped(),
    {
        let (x, dx) = Dot::delta(self.x, self.dx, self.x_dir, MIN_X, MAX_X);
        let (y, dy) = Dot::delta(self.y, self.dy, self.y_dir, MIN_Y, MAX_Y);

        self.y = y;
        self.dy = dy;
        self.x = x;
        self.dx = dx;
    }

    /// One axis of one tick: the new position and velocity.
    pub fn delta(pos: i32, velocity: i32, dir: i32, min_val: i32, max_val: i32) -> (r: (i32, i32))
        requires
            is_direction(dir as int),
            -DOT_MAX_VELOCITY <= velocity <= DOT_MAX_VELOCITY,
            min_val <= pos <= max_val,
            i32::MIN + DOT_MAX_VELOCITY / SUBPIXELS <= min_val,
            max_val <= i32::MAX - DOT_MAX_VELOCITY / SUBPIXELS,
        ensures
            r.0 == axis_step(pos as int, velocity as int, dir as int, min_val as int, max_val as int).0,
            r.1 == axis_step(pos as int, velocity as int, dir as int, min_val as int, max_val as int).1,
            min_val <= r.0 <= max_val,
            -DOT_MAX_VELOCITY <= r.1 <= DOT_MAX_VELOCITY,
    {
        proof {
            lemma_unit_product(dir as int, velocity as int);
        }
        let mut delta = velocity;
        let is_decel = dir == 0 || dir * delta < 0;
        let is_accel = dir != 0;

        if is_decel && delta != 0 {
            let unit: i32 = if delta > 0 { 1 } else { -1 };
            delta -= unit * DOT_DOWN_DELTA;
        }
        if is_accel {
            delta += dir * DOT_UP_DELTA;
        }
        if dir != 0 {
            proof {
                lemma_unit_product(dir as int, delta as int);
            }
            let along = delta * dir;
            let capped = if along < DOT_MAX_VELOCITY { along } else { DOT_MAX_VELOCITY };
            proof {
                lemma_unit_product(dir as int, capped as int);
            }
            delta = dir * capped;
        }

        let whole: i32 = if delta >= 0 { delta / SUBPIXELS } else { -((-delta) / SUBPIXELS) };
        let pos = clampi(pos + whole, min_val, max_val);

        // a velocity that drives into the wall just reached stops
        if pos == min_val && delta < 0 || pos == max_val && delta > 0 {
            delta = 0;
        }

        (pos, delta)
    }

    /// The dot's bounding box.
    pub fn get_bounds(&self) -> (b: Bounds)
        requires
            self.wf(),
        ensures
            b == self.bounds(),
    {
        Bounds::of(self.x, self.y, self.width, self.height)
    }

    /// Whether the dot's box and the target's box overlap or touch.
    pub fn is_touching(&self, t: &Target) -> (r: bool)
        requires
            self.wf(),
            t.wf(),
        ensures
            r == self.bounds().meets(t.bounds()),
    {
        self.get_bounds().is_touching(t.get_bounds())
    }
}

/// `val` clamped into `min..=max`.
pub fn clampi(val: i32, min: i32, max: i32) -> (r: i32)
    requires
        min <= max,
    ensures
        r == clamp(val as int, min as int, max as int),
{
    if val > max {
        max
    } else if val < min {
        min
    } else {
        val
    }
}

/// Multiplying by a direction keeps, negates or zeroes a value.
proof fn lemma_unit_product(dir: int, v: int)
    requires
        is_direction(dir),
    ensures
        dir * v == (if dir == 1 { v } else if dir == -1 { -v } else { 0 }),
{
    if dir == 1 {
        assert(dir * v == v) by (nonlinear_arith)
            requires
                dir == 1,
        ;
    } else if dir == -1 {
        assert(dir * v == -v) by (nonlinear_arith)
            requires
                dir == -1,
        ;
    } else {
        assert(dir * v == 0) by (nonlinear_arith)
            requires
                dir == 0,
        ;
    }
}

/// After any tick the dot's centre stays within the walls on both axes.
pub proof fn lemma_step_stays_in_arena(d: Dot)
    requires
        d.wf(),
    ensures
        MIN_X <= d.stepped().x <= MAX_X,
        MIN_Y <= d.stepped().y <= MAX_Y,
        d.stepped().wf(),
{
}

/// A tick that ends on a wall with a velocity that drives further into it
/// leaves zero velocity on that axis; so after any tick, a dot that stands on
/// a wall never moves toward it.
pub proof fn lemma_wall_stops(pos: int, v: int, dir: int, lo: int, hi: int)
    requires
        lo <= hi,
    ensures
        ({
            let (np, nv) = axis_step(pos, v, dir, lo, hi);
            let driven = steered_velocity(v, dir);
            &&& (np == lo && driven < 0) ==> nv == 0
            &&& (np == hi && driven > 0) ==> nv == 0
            &&& np == lo ==> nv >= 0
            &&& np == hi ==> nv <= 0
        }),
{
}

/// Catches compose: `m` catches and then `k` more are `m + k` catches.
proof fn lemma_grown_times_add(d: Dot, m: nat, k: nat)
    ensures
        d.grown_times(m).grown_times(k) == d.grown_times(m + k),
    decreases k,
{
    if k > 0 {
        lemma_grown_times_add(d, m, (k - 1) as nat);
        assert(m + k - 1 == (m + (k - 1)) as nat);
    }
}

/// From the starting size the sides run 11, 16, 24, 36, 54, 81, 121, 181;
/// the eighth catch would give 271, at least half the arena, so it resets the
/// dot to the starting size. Growth is thus a cycle of eight catches: after
/// `n` catches the dot is what it is after `n % 8`.
pub proof fn lemma_growth_cycle(d: Dot, n: nat)
    requires
        d.wf(),
        d.width == DOT_WIDTH,
        d.height == DOT_HEIGHT,
    ensures
        d.grown_times(8) == d,
        forall|k: nat| 0 < k < 8 ==> #[trigger] d.grown_times(k).width > DOT_WIDTH,
        d.grown_times(n) == d.grown_times(n % 8),
    decreases n,
{
    assert(d.grown_times(0) == d);
    assert(d.grown_times(1) == d.grown_times(0).grown());
    assert(d.grown_times(1).width == 16);
    assert(d.grown_times(1).height == 16);
    assert(d.grown_times(2).width == 24);
    assert(d.grown_times(3).width == 36);
    assert(d.grown_times(4).width == 54);
    assert(d.grown_times(5).width == 81);
    assert(d.grown_times(6).width == 121);
    assert(d.grown_times(7).width == 181);
    assert(d.grown_times(7).height == 181);
    assert(d.grown_times(8) == d);
    if n >= 8 {
        lemma_growth_cycle(d, (n - 8) as nat);
        lemma_grown_times_add(d, 8, (n - 8) as nat);
        assert(n % 8 == ((n - 8) as nat) % 8);
    }
}

} // verus!
