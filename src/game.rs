//! The simulation state and its per-tick update.
use vstd::prelude::*;
use crate::arena::{
    CENTER_X, CENTER_Y, FULL, HEIGHT, INCR_COLOR, MAX_X, MAX_Y, MIN_X, MIN_Y, START_COLOR, WIDTH,
};
use crate::input::{
    green_shift, lemma_steered_all_wf, red_shift, steered_all, Button, ButtonState, Event,
};
use crate::motion::{clamp, clampi, lemma_step_stays_in_arena, Dot};
use crate::target::{spawn_spot, Target};

verus! {

/// The whole game: two colour channels in hundredths, the dot and the target.
#[derive(Clone, Copy, Debug, PartialEq, Eq, Structural)]
pub struct Daisy {
    pub red: i32,
    pub green: i32,
    pub dot: Dot,
    pub target: Target,
}

impl Daisy {
    /// Colours within `0..=FULL`, a well-formed dot and a target inside the
    /// walls.
    pub open spec fn wf(self) -> bool {
        &&& 0 <= self.red <= FULL
        &&& 0 <= self.green <= FULL
        &&& self.dot.wf()
        &&& self.target.wf()
    }

    /// The state after the events and one tick of motion, before a catch is
    /// looked for: each colour moves one step in the direction of its last
    /// press and is clamped to `0..=FULL`.
    pub open spec fn reacted(self, events: Seq<Event>) -> Daisy {
        Daisy {
            red: clamp(self.red + INCR_COLOR * red_shift(events), 0, FULL as int) as i32,
            green: clamp(self.green + INCR_COLOR * green_shift(events), 0, FULL as int) as i32,
            dot: steered_all(self.dot, events).stepped(),
            target: self.target,
        }
    }

    /// Whether the dot's box meets the target's.
    pub open spec fn catches(self) -> bool {
        self.dot.bounds().meets(self.target.bounds())
    }

    /// The state after one tick with the events, where a catch grows the dot
    /// and puts the target at `(spawn_x, spawn_y)`.
    pub open spec fn ticked(self, events: Seq<Event>, spawn_x: int, spawn_y: int) -> Daisy {
        let r = self.reacted(events);
        if r.catches() {
            Daisy { dot: r.dot.grown(), target: Target { x: spawn_x as i32, y: spawn_y as i32 }, ..r }
        } else {
            r
        }
    }

    /// A new game with the dot at rest in the middle and the target at a
    /// random spot.
    pub fn new() -> (g: Daisy)
        ensures
            g.wf(),
            g.red == START_COLOR,
            g.green == START_COLOR,
            g.dot == Dot::new_spec(CENTER_X, CENTER_Y),
    {
        let target = Target::new();
        Daisy::with_target(target.x, target.y)
    }

    /// A new game with the dot at rest in the middle and the target at
    /// `(x, y)`.
    pub fn with_target(x: i32, y: i32) -> (g: Daisy)
        requires
            spawn_spot(x as int, y as int),
        ensures
            g.wf(),
            g == (Daisy {
                red: START_COLOR,
                green: START_COLOR,
                dot: Dot::new_spec(CENTER_X, CENTER_Y),
                target: Target { x, y },
            }),
    {
        Daisy {
            red: START_COLOR,
            green: START_COLOR,
            dot: Dot::new(CENTER_X, CENTER_Y),
            target: Target::at(x, y),
        }
    }

    /// The framebuffer's side lengths.
    pub fn dimensions(&self) -> (r: (usize, usize))
        ensures
            r.0 == WIDTH,
            r.1 == HEIGHT,
    {
        (WIDTH as usize, HEIGHT as usize)
    }

    /// One tick: handles the events, moves the dot and, on a catch, grows the
    /// dot and moves the target to a random spot within the walls.
    pub fn tick(&mut self, events: &[Event])
        requires
            old(self).wf(),
        ensures
            final(self).wf(),
            exists|sx: int, sy: int|
                #[trigger] spawn_spot(sx, sy) && *final(self) == old(self).ticked(events@, sx, sy),
    {
        self.react(events);

        if self.dot.is_touching(&self.target) {
            self.dot.grow();
            self.target = Target::new();
            assert(spawn_spot(self.target.x as int, self.target.y as int)
                && *self == old(self).ticked(events@, self.target.x as int, self.target.y as int));
        } else {
            assert(spawn_spot(MIN_X as int, MIN_Y as int)
                && *self == old(self).ticked(events@, MIN_X as int, MIN_Y as int));
        }
    }

    /// One tick as `tick` does it, where a catch puts the target at
    /// `(spawn_x, spawn_y)`.
    pub fn tick_with(&mut self, events: &[Event], spawn_x: i32, spawn_y: i32)
        requires
            old(self).wf(),
            spawn_spot(spawn_x as int, spawn_y as int),
        ensures
            final(self).wf(),
            *final(self) == old(self).ticked(events@, spawn_x as int, spawn_y as int),
    {
        self.react(events);

        if self.dot.is_touching(&self.target) {
            self.dot.grow();
            self.target = Target::at(spawn_x, spawn_y);
        }
    }

    /// Applies the events to the held directions and the colours, then moves
    /// the dot.
    fn react(&mut self, events: &[Event])
        requires
            old(self).wf(),
        ensures
            final(self).wf(),
            *final(self) == old(self).reacted(events@),
    {
        let mut red_dir: i32 = 0;
        let mut green_dir: i32 = 0;

        let mut i: usize = 0;
        while i < events.len()
            invariant
                0 <= i <= events.len(),
                self.wf(),
                self.red == old(self).red,
                self.green == old(self).green,
                self.target == old(self).target,
                self.dot == steered_all(old(self).dot, events@.subrange(0, i as int)),
                red_dir == red_shift(events@.subrange(0, i as int)),
                green_dir == green_shift(events@.subrange(0, i as int)),
                -1 <= red_dir <= 1,
                -1 <= green_dir <= 1,
            decreases events.len() - i,
        {
            let event = events[i];
            let pressed = event.state == ButtonState::Pressed;
            let released = event.state == ButtonState::Released;
            match event.button {
                Button::Up => {
                    if pressed {
                        red_dir = 1;
                    }
                    if released && self.dot.y_dir == -1 {
                        self.dot.y_dir = 0;
                    } else if pressed && self.dot.y_dir != -1 {
                        self.dot.y_dir = -1;
                    }
                },
                Button::Down => {
                    if pressed {
                        red_dir = -1;
                    }
                    if released && self.dot.y_dir == 1 {
                        self.dot.y_dir = 0;
                    } else if pressed && self.dot.y_dir != 1 {
                        self.dot.y_dir = 1;
                    }
                },
                Button::Left => {
                    if pressed {
                        green_dir = -1;
                    }
                    if released && self.dot.x_dir == -1 {
                        self.dot.x_dir = 0;
                    } else if pressed && self.dot.x_dir != -1 {
                        self.dot.x_dir = -1;
                    }
                },
                Button::Right => {
                    if pressed {
                        green_dir = 1;
                    }
                    if released && self.dot.x_dir == 1 {
                        self.dot.x_dir = 0;
                    } else if pressed && self.dot.x_dir != 1 {
                        self.dot.x_dir = 1;
                    }
                },
                Button::Other => {},
            }
            proof {
                let done = events@.subrange(0, i + 1);
                assert(done.drop_last() == events@.subrange(0, i as int));
                assert(done.last() == event);
            }
            i += 1;
        }
        assert(events@.subrange(0, events.len() as int) == events@);

        self.red = clampi(self.red + INCR_COLOR * red_dir, 0, FULL);
        self.green = clampi(self.green + INCR_COLOR * green_dir, 0, FULL);

        self.dot.step();
    }
}

/// Whatever events a tick brings and wherever a catch puts the target, the
/// colour channels stay within `0..=FULL`, the dot's centre within the walls
/// and its speed within the cap: every tick keeps the game well formed.
pub proof fn lemma_tick_keeps_invariant(g: Daisy, events: Seq<Event>, spawn_x: int, spawn_y: int)
    requires
        g.wf(),
        spawn_spot(spawn_x, spawn_y),
    ensures
        g.ticked(events, spawn_x, spawn_y).wf(),
        0 <= g.ticked(events, spawn_x, spawn_y).red <= FULL,
        0 <= g.ticked(events, spawn_x, spawn_y).green <= FULL,
        MIN_X <= g.ticked(events, spawn_x, spawn_y).dot.x <= MAX_X,
        MIN_Y <= g.ticked(events, spawn_x, spawn_y).dot.y <= MAX_Y,
{
    lemma_steered_all_wf(g.dot, events);
    lemma_step_stays_in_arena(steered_all(g.dot, events));
    assert(-1 <= red_shift(events) <= 1) by {
        lemma_shift_unit(events);
    }
    assert(-1 <= green_shift(events) <= 1) by {
        lemma_shift_unit(events);
    }
}

/// A colour moves by at most one step per tick.
proof fn lemma_shift_unit(events: Seq<Event>)
    ensures
        -1 <= red_shift(events) <= 1,
        -1 <= green_shift(events) <= 1,
    decreases events.len(),
{
    if events.len() > 0 {
        lemma_shift_unit(events.drop_last());
    }
}

} // verus!
