//! Directional key events and the per-axis held-direction state machine.
use vstd::prelude::*;
use crate::motion::Dot;

verus! {

/// A button of the host's keyboard; all but the four arrows are `Other`.
#[derive(Clone, Copy, Debug, PartialEq, Eq, Structural)]
pub enum Button {
    Up,
    Down,
    Left,
    Right,
    Other,
}

/// Whether a button went down or came up.
#[derive(Clone, Copy, Debug, PartialEq, Eq, Structural)]
pub enum ButtonState {
    Pressed,
    Released,
}

/// One edge of one button.
#[derive(Clone, Copy, Debug, PartialEq, Eq, Structural)]
pub struct Event {
    pub button: Button,
    pub state: ButtonState,
}

/// The direction held on an axis after an edge of the key for `toward`: a
/// press holds `toward`; a release lets go only when `toward` is what is
/// held, so a stale release cannot cancel a newer press.
pub open spec fn held_after(dir: int, toward: int, state: ButtonState) -> int {
    match state {
        ButtonState::Pressed => toward,
        ButtonState::Released => if dir == toward {
            0
        } else {
            dir
        },
    }
}

/// The dot's held directions after one event: up is -1 and down is +1 on y,
/// left is -1 and right is +1 on x.
pub open spec fn steered(d: Dot, e: Event) -> Dot {
    match e.button {
        Button::Up => Dot { y_dir: held_after(d.y_dir as int, -1, e.state) as i32, ..d },
        Button::Down => Dot { y_dir: held_after(d.y_dir as int, 1, e.state) as i32, ..d },
        Button::Left => Dot { x_dir: held_after(d.x_dir as int, -1, e.state) as i32, ..d },
        Button::Right => Dot { x_dir: held_after(d.x_dir as int, 1, e.state) as i32, ..d },
        Button::Other => d,
    }
}

/// The dot's held directions after the events, in order.
pub open spec fn steered_all(d: Dot, events: Seq<Event>) -> Dot
    decreases events.len(),
{
    if events.len() == 0 {
        d
    } else {
        steered(steered_all(d, events.drop_last()), events.last())
    }
}

/// Events change only the held directions, and keep each in -1..=1.
pub proof fn lemma_steered_all_wf(d: Dot, events: Seq<Event>)
    requires
        d.wf(),
    ensures
        steered_all(d, events).wf(),
        steered_all(d, events) == (Dot {
            x_dir: steered_all(d, events).x_dir,
            y_dir: steered_all(d, events).y_dir,
            ..d
        }),
    decreases events.len(),
{
    if events.len() > 0 {
        lemma_steered_all_wf(d, events.drop_last());
    }
}

/// The direction in which the red channel moves: +1 when the last press of
/// up or down among the events is up, -1 when it is down, 0 when neither was
/// pressed.
pub open spec fn red_shift(events: Seq<Event>) -> int
    decreases events.len(),
{
    if events.len() == 0 {
        0
    } else {
        let e = events.last();
        if e.state == ButtonState::Pressed && e.button == Button::Up {
            1
        } else if e.state == ButtonState::Pressed && e.button == Button::Down {
            -1
        } else {
            red_shift(events.drop_last())
        }
    }
}

/// The direction in which the green channel moves: +1 when the last press of
/// left or right among the events is right, -1 when it is left, 0 when
/// neither was pressed.
pub open spec fn green_shift(events: Seq<Event>) -> int
    decreases events.len(),
{
    if events.len() == 0 {
        0
    } else {
        let e = events.last();
        if e.state == ButtonState::Pressed && e.button == Button::Right {
            1
        } else if e.state == ButtonState::Pressed && e.button == Button::Left {
            -1
        } else {
            green_shift(events.drop_last())
        }
    }
}

} // verus!
