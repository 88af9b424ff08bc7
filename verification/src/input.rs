//! The per-tick input snapshot and the named input actions.
//!
//! Buffered triggers are stopwatches in milliseconds: `Some(t)` means the
//! input fired `t` milliseconds ago and has not been consumed yet.

use vstd::prelude::*;
use crate::math::Vec2;
use crate::state::{tick_timer, TIMER_MAX};

verus! {

/// Planar movement intent (strafe, forward).
#[derive(Clone, Copy, PartialEq, Eq, Structural, Debug)]
pub struct Movement;

/// Jump intent.
#[derive(Clone, Copy, PartialEq, Eq, Structural, Debug)]
pub struct Jump;

/// Wall-jump ("tic-tac") intent.
#[derive(Clone, Copy, PartialEq, Eq, Structural, Debug)]
pub struct Tac;

/// Fast vault ("crane") intent.
#[derive(Clone, Copy, PartialEq, Eq, Structural, Debug)]
pub struct Crane;

/// Hand-mantle intent.
#[derive(Clone, Copy, PartialEq, Eq, Structural, Debug)]
pub struct Mantle;

/// Crouch intent.
#[derive(Clone, Copy, PartialEq, Eq, Structural, Debug)]
pub struct Crouch;

/// Camera rotation intent (yaw, pitch deltas).
#[derive(Clone, Copy, PartialEq, Eq, Structural, Debug)]
pub struct RotateCamera;

/// Pull a carryable object toward the character.
#[derive(Clone, Copy, PartialEq, Eq, Structural, Debug)]
pub struct PullObject;

/// Drop the carried object.
#[derive(Clone, Copy, PartialEq, Eq, Structural, Debug)]
pub struct DropObject;

/// Throw the carried object.
#[derive(Clone, Copy, PartialEq, Eq, Structural, Debug)]
pub struct ThrowObject;

/// Input accumulated since the last fixed update; cleared once per tick
/// except for still-buffered stopwatches.
#[derive(Clone, Copy, PartialEq, Eq, Structural, Debug)]
pub struct AccumulatedInput {
    /// The last non-zero movement intent since the last fixed update.
    pub last_movement: Option<Vec2>,
    /// Milliseconds since the last jump input; `None` once consumed.
    pub jumped: Option<i64>,
    /// Milliseconds since the last tac input; `None` once consumed.
    pub tac: Option<i64>,
    /// Whether any frame since the last fixed update held a crouch.
    pub crouched: bool,
    /// Milliseconds since the last vault input; `None` once consumed.
    pub craned: Option<i64>,
    /// Milliseconds since the last mantle input; `None` once consumed.
    pub mantled: Option<i64>,
    /// Milliseconds since the last climb-down input; `None` once consumed.
    pub climb_down: Option<i64>,
    /// Whether a swim-up was requested this tick.
    pub swim_up: bool,
}

impl AccumulatedInput {
    pub open spec fn timer_wf(t: Option<i64>) -> bool {
        match t {
            Some(v) => 0 <= v <= TIMER_MAX,
            None => true,
        }
    }

    pub open spec fn wf(self) -> bool {
        &&& match self.last_movement {
            Some(m) => crate::math::mag(m.x as int) <= 2_000 && crate::math::mag(m.y as int)
                <= 2_000,
            None => true,
        }
        &&& Self::timer_wf(self.jumped)
        &&& Self::timer_wf(self.tac)
        &&& Self::timer_wf(self.craned)
        &&& Self::timer_wf(self.mantled)
        &&& Self::timer_wf(self.climb_down)
    }

    /// A snapshot with nothing buffered.
    pub fn idle() -> (r: AccumulatedInput)
        ensures
            r.wf(),
            r.last_movement is None,
            r.jumped is None,
            r.tac is None,
            !r.crouched,
            r.craned is None,
            r.mantled is None,
            r.climb_down is None,
            !r.swim_up,
    {
        AccumulatedInput {
            last_movement: None,
            jumped: None,
            tac: None,
            crouched: false,
            craned: None,
            mantled: None,
            climb_down: None,
            swim_up: false,
        }
    }
}

/// Age every buffered stopwatch by `dt` milliseconds.
pub fn tick_timers(input: &mut AccumulatedInput, dt: i64)
    requires
        old(input).wf(),
        0 <= dt <= 1_000,
    ensures
        final(input).wf(),
        final(input).jumped == (match old(input).jumped {
            Some(t) => Some(tick_timer_spec(t as int, dt as int) as i64),
            None => None::<i64>,
        }),
        final(input).tac == (match old(input).tac {
            Some(t) => Some(tick_timer_spec(t as int, dt as int) as i64),
            None => None::<i64>,
        }),
        final(input).craned == (match old(input).craned {
            Some(t) => Some(tick_timer_spec(t as int, dt as int) as i64),
            None => None::<i64>,
        }),
        final(input).mantled == (match old(input).mantled {
            Some(t) => Some(tick_timer_spec(t as int, dt as int) as i64),
            None => None::<i64>,
        }),
        final(input).climb_down == (match old(input).climb_down {
            Some(t) => Some(tick_timer_spec(t as int, dt as int) as i64),
            None => None::<i64>,
        }),
        final(input).last_movement == old(input).last_movement,
        final(input).crouched == old(input).crouched,
        final(input).swim_up == old(input).swim_up,
{
    if let Some(t) = input.jumped {
        input.jumped = Some(tick_timer(t, dt));
    }
    if let Some(t) = input.tac {
        input.tac = Some(tick_timer(t, dt));
    }
    if let Some(t) = input.craned {
        input.craned = Some(tick_timer(t, dt));
    }
    if let Some(t) = input.mantled {
        input.mantled = Some(tick_timer(t, dt));
    }
    if let Some(t) = input.climb_down {
        input.climb_down = Some(tick_timer(t, dt));
    }
}

/// What [`tick_timer`](crate::state::tick_timer) yields.
pub open spec fn tick_timer_spec(t: int, dt: int) -> int {
    if t + dt <= TIMER_MAX {
        t + dt
    } else {
        TIMER_MAX as int
    }
}

/// Forget per-frame intent after a fixed update, keeping only the buffered
/// stopwatches.
pub fn clear_accumulated_input(input: &mut AccumulatedInput)
    requires
        old(input).wf(),
    ensures
        final(input).wf(),
        final(input).last_movement is None,
        !final(input).crouched,
        !final(input).swim_up,
        final(input).jumped == old(input).jumped,
        final(input).tac == old(input).tac,
        final(input).craned == old(input).craned,
        final(input).mantled == old(input).mantled,
        final(input).climb_down == old(input).climb_down,
{
    input.last_movement = None;
    input.crouched = false;
    input.swim_up = false;
}

} // verus!
