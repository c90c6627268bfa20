//! The motion controller as mathematics: one frame as a function from state
//! and input to the next state and the displacement asked for.

use vstd::prelude::*;
use crate::config::Tuning;
use crate::controller::VerticalState;
use crate::input::{FrameInput, ResolverFeedback};

verus! {

/// The vertical state with the distance risen so far in the current jump, in
/// micro-units. The distance is there exactly while the player rises.
pub struct Motion {
    pub vertical: VerticalState,
    pub rise: Option<int>,
}

/// Everything that one frame hands to the controller.
pub struct Frame {
    pub input: FrameInput,
    /// Microseconds since the frame before.
    pub delta: int,
    /// What the resolver reported of the last displacement.
    pub feedback: ResolverFeedback,
}

/// What one frame leaves behind: the next state and the displacement asked
/// for, in micro-units.
pub struct Outcome {
    pub next: Motion,
    pub dx: int,
    pub dy: int,
}

impl Motion {
    /// Standing on the ground.
    pub open spec fn grounded() -> Motion {
        Motion { vertical: VerticalState::Grounded, rise: None }
    }

    /// Rising, `risen` micro-units into the jump.
    pub open spec fn rising(risen: int) -> Motion {
        Motion { vertical: VerticalState::Rising, rise: Some(risen) }
    }

    /// Coming down.
    pub open spec fn falling() -> Motion {
        Motion { vertical: VerticalState::Falling, rise: None }
    }

    /// The distance risen is defined exactly while rising, is not negative and
    /// stays below the jump height.
    pub open spec fn valid(self, t: Tuning) -> bool {
        &&& self.vertical is Rising <==> self.rise is Some
        &&& self.rise matches Some(risen) ==> 0 <= risen < t.max_rise()
    }

    /// The distance risen so far, zero outside a jump.
    pub open spec fn risen(self) -> int {
        match self.rise {
            Some(risen) => risen,
            None => 0,
        }
    }
}

impl Frame {
    /// A frame that the controller accepts: time does not run backwards.
    pub open spec fn valid(self) -> bool {
        self.delta >= 0
    }
}

/// Whether this frame starts a jump: the player stands and the jump key went
/// down in this very frame. A key that is merely held starts nothing.
pub open spec fn starts_jump(m: Motion, f: Frame) -> bool {
    m.vertical is Grounded && f.input.jump.pressed_now()
}

/// Whether this frame ends in a landing: the player is in the air and the
/// resolver reports ground contact.
pub open spec fn lands(m: Motion, f: Frame) -> bool {
    !(m.vertical is Grounded) && f.feedback.contact()
}

/// One frame of rising from `risen`: the step is cut where it would pass the
/// jump height, and the frame that reaches the height ends the rise.
pub open spec fn climb(t: Tuning, risen: int, delta: int) -> (Motion, int) {
    let step = t.rise_distance(delta);
    if risen + step >= t.max_rise() {
        (Motion::falling(), t.max_rise() - risen)
    } else {
        (Motion::rising(risen + step), step)
    }
}

/// One frame of falling: the full fall distance is asked for, and the resolver
/// cuts it at the ground. Contact reported of the last move ends the fall.
pub open spec fn descend(t: Tuning, delta: int, feedback: ResolverFeedback) -> (Motion, int) {
    (
        if feedback.contact() {
            Motion::grounded()
        } else {
            Motion::falling()
        },
        -t.fall_distance(delta),
    )
}

/// The vertical part of one frame.
///
/// A standing player stays put unless a jump starts, and a jump rises in the
/// frame that starts it. A rising player on whom ground contact is reported
/// stops rising and lands in the same frame, as if already falling.
pub open spec fn vertical_step(t: Tuning, m: Motion, f: Frame) -> (Motion, int) {
    match m.vertical {
        VerticalState::Grounded => {
            if f.input.jump.pressed_now() {
                climb(t, 0, f.delta)
            } else {
                (Motion::grounded(), 0)
            }
        },
        VerticalState::Rising => {
            if f.feedback.contact() {
                descend(t, f.delta, f.feedback)
            } else {
                climb(t, m.risen(), f.delta)
            }
        },
        VerticalState::Falling => descend(t, f.delta, f.feedback),
    }
}

/// One frame of the controller.
pub open spec fn step(t: Tuning, m: Motion, f: Frame) -> Outcome {
    let (next, dy) = vertical_step(t, m, f);
    Outcome { next, dx: t.run_distance(f.delta, f.input.direction()), dy }
}

} // verus!
