//! The player's motion state and the per-frame operation that advances it.

use vstd::prelude::*;
use crate::config::{MotionConfig, Tuning, DIVISOR_SCALE, MICROS_PER_UNIT};
use crate::input::{FrameInput, ResolverFeedback};
use crate::model::{climb, step, Frame, Motion, Outcome};

verus! {

/// The three vertical states of the player.
#[derive(Clone, Copy, Debug, PartialEq, Eq, Structural)]
pub enum VerticalState {
    /// Standing; the state a player starts in.
    Grounded,
    /// Going up in a jump.
    Rising,
    /// Coming down, after a jump reached its height.
    Falling,
}

/// The displacement asked of the resolver for one frame, in micro-units.
#[derive(Clone, Copy, Debug, PartialEq, Eq, Structural)]
pub struct Displacement {
    pub dx: i128,
    pub dy: i128,
}

/// Why a frame was turned down.
#[derive(Clone, Copy, Debug, PartialEq, Eq, Structural)]
pub enum FrameError {
    /// The time since the last frame was below zero.
    NegativeDelta,
}

impl FrameError {
    /// The sentence that `describe` returns.
    pub open spec fn text(self) -> Seq<char> {
        match self {
            FrameError::NegativeDelta => "delta must not be negative"@,
        }
    }

    /// Says in words what was wrong with the frame.
    pub fn describe(self) -> (r: &'static str)
        ensures
            r@ == self.text(),
    {
        match self {
            FrameError::NegativeDelta => "delta must not be negative",
        }
    }
}

/// The tuning constants, the vertical state and the distance risen in the
/// current jump. Only `on_frame` changes a value of this type.
#[derive(Debug)]
pub struct PlayerState {
    config: MotionConfig,
    vertical: VerticalState,
    rise: Option<u64>,
}

/// The frame that the three arguments of `on_frame` make up.
pub open spec fn frame_of(input: FrameInput, delta_micros: i64, feedback: ResolverFeedback) -> Frame {
    Frame { input, delta: delta_micros as int, feedback }
}

/// What a frame left behind: the state after it and the displacement returned.
pub open spec fn outcome_of(next: Motion, moved: Displacement) -> Outcome {
    Outcome { next, dx: moved.dx as int, dy: moved.dy as int }
}

/// The state that a vertical state and a distance on record stand for.
pub open spec fn motion_of(vertical: VerticalState, rise: Option<u64>) -> Motion {
    Motion {
        vertical,
        rise: match rise {
            Some(risen) => Some(risen as int),
            None => None,
        },
    }
}

impl View for PlayerState {
    type V = Motion;

    closed spec fn view(&self) -> Motion {
        motion_of(self.vertical, self.rise)
    }
}

impl PlayerState {
    /// The constants that this player moves by.
    pub closed spec fn tuning(&self) -> Tuning {
        self.config@
    }

    /// What holds of every value of this type: its constants are valid, and
    /// so is its state under them.
    #[verifier::type_invariant]
    pub open spec fn inv(self) -> bool {
        &&& self.tuning().valid()
        &&& self@.valid(self.tuning())
    }

    /// A player that stands on the ground.
    pub fn new(config: MotionConfig) -> (r: PlayerState)
        ensures
            r@ == Motion::grounded(),
            r.tuning() == config@,
    {
        proof {
            use_type_invariant(config);
        }
        PlayerState { config, vertical: VerticalState::Grounded, rise: None }
    }

    /// A player in the middle of a jump that has risen `risen` micro-units,
    /// if that is below the jump height.
    pub fn rising(config: MotionConfig, risen: u64) -> (r: Option<PlayerState>)
        ensures
            r is Some <==> risen < config@.max_rise(),
            r matches Some(s) ==> s@ == Motion::rising(risen as int) && s.tuning() == config@,
    {
        proof {
            use_type_invariant(config);
        }
        if risen < max_rise_of(&config) {
            Some(PlayerState { config, vertical: VerticalState::Rising, rise: Some(risen) })
        } else {
            None
        }
    }

    /// A player that is coming down.
    pub fn falling(config: MotionConfig) -> (r: PlayerState)
        ensures
            r@ == Motion::falling(),
            r.tuning() == config@,
    {
        proof {
            use_type_invariant(config);
        }
        PlayerState { config, vertical: VerticalState::Falling, rise: None }
    }

    /// The constants that this player moves by.
    pub fn config(&self) -> (r: MotionConfig)
        ensures
            r@ == self.tuning(),
    {
        self.config
    }

    /// The current vertical state.
    pub fn vertical(&self) -> (r: VerticalState)
        ensures
            r == self@.vertical,
    {
        self.vertical
    }

    /// Micro-units risen in the current jump; `None` unless the player rises.
    pub fn accumulated_rise(&self) -> (r: Option<u64>)
        ensures
            motion_of(self@.vertical, r) == self@,
            r is Some <==> self@.vertical is Rising,
            r matches Some(risen) ==> risen < self.tuning().max_rise(),
    {
        proof {
            use_type_invariant(self);
        }
        self.rise
    }

    /// Advances the player by one frame and returns the displacement to ask of
    /// the resolver.
    ///
    /// `delta_micros` is the time since the frame before; a negative one is
    /// turned down and changes nothing. Otherwise the new state and the
    /// displacement are those of `step`.
    pub fn on_frame(
        &mut self,
        input: FrameInput,
        delta_micros: i64,
        feedback: ResolverFeedback,
    ) -> (r: Result<Displacement, FrameError>)
        ensures
            final(self).tuning() == old(self).tuning(),
            delta_micros < 0 ==> r == Err::<Displacement, FrameError>(FrameError::NegativeDelta)
                && final(self)@ == old(self)@,
            delta_micros >= 0 ==> r is Ok && outcome_of(final(self)@, r->Ok_0) == step(
                old(self).tuning(),
                old(self)@,
                frame_of(input, delta_micros, feedback),
            ),
            delta_micros >= 0 && input.direction() == 0 ==> r->Ok_0.dx == 0,
            delta_micros >= 0 && old(self)@.vertical is Grounded && !input.jump.pressed_now()
                && !input.move_left.down() && !input.move_right.down() ==> r->Ok_0.dx == 0
                && r->Ok_0.dy == 0 && final(self)@ == Motion::grounded(),
    {
        proof {
            use_type_invariant(&*self);
            use_type_invariant(self.config);
        }
        if delta_micros < 0 {
            return Err(FrameError::NegativeDelta);
        }
        let config = self.config;
        let dx = run_request(&config, delta_micros, input.horizontal());
        let jump = input.jump.is_just_pressed();
        let contact = feedback.ground_contact();
        let (vertical, rise, dy) = match self.vertical {
            VerticalState::Grounded => {
                if jump {
                    rise_request(&config, 0, delta_micros)
                } else {
                    (VerticalState::Grounded, None, 0)
                }
            },
            VerticalState::Rising => {
                if contact {
                    (VerticalState::Grounded, None, fall_request(&config, delta_micros))
                } else {
                    let risen = match self.rise {
                        Some(risen) => risen,
                        None => 0,
                    };
                    rise_request(&config, risen, delta_micros)
                }
            },
            VerticalState::Falling => {
                let dy = fall_request(&config, delta_micros);
                if contact {
                    (VerticalState::Grounded, None, dy)
                } else {
                    (VerticalState::Falling, None, dy)
                }
            },
        };
        *self = PlayerState { config, vertical, rise };
        Ok(Displacement { dx, dy })
    }
}

/// The jump height of `config` in micro-units.
fn max_rise_of(config: &MotionConfig) -> (r: u64)
    ensures
        r == config@.max_rise(),
        r > 0,
{
    (config.max_jump_height() as u64) * MICROS_PER_UNIT
}

/// A time and a speed that are not negative multiply to a distance that is
/// not negative and far from the end of 128 bits, with room for the scale of
/// the fall divisor.
proof fn lemma_distance_fits(delta_micros: i64, speed: i32)
    requires
        delta_micros >= 0,
        speed >= 0,
    ensures
        0 <= delta_micros * speed <= 0x7fff_ffff_ffff_ffff * 0x7fff_ffff,
        0 <= delta_micros * speed * DIVISOR_SCALE <= 0x7fff_ffff_ffff_ffff * 0x7fff_ffff * 1000,
{
    assert(0 <= delta_micros * speed <= 0x7fff_ffff_ffff_ffff * 0x7fff_ffff) by (nonlinear_arith)
        requires
            0 <= delta_micros <= 0x7fff_ffff_ffff_ffff,
            0 <= speed <= 0x7fff_ffff,
    ;
}

/// The sideways displacement of one frame.
fn run_request(config: &MotionConfig, delta_micros: i64, direction: i8) -> (r: i128)
    requires
        delta_micros >= 0,
        -1 <= direction <= 1,
    ensures
        r == config@.run_distance(delta_micros as int, direction as int),
        direction == 0 ==> r == 0,
{
    let speed = config.move_speed();
    proof {
        lemma_distance_fits(delta_micros, speed);
    }
    let distance: i128 = (delta_micros as i128) * (speed as i128);
    if direction == 0 {
        assert(distance * 0 == 0);
        0
    } else if direction == 1 {
        assert(distance * 1 == distance);
        distance
    } else {
        assert(distance * -1 == -distance);
        -distance
    }
}

/// One frame of rising from `risen`: the next state, the distance then on
/// record, and the displacement upwards.
fn rise_request(config: &MotionConfig, risen: u64, delta_micros: i64) -> (r: (
    VerticalState,
    Option<u64>,
    i128,
))
    requires
        delta_micros >= 0,
        risen < config@.max_rise(),
    ensures
        (motion_of(r.0, r.1), r.2 as int) == climb(config@, risen as int, delta_micros as int),
        motion_of(r.0, r.1).valid(config@),
{
    let max = max_rise_of(config);
    let speed = config.rise_speed();
    proof {
        lemma_distance_fits(delta_micros, speed);
    }
    let step: u128 = (delta_micros as u128) * (speed as u128);
    if step >= (max - risen) as u128 {
        (VerticalState::Falling, None, (max - risen) as i128)
    } else {
        let step: u64 = step as u64;
        (VerticalState::Rising, Some(risen + step), step as i128)
    }
}

/// The displacement of one frame of falling: downwards, so not above zero.
fn fall_request(config: &MotionConfig, delta_micros: i64) -> (r: i128)
    requires
        delta_micros >= 0,
    ensures
        r == -config@.fall_distance(delta_micros as int),
{
    let speed = config.rise_speed();
    let divisor = config.fall_divisor_milli();
    proof {
        lemma_distance_fits(delta_micros, speed);
    }
    let scaled: u128 = (delta_micros as u128) * (speed as u128) * (DIVISOR_SCALE as u128);
    let fallen: u128 = scaled / (divisor as u128);
    -(fallen as i128)
}

} // verus!
