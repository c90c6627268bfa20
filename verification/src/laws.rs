//! What holds of the controller over one frame and over any run of frames.

use vstd::prelude::*;
use crate::config::{Tuning, DIVISOR_SCALE};
use crate::model::{lands, starts_jump, step, Frame, Motion, Outcome};

verus! {

/// The state after a run of frames, the first frame first.
pub open spec fn run(t: Tuning, m: Motion, frames: Seq<Frame>) -> Motion
    decreases frames.len(),
{
    if frames.len() == 0 {
        m
    } else {
        step(t, run(t, m, frames.drop_last()), frames.last()).next
    }
}

/// The sum of the vertical displacements asked for over a run of frames.
pub open spec fn climbed(t: Tuning, m: Motion, frames: Seq<Frame>) -> int
    decreases frames.len(),
{
    if frames.len() == 0 {
        0
    } else {
        climbed(t, m, frames.drop_last()) + step(
            t,
            run(t, m, frames.drop_last()),
            frames.last(),
        ).dy
    }
}

/// How many frames of a run take the player off the ground.
pub open spec fn takeoffs(t: Tuning, m: Motion, frames: Seq<Frame>) -> nat
    decreases frames.len(),
{
    if frames.len() == 0 {
        0
    } else {
        let before = run(t, m, frames.drop_last());
        let after = run(t, m, frames);
        let left_ground: nat = if before.vertical is Grounded && !(after.vertical is Grounded) {
            1
        } else {
            0
        };
        takeoffs(t, m, frames.drop_last()) + left_ground
    }
}

/// A run that stays within one rise: it begins with the player rising or with
/// the frame that starts the jump, and every later frame finds the player
/// still rising.
pub open spec fn one_rise(t: Tuning, m: Motion, frames: Seq<Frame>) -> bool {
    &&& m.vertical is Rising || (frames.len() > 0 && starts_jump(m, frames[0]))
    &&& forall|i: int|
        0 < i < frames.len() ==> (#[trigger] run(t, m, frames.take(i))).vertical is Rising
}

/// A frame in which no time passes and nothing happens to the state `m`: it
/// neither starts a jump nor reports a landing.
pub open spec fn idle_pause(m: Motion, f: Frame) -> bool {
    &&& f.delta == 0
    &&& !starts_jump(m, f)
    &&& !lands(m, f)
}

/// In a frame that is not negative, the player neither rises nor falls by a
/// negative distance.
pub proof fn lemma_distances_not_negative(t: Tuning, delta: int)
    requires
        t.valid(),
        delta >= 0,
    ensures
        t.rise_distance(delta) >= 0,
        t.fall_distance(delta) >= 0,
{
    assert(delta * t.rise_speed >= 0) by (nonlinear_arith)
        requires
            delta >= 0,
            t.rise_speed >= 0,
    ;
    assert((delta * t.rise_speed * DIVISOR_SCALE) / t.fall_divisor_milli >= 0) by (nonlinear_arith)
        requires
            delta >= 0,
            t.rise_speed >= 0,
            DIVISOR_SCALE == 1000,
            t.fall_divisor_milli > 0,
    ;
}

/// A frame keeps the state valid: the distance risen is there exactly while
/// the player rises, and stays below the jump height.
pub proof fn lemma_step_keeps_valid(t: Tuning, m: Motion, f: Frame)
    requires
        t.valid(),
        m.valid(t),
        f.valid(),
    ensures
        step(t, m, f).next.valid(t),
{
    lemma_distances_not_negative(t, f.delta);
}

/// Any run of accepted frames keeps the state valid.
pub proof fn lemma_run_keeps_valid(t: Tuning, m: Motion, frames: Seq<Frame>)
    requires
        t.valid(),
        m.valid(t),
        forall|i: int| 0 <= i < frames.len() ==> (#[trigger] frames[i]).valid(),
    ensures
        run(t, m, frames).valid(t),
    decreases frames.len(),
{
    if frames.len() > 0 {
        lemma_run_keeps_valid(t, m, frames.drop_last());
        lemma_step_keeps_valid(t, run(t, m, frames.drop_last()), frames.last());
    }
}

/// The only ways from one vertical state to another: off the ground by a
/// fresh press of jump, from rising to falling at the jump height, and back to
/// the ground by reported contact. A rise that meets contact lands in the
/// same frame; nothing else leads anywhere.
pub proof fn lemma_transitions(t: Tuning, m: Motion, f: Frame)
    ensures
        m.vertical is Grounded ==> (step(t, m, f).next.vertical is Grounded <==> !starts_jump(m, f)),
        m.vertical is Rising ==> (step(t, m, f).next.vertical is Grounded <==> lands(m, f)),
        m.vertical is Falling ==> !(step(t, m, f).next.vertical is Rising),
        m.vertical is Falling ==> (step(t, m, f).next.vertical is Grounded <==> lands(m, f)),
{
}

/// While the player rises it is never asked to move down, and a player that
/// comes down is never asked to move up.
pub proof fn lemma_vertical_direction(t: Tuning, m: Motion, f: Frame)
    requires
        t.valid(),
        m.valid(t),
        f.valid(),
    ensures
        m.vertical is Grounded || (m.vertical is Rising && !lands(m, f)) ==> step(t, m, f).dy >= 0,
        m.vertical is Falling || lands(m, f) ==> step(t, m, f).dy <= 0,
{
    lemma_distances_not_negative(t, f.delta);
}

/// Without a direction there is no sideways movement: neither key down, or
/// both at once.
pub proof fn lemma_no_direction_no_dx(t: Tuning, m: Motion, f: Frame)
    requires
        f.input.direction() == 0,
    ensures
        step(t, m, f).dx == 0,
{
    let direction = f.input.direction();
    assert(f.delta * t.move_speed * direction == 0) by (nonlinear_arith)
        requires
            direction == 0,
    ;
}

/// A standing player with no fresh press of jump and no horizontal key down
/// stays where it is, whatever the time and the resolver say.
pub proof fn lemma_idle_on_ground(t: Tuning, m: Motion, f: Frame)
    requires
        m.vertical is Grounded,
        !f.input.jump.pressed_now(),
        !f.input.move_left.down(),
        !f.input.move_right.down(),
    ensures
        step(t, m, f) == (Outcome { next: Motion::grounded(), dx: 0, dy: 0 }),
{
    lemma_no_direction_no_dx(t, m, f);
}

/// Within one rise the player never gets above the jump height: the distance
/// risen before the run plus everything asked for in it stays at or below the
/// height, the player turns to falling exactly when that sum reaches the
/// height, and while it still rises the sum is the distance on record.
pub proof fn lemma_jump_height(t: Tuning, m: Motion, frames: Seq<Frame>)
    requires
        t.valid(),
        m.valid(t),
        forall|i: int| 0 <= i < frames.len() ==> (#[trigger] frames[i]).valid(),
        one_rise(t, m, frames),
    ensures
        m.risen() + climbed(t, m, frames) <= t.max_rise(),
        run(t, m, frames).vertical is Falling <==> m.risen() + climbed(t, m, frames)
            == t.max_rise(),
        run(t, m, frames).vertical is Rising ==> run(t, m, frames).rise == Some(
            m.risen() + climbed(t, m, frames),
        ),
    decreases frames.len(),
{
    if frames.len() > 0 {
        let n = frames.len() - 1;
        let head = frames.drop_last();
        lemma_distances_not_negative(t, frames.last().delta);
        if n > 0 {
            assert forall|i: int| 0 < i < head.len() implies (#[trigger] run(
                t,
                m,
                head.take(i),
            )).vertical is Rising by {
                assert(head.take(i) =~= frames.take(i));
            }
            assert forall|i: int| 0 <= i < head.len() implies (#[trigger] head[i]).valid() by {
                assert(head[i] == frames[i]);
            }
            lemma_jump_height(t, m, head);
            assert(frames.take(n) =~= head);
            lemma_run_keeps_valid(t, m, head);
        }
    }
}

/// A paused frame is a no-op. With no time passed, and unless the frame starts
/// a jump or reports a landing, the displacement is zero and the state is as
/// before, however often this is repeated.
pub proof fn lemma_zero_delta_changes_nothing(t: Tuning, m: Motion, frames: Seq<Frame>)
    requires
        t.valid(),
        m.valid(t),
        forall|i: int| 0 <= i < frames.len() ==> idle_pause(m, #[trigger] frames[i]),
    ensures
        run(t, m, frames) == m,
        climbed(t, m, frames) == 0,
        forall|i: int| 0 <= i <= frames.len() ==> #[trigger] run(t, m, frames.take(i)) == m,
        forall|i: int|
            0 <= i < frames.len() ==> step(t, m, #[trigger] frames[i]) == (Outcome {
                next: m,
                dx: 0,
                dy: 0,
            }),
    decreases frames.len(),
{
    assert forall|i: int| 0 <= i < frames.len() implies step(t, m, #[trigger] frames[i]) == (Outcome {
        next: m,
        dx: 0,
        dy: 0,
    }) by {
        lemma_pause(t, m, frames[i]);
    }
    if frames.len() > 0 {
        let head = frames.drop_last();
        assert forall|i: int| 0 <= i < head.len() implies idle_pause(m, #[trigger] head[i]) by {
            assert(head[i] == frames[i]);
        }
        lemma_zero_delta_changes_nothing(t, m, head);
        assert forall|i: int| 0 <= i <= frames.len() implies #[trigger] run(
            t,
            m,
            frames.take(i),
        ) == m by {
            if i < frames.len() {
                assert(frames.take(i) =~= head.take(i));
            } else {
                assert(frames.take(i) =~= frames);
            }
        }
    } else {
        assert forall|i: int| 0 <= i <= frames.len() implies #[trigger] run(
            t,
            m,
            frames.take(i),
        ) == m by {
            assert(frames.take(i) =~= frames);
        }
    }
}

/// One paused frame that neither starts a jump nor reports a landing asks for
/// no displacement and leaves the state as it was.
pub proof fn lemma_pause(t: Tuning, m: Motion, f: Frame)
    requires
        t.valid(),
        m.valid(t),
        idle_pause(m, f),
    ensures
        step(t, m, f) == (Outcome { next: m, dx: 0, dy: 0 }),
{
    let delta = f.delta;
    assert(delta * t.move_speed * f.input.direction() == 0) by (nonlinear_arith)
        requires
            delta == 0,
    ;
    assert(delta * t.rise_speed == 0) by (nonlinear_arith)
        requires
            delta == 0,
    ;
    assert((delta * t.rise_speed * DIVISOR_SCALE) / t.fall_divisor_milli == 0) by (nonlinear_arith)
        requires
            delta == 0,
            t.fall_divisor_milli > 0,
    ;
}

/// Jumping is edge-triggered. In a run in which jump is freshly pressed in the
/// first frame at most, and held or released after that, the player leaves the
/// ground at most once: not again after landing while the key stays down.
pub proof fn lemma_held_jump_takes_off_once(t: Tuning, m: Motion, frames: Seq<Frame>)
    requires
        forall|i: int| 0 < i < frames.len() ==> !(#[trigger] frames[i]).input.jump.pressed_now(),
    ensures
        takeoffs(t, m, frames) <= 1,
    decreases frames.len(),
{
    if frames.len() > 0 {
        let head = frames.drop_last();
        assert forall|i: int| 0 < i < head.len() implies !(#[trigger] head[i]).input.jump.pressed_now() by {
            assert(head[i] == frames[i]);
        }
        lemma_held_jump_takes_off_once(t, m, head);
        if frames.len() >= 2 {
            lemma_transitions(t, run(t, m, head), frames.last());
        }
    }
}

} // verus!
