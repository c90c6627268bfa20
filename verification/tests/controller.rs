use platformer::config::MotionConfig;
use platformer::controller::{Displacement, FrameError, PlayerState, VerticalState};
use platformer::input::{ActionState, FrameInput, ResolverFeedback};

const TENTH_OF_A_SECOND: i64 = 100_000;

fn no_keys() -> FrameInput {
    FrameInput {
        move_left: ActionState::Released,
        move_right: ActionState::Released,
        jump: ActionState::Released,
    }
}

fn jump_pressed() -> FrameInput {
    FrameInput { jump: ActionState::JustPressed, ..no_keys() }
}

fn in_air() -> ResolverFeedback {
    ResolverFeedback { grounded: false, airborne: true, ceiling: false, wall: false }
}

fn on_ground() -> ResolverFeedback {
    ResolverFeedback { grounded: true, airborne: false, ceiling: false, wall: false }
}

fn contradictory() -> ResolverFeedback {
    ResolverFeedback { grounded: true, airborne: true, ceiling: false, wall: false }
}

fn rising_at(risen: u64) -> PlayerState {
    PlayerState::rising(MotionConfig::default(), risen).expect("below the jump height")
}

#[test]
fn a_new_player_stands_on_the_ground() {
    let player = PlayerState::new(MotionConfig::default());
    assert_eq!(player.vertical(), VerticalState::Grounded);
    assert_eq!(player.accumulated_rise(), None);
    assert_eq!(player.config().rise_speed(), 850);
}

#[test]
fn a_player_keeps_the_constants_it_was_made_with() {
    let config = MotionConfig::new(1, 2, 3, 4).expect("valid constants");
    let mut player = PlayerState::new(config);
    player.on_frame(jump_pressed(), 5, in_air()).expect("delta is not negative");
    let kept = player.config();
    assert_eq!(kept.move_speed(), 1);
    assert_eq!(kept.rise_speed(), 2);
    assert_eq!(kept.fall_divisor_milli(), 3);
    assert_eq!(kept.max_jump_height(), 4);
    assert_eq!(player.accumulated_rise(), Some(10));
}

#[test]
fn rising_is_refused_at_or_above_the_jump_height() {
    let config = MotionConfig::default();
    assert!(PlayerState::rising(config, 229_999_999).is_some());
    assert!(PlayerState::rising(config, 230_000_000).is_none());
    assert!(PlayerState::rising(config, u64::MAX).is_none());
}

#[test]
fn rising_records_the_distance_given() {
    let player = rising_at(200_000_000);
    assert_eq!(player.vertical(), VerticalState::Rising);
    assert_eq!(player.accumulated_rise(), Some(200_000_000));
}

#[test]
fn falling_has_no_distance_on_record() {
    let player = PlayerState::falling(MotionConfig::default());
    assert_eq!(player.vertical(), VerticalState::Falling);
    assert_eq!(player.accumulated_rise(), None);
}

#[test]
fn jump_press_on_the_ground_starts_rising() {
    let mut player = PlayerState::new(MotionConfig::default());
    let moved = player.on_frame(jump_pressed(), TENTH_OF_A_SECOND, on_ground());
    assert_eq!(moved, Ok(Displacement { dx: 0, dy: 85_000_000 }));
    assert_eq!(player.vertical(), VerticalState::Rising);
    assert_eq!(player.accumulated_rise(), Some(85_000_000));
}

#[test]
fn rise_is_cut_at_the_jump_height() {
    let mut player = rising_at(200_000_000);
    let moved = player.on_frame(no_keys(), TENTH_OF_A_SECOND, in_air());
    assert_eq!(moved, Ok(Displacement { dx: 0, dy: 30_000_000 }));
    assert_eq!(player.vertical(), VerticalState::Falling);
    assert_eq!(player.accumulated_rise(), None);
}

#[test]
fn rise_that_meets_the_height_exactly_turns_to_falling() {
    let mut player = rising_at(145_000_000);
    let moved = player.on_frame(no_keys(), TENTH_OF_A_SECOND, in_air());
    assert_eq!(moved, Ok(Displacement { dx: 0, dy: 85_000_000 }));
    assert_eq!(player.vertical(), VerticalState::Falling);
}

#[test]
fn rise_just_short_of_the_height_goes_on() {
    let mut player = rising_at(144_999_999);
    let moved = player.on_frame(no_keys(), TENTH_OF_A_SECOND, in_air());
    assert_eq!(moved, Ok(Displacement { dx: 0, dy: 85_000_000 }));
    assert_eq!(player.vertical(), VerticalState::Rising);
    assert_eq!(player.accumulated_rise(), Some(229_999_999));
}

#[test]
fn falling_lands_on_reported_contact() {
    let mut player = PlayerState::falling(MotionConfig::default());
    let moved = player.on_frame(no_keys(), TENTH_OF_A_SECOND, on_ground());
    assert_eq!(moved, Ok(Displacement { dx: 0, dy: -56_666_666 }));
    assert_eq!(player.vertical(), VerticalState::Grounded);
    assert_eq!(player.accumulated_rise(), None);
}

#[test]
fn falling_lands_on_contact_whatever_the_delta() {
    for delta in [0_i64, 1, 16_667, 1_000_000, i64::MAX] {
        let mut player = PlayerState::falling(MotionConfig::default());
        let moved = player.on_frame(no_keys(), delta, on_ground()).expect("delta is not negative");
        assert_eq!(moved.dy, -((delta as i128) * 850 * 1000 / 1500));
        assert_eq!(player.vertical(), VerticalState::Grounded);
    }
}

#[test]
fn falling_goes_on_without_contact() {
    let mut player = PlayerState::falling(MotionConfig::default());
    let moved = player.on_frame(no_keys(), 3, in_air());
    assert_eq!(moved, Ok(Displacement { dx: 0, dy: -1_700 }));
    assert_eq!(player.vertical(), VerticalState::Falling);
}

#[test]
fn fall_distance_is_rounded_down() {
    let config = MotionConfig::new(400, 850, 3000, 230).expect("valid constants");
    let mut player = PlayerState::falling(config);
    let moved = player.on_frame(no_keys(), 10, in_air());
    assert_eq!(moved, Ok(Displacement { dx: 0, dy: -2_833 }));
}

#[test]
fn fall_divisor_below_one_speeds_the_fall_up() {
    let config = MotionConfig::new(400, 850, 500, 230).expect("valid constants");
    let mut player = PlayerState::falling(config);
    let moved = player.on_frame(no_keys(), TENTH_OF_A_SECOND, in_air());
    assert_eq!(moved, Ok(Displacement { dx: 0, dy: -170_000_000 }));
}

#[test]
fn contradictory_feedback_keeps_the_player_falling() {
    let mut player = PlayerState::falling(MotionConfig::default());
    let moved = player.on_frame(no_keys(), TENTH_OF_A_SECOND, contradictory());
    assert_eq!(moved, Ok(Displacement { dx: 0, dy: -56_666_666 }));
    assert_eq!(player.vertical(), VerticalState::Falling);
}

#[test]
fn feedback_that_says_neither_keeps_the_player_falling() {
    let neither = ResolverFeedback { grounded: false, airborne: false, ceiling: false, wall: false };
    let mut player = PlayerState::falling(MotionConfig::default());
    player.on_frame(no_keys(), TENTH_OF_A_SECOND, neither).expect("delta is not negative");
    assert_eq!(player.vertical(), VerticalState::Falling);
}

#[test]
fn contradictory_feedback_does_not_stop_a_rise() {
    let mut player = rising_at(10_000_000);
    let moved = player.on_frame(no_keys(), TENTH_OF_A_SECOND, contradictory());
    assert_eq!(moved, Ok(Displacement { dx: 0, dy: 85_000_000 }));
    assert_eq!(player.accumulated_rise(), Some(95_000_000));
}

#[test]
fn contact_while_rising_lands_in_the_same_frame() {
    let mut player = rising_at(10_000_000);
    let moved = player.on_frame(no_keys(), TENTH_OF_A_SECOND, on_ground());
    assert_eq!(moved, Ok(Displacement { dx: 0, dy: -56_666_666 }));
    assert_eq!(player.vertical(), VerticalState::Grounded);
    assert_eq!(player.accumulated_rise(), None);
}

#[test]
fn the_frame_that_starts_a_jump_ignores_contact() {
    for feedback in [on_ground(), in_air(), contradictory()] {
        let mut player = PlayerState::new(MotionConfig::default());
        let moved = player.on_frame(jump_pressed(), TENTH_OF_A_SECOND, feedback);
        assert_eq!(moved, Ok(Displacement { dx: 0, dy: 85_000_000 }));
        assert_eq!(player.vertical(), VerticalState::Rising);
    }
}

#[test]
fn a_long_frame_takes_a_jump_to_its_height_at_once() {
    let mut player = PlayerState::new(MotionConfig::default());
    let moved = player.on_frame(jump_pressed(), 1_000_000, on_ground());
    assert_eq!(moved, Ok(Displacement { dx: 0, dy: 230_000_000 }));
    assert_eq!(player.vertical(), VerticalState::Falling);
    assert_eq!(player.accumulated_rise(), None);
}

#[test]
fn a_grounded_player_does_not_fall_without_contact() {
    let mut player = PlayerState::new(MotionConfig::default());
    let moved = player.on_frame(no_keys(), TENTH_OF_A_SECOND, in_air());
    assert_eq!(moved, Ok(Displacement { dx: 0, dy: 0 }));
    assert_eq!(player.vertical(), VerticalState::Grounded);
}

#[test]
fn jump_press_in_the_air_starts_nothing() {
    let mut player = PlayerState::falling(MotionConfig::default());
    player.on_frame(jump_pressed(), TENTH_OF_A_SECOND, in_air()).expect("delta is not negative");
    assert_eq!(player.vertical(), VerticalState::Falling);

    let mut player = rising_at(0);
    player.on_frame(jump_pressed(), TENTH_OF_A_SECOND, in_air()).expect("delta is not negative");
    assert_eq!(player.accumulated_rise(), Some(85_000_000));
}

#[test]
fn negative_delta_is_turned_down() {
    let mut player = rising_at(200_000_000);
    let moved = player.on_frame(jump_pressed(), -1, on_ground());
    assert_eq!(moved, Err(FrameError::NegativeDelta));
    assert_eq!(player.vertical(), VerticalState::Rising);
    assert_eq!(player.accumulated_rise(), Some(200_000_000));

    let mut player = PlayerState::new(MotionConfig::default());
    assert_eq!(player.on_frame(jump_pressed(), i64::MIN, on_ground()), Err(FrameError::NegativeDelta));
    assert_eq!(player.vertical(), VerticalState::Grounded);
}

#[test]
fn frame_errors_describe_themselves() {
    assert_eq!(FrameError::NegativeDelta.describe(), "delta must not be negative");
}

#[test]
fn walking_right_and_left() {
    let mut player = PlayerState::new(MotionConfig::default());
    let right = FrameInput { move_right: ActionState::Held, ..no_keys() };
    let left = FrameInput { move_left: ActionState::JustPressed, ..no_keys() };
    assert_eq!(
        player.on_frame(right, TENTH_OF_A_SECOND, on_ground()),
        Ok(Displacement { dx: 40_000_000, dy: 0 })
    );
    assert_eq!(
        player.on_frame(left, TENTH_OF_A_SECOND, on_ground()),
        Ok(Displacement { dx: -40_000_000, dy: 0 })
    );
    assert_eq!(player.vertical(), VerticalState::Grounded);
}

#[test]
fn walking_and_jumping_combine_in_one_frame() {
    let mut player = PlayerState::new(MotionConfig::default());
    let input = FrameInput {
        move_left: ActionState::Held,
        move_right: ActionState::Released,
        jump: ActionState::JustPressed,
    };
    assert_eq!(
        player.on_frame(input, 16_667, on_ground()),
        Ok(Displacement { dx: -6_666_800, dy: 14_166_950 })
    );
}

#[test]
fn the_largest_inputs_do_not_overflow() {
    let config = MotionConfig::new(i32::MAX, i32::MAX, 1, i32::MAX).expect("valid constants");
    let speed = i32::MAX as i128;
    let delta = i64::MAX as i128;

    let mut player = PlayerState::falling(config);
    let right = FrameInput { move_right: ActionState::Held, ..no_keys() };
    let moved = player.on_frame(right, i64::MAX, in_air());
    assert_eq!(moved, Ok(Displacement { dx: delta * speed, dy: -(delta * speed * 1000) }));

    let mut player = PlayerState::new(config);
    let moved = player.on_frame(jump_pressed(), i64::MAX, in_air());
    assert_eq!(moved, Ok(Displacement { dx: 0, dy: speed * 1_000_000 }));
    assert_eq!(player.vertical(), VerticalState::Falling);
}

#[test]
fn a_rise_speed_of_zero_never_leaves_rising() {
    let config = MotionConfig::new(400, 0, 1500, 230).expect("valid constants");
    let mut player = PlayerState::new(config);
    for _ in 0..5 {
        let moved = player.on_frame(jump_pressed(), 1_000_000, in_air());
        assert_eq!(moved, Ok(Displacement { dx: 0, dy: 0 }));
        assert_eq!(player.accumulated_rise(), Some(0));
    }
}
