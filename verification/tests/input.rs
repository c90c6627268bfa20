use platformer::input::{ActionState, FrameInput, ResolverFeedback};

fn keys(move_left: ActionState, move_right: ActionState) -> FrameInput {
    FrameInput { move_left, move_right, jump: ActionState::Released }
}

#[test]
fn from_sample_resolves_backend_flags() {
    assert_eq!(ActionState::from_sample(false, false), ActionState::Released);
    assert_eq!(ActionState::from_sample(true, false), ActionState::Held);
    assert_eq!(ActionState::from_sample(true, true), ActionState::JustPressed);
    assert_eq!(ActionState::from_sample(false, true), ActionState::JustPressed);
}

#[test]
fn a_key_is_down_from_its_press_on() {
    assert!(!ActionState::Released.is_down());
    assert!(ActionState::Held.is_down());
    assert!(ActionState::JustPressed.is_down());
}

#[test]
fn only_a_fresh_press_is_just_pressed() {
    assert!(!ActionState::Released.is_just_pressed());
    assert!(!ActionState::Held.is_just_pressed());
    assert!(ActionState::JustPressed.is_just_pressed());
}

#[test]
fn horizontal_is_zero_without_keys() {
    assert_eq!(keys(ActionState::Released, ActionState::Released).horizontal(), 0);
}

#[test]
fn horizontal_follows_the_single_key_down() {
    assert_eq!(keys(ActionState::Held, ActionState::Released).horizontal(), -1);
    assert_eq!(keys(ActionState::JustPressed, ActionState::Released).horizontal(), -1);
    assert_eq!(keys(ActionState::Released, ActionState::Held).horizontal(), 1);
    assert_eq!(keys(ActionState::Released, ActionState::JustPressed).horizontal(), 1);
}

#[test]
fn horizontal_is_zero_when_both_keys_are_down() {
    assert_eq!(keys(ActionState::Held, ActionState::Held).horizontal(), 0);
    assert_eq!(keys(ActionState::Held, ActionState::JustPressed).horizontal(), 0);
    assert_eq!(keys(ActionState::JustPressed, ActionState::Held).horizontal(), 0);
    assert_eq!(keys(ActionState::JustPressed, ActionState::JustPressed).horizontal(), 0);
}

#[test]
fn horizontal_ignores_the_jump_key() {
    let input = FrameInput {
        move_left: ActionState::Released,
        move_right: ActionState::Held,
        jump: ActionState::JustPressed,
    };
    assert_eq!(input.horizontal(), 1);
}

#[test]
fn feedback_is_consistent_when_it_says_one_of_grounded_and_airborne() {
    let report = |grounded, airborne| ResolverFeedback {
        grounded,
        airborne,
        ceiling: false,
        wall: false,
    };
    assert!(report(true, false).is_consistent());
    assert!(report(false, true).is_consistent());
    assert!(!report(true, true).is_consistent());
    assert!(!report(false, false).is_consistent());
}

#[test]
fn ground_contact_needs_an_uncontradicted_report() {
    let report = |grounded, airborne| ResolverFeedback {
        grounded,
        airborne,
        ceiling: true,
        wall: true,
    };
    assert!(report(true, false).ground_contact());
    assert!(!report(false, true).ground_contact());
    assert!(!report(true, true).ground_contact());
    assert!(!report(false, false).ground_contact());
}
