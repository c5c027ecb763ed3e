use game::characters::character_controller::{
    is_grounded, keyboard_input, movement_plan, velocity_change, Heading, KeyboardState,
    MovementAction, PushRate, TurnDirection, VelocityChange,
};

fn keys() -> KeyboardState {
    KeyboardState::default()
}

#[test]
fn no_keys_no_actions() {
    assert_eq!(keyboard_input(&keys()), vec![]);
}

#[test]
fn each_key_alone() {
    let cases = [
        (KeyboardState { key_w: true, ..keys() }, vec![MovementAction::MoveForward]),
        (KeyboardState { arrow_up: true, ..keys() }, vec![MovementAction::MoveForward]),
        (KeyboardState { key_s: true, ..keys() }, vec![MovementAction::MoveBackward]),
        (KeyboardState { arrow_down: true, ..keys() }, vec![MovementAction::MoveBackward]),
        (KeyboardState { key_q: true, ..keys() }, vec![MovementAction::StrafeLeft]),
        (KeyboardState { key_e: true, ..keys() }, vec![MovementAction::StrafeRight]),
        (KeyboardState { key_a: true, ..keys() }, vec![MovementAction::TurnLeft]),
        (KeyboardState { key_d: true, ..keys() }, vec![MovementAction::TurnRight]),
        (KeyboardState { space_just_pressed: true, ..keys() }, vec![MovementAction::Jump]),
    ];
    for (k, expected) in cases {
        assert_eq!(keyboard_input(&k), expected);
    }
}

#[test]
fn arrow_keys_both_strafe_and_turn() {
    assert_eq!(
        keyboard_input(&KeyboardState { arrow_left: true, ..keys() }),
        vec![MovementAction::TurnLeft, MovementAction::StrafeLeft]
    );
    assert_eq!(
        keyboard_input(&KeyboardState { arrow_right: true, ..keys() }),
        vec![MovementAction::TurnRight, MovementAction::StrafeRight]
    );
}

#[test]
fn opposite_keys_cancel() {
    assert_eq!(keyboard_input(&KeyboardState { key_w: true, key_s: true, ..keys() }), vec![]);
    assert_eq!(keyboard_input(&KeyboardState { arrow_up: true, key_s: true, ..keys() }), vec![]);
    assert_eq!(keyboard_input(&KeyboardState { key_q: true, key_e: true, ..keys() }), vec![]);
    assert_eq!(keyboard_input(&KeyboardState { key_a: true, key_d: true, ..keys() }), vec![]);
    // The right arrow turns right, A turns left: the turn cancels, the strafe stays.
    assert_eq!(
        keyboard_input(&KeyboardState { arrow_right: true, key_a: true, ..keys() }),
        vec![MovementAction::StrafeRight]
    );
}

#[test]
fn actions_come_in_axis_order_with_jump_last() {
    let k = KeyboardState { key_d: true, key_e: true, key_w: true, space_just_pressed: true, ..keys() };
    assert_eq!(
        keyboard_input(&k),
        vec![
            MovementAction::TurnRight,
            MovementAction::StrafeRight,
            MovementAction::MoveForward,
            MovementAction::Jump
        ]
    );
}

#[test]
fn everything_held_only_jumps() {
    let k = KeyboardState {
        key_w: true,
        key_s: true,
        key_a: true,
        key_d: true,
        key_q: true,
        key_e: true,
        arrow_up: true,
        arrow_down: true,
        arrow_left: true,
        arrow_right: true,
        space_just_pressed: true,
    };
    assert_eq!(keyboard_input(&k), vec![MovementAction::Jump]);
}

#[test]
fn velocity_change_of_each_action() {
    for grounded in [false, true] {
        assert_eq!(
            velocity_change(MovementAction::TurnLeft, grounded),
            Some(VelocityChange::Turn(TurnDirection::Left))
        );
        assert_eq!(
            velocity_change(MovementAction::TurnRight, grounded),
            Some(VelocityChange::Turn(TurnDirection::Right))
        );
        assert_eq!(
            velocity_change(MovementAction::MoveForward, grounded),
            Some(VelocityChange::Push { heading: Heading::Forward, rate: PushRate::Forward })
        );
        assert_eq!(
            velocity_change(MovementAction::MoveBackward, grounded),
            Some(VelocityChange::Push { heading: Heading::Back, rate: PushRate::Backward })
        );
        assert_eq!(
            velocity_change(MovementAction::StrafeLeft, grounded),
            Some(VelocityChange::Push { heading: Heading::Left, rate: PushRate::Strafe })
        );
        assert_eq!(
            velocity_change(MovementAction::StrafeRight, grounded),
            Some(VelocityChange::Push { heading: Heading::Right, rate: PushRate::Strafe })
        );
    }
}

#[test]
fn jump_only_on_the_ground() {
    assert_eq!(velocity_change(MovementAction::Jump, true), Some(VelocityChange::Jump));
    assert_eq!(velocity_change(MovementAction::Jump, false), None);
}

#[test]
fn plan_keeps_order_and_drops_airborne_jumps() {
    let actions = vec![MovementAction::Jump, MovementAction::MoveForward, MovementAction::TurnLeft];
    let forward = VelocityChange::Push { heading: Heading::Forward, rate: PushRate::Forward };
    let left = VelocityChange::Turn(TurnDirection::Left);
    assert_eq!(movement_plan(&actions, true), vec![VelocityChange::Jump, forward, left]);
    assert_eq!(movement_plan(&actions, false), vec![forward, left]);
    assert_eq!(movement_plan(&vec![], true), vec![]);
}

#[test]
fn plan_of_concatenation_is_concatenation_of_plans() {
    let a = vec![MovementAction::StrafeLeft, MovementAction::Jump];
    let b = vec![MovementAction::Jump, MovementAction::MoveBackward];
    for grounded in [false, true] {
        let mut ab = a.clone();
        ab.extend(b.iter().copied());
        let mut expected = movement_plan(&a, grounded);
        expected.extend(movement_plan(&b, grounded));
        assert_eq!(movement_plan(&ab, grounded), expected);
    }
}

#[test]
fn grounded_when_some_hit_is_gentle() {
    assert!(!is_grounded(&vec![]));
    assert!(!is_grounded(&vec![false, false]));
    assert!(is_grounded(&vec![false, true, false]));
    assert!(is_grounded(&vec![true]));
}
