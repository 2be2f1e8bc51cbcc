use super_snack_bros::engine::input::{
    input_action_index, input_controller_state_to_action_state, input_init,
    input_is_action_just_pressed, input_is_action_just_released, input_is_action_pressed,
    input_is_start_just_pressed, input_update, ControllerState, InputAction, InputPlayer,
    INPUT_TOTAL_COUNT,
};

const ACTIONS: [InputAction; 6] = [
    InputAction::Up,
    InputAction::Right,
    InputAction::Down,
    InputAction::Left,
    InputAction::A,
    InputAction::B,
];
const PLAYERS: [InputPlayer; 2] = [InputPlayer::One, InputPlayer::Two];

fn released() -> ControllerState {
    ControllerState {
        connected: true,
        system_one_player: false,
        system_two_player: false,
        player1_up: false,
        player1_down: false,
        player1_left: false,
        player1_right: false,
        player1_a: false,
        player1_b: false,
        player2_up: false,
        player2_down: false,
        player2_left: false,
        player2_right: false,
        player2_a: false,
        player2_b: false,
    }
}

#[test]
fn action_index_layout() {
    assert_eq!(input_action_index(InputPlayer::One, InputAction::Up), 0);
    assert_eq!(input_action_index(InputPlayer::One, InputAction::B), 5);
    assert_eq!(input_action_index(InputPlayer::Two, InputAction::Up), 6);
    assert_eq!(input_action_index(InputPlayer::Two, InputAction::Right), 7);
    assert_eq!(input_action_index(InputPlayer::Two, InputAction::Left), 9);
    assert_eq!(input_action_index(InputPlayer::Two, InputAction::B), 11);
}

#[test]
fn action_index_is_a_bijection() {
    let mut seen = [false; INPUT_TOTAL_COUNT];
    for player in PLAYERS {
        for action in ACTIONS {
            let i = input_action_index(player, action);
            assert!(!seen[i]);
            seen[i] = true;
        }
    }
    assert!(seen.iter().all(|s| *s));
}

#[test]
fn controller_state_maps_to_actions() {
    let mut state = released();
    state.player1_right = true;
    state.player2_a = true;
    state.system_one_player = true;
    let current = input_controller_state_to_action_state(&state);
    for i in 0..INPUT_TOTAL_COUNT {
        let expected = i == input_action_index(InputPlayer::One, InputAction::Right)
            || i == input_action_index(InputPlayer::Two, InputAction::A);
        assert_eq!(current[i], expected);
    }
}

#[test]
fn init_reports_current_and_nothing_before() {
    let mut state = released();
    state.player2_up = true;
    let input = input_init(&state);
    assert!(input_is_action_pressed(&input, InputPlayer::Two, InputAction::Up));
    assert!(input_is_action_just_pressed(&input, InputPlayer::Two, InputAction::Up));
    assert!(!input_is_action_pressed(&input, InputPlayer::One, InputAction::Up));
    assert!(input.previous.iter().all(|b| !*b));
}

#[test]
fn press_hold_release_sequence() {
    let mut input = input_init(&released());
    let mut held = released();
    held.player1_a = true;

    input_update(&mut input, &held);
    assert!(input_is_action_pressed(&input, InputPlayer::One, InputAction::A));
    assert!(input_is_action_just_pressed(&input, InputPlayer::One, InputAction::A));
    assert!(!input_is_action_just_released(&input, InputPlayer::One, InputAction::A));

    input_update(&mut input, &held);
    assert!(input_is_action_pressed(&input, InputPlayer::One, InputAction::A));
    assert!(!input_is_action_just_pressed(&input, InputPlayer::One, InputAction::A));
    assert!(!input_is_action_just_released(&input, InputPlayer::One, InputAction::A));

    input_update(&mut input, &released());
    assert!(!input_is_action_pressed(&input, InputPlayer::One, InputAction::A));
    assert!(!input_is_action_just_pressed(&input, InputPlayer::One, InputAction::A));
    assert!(input_is_action_just_released(&input, InputPlayer::One, InputAction::A));

    input_update(&mut input, &released());
    assert!(!input_is_action_just_released(&input, InputPlayer::One, InputAction::A));
}

#[test]
fn players_are_independent() {
    let mut input = input_init(&released());
    let mut state = released();
    state.player2_left = true;
    input_update(&mut input, &state);
    assert!(input_is_action_pressed(&input, InputPlayer::Two, InputAction::Left));
    assert!(!input_is_action_pressed(&input, InputPlayer::One, InputAction::Left));
}

#[test]
fn never_just_pressed_and_just_released() {
    let states = [released(), {
        let mut s = released();
        s.player1_up = true;
        s.player2_b = true;
        s
    }];
    for a in 0..2 {
        for b in 0..2 {
            let mut input = input_init(&states[a]);
            input_update(&mut input, &states[b]);
            for player in PLAYERS {
                for action in ACTIONS {
                    assert!(
                        !(input_is_action_just_pressed(&input, player, action)
                            && input_is_action_just_released(&input, player, action))
                    );
                }
            }
        }
    }
}

#[test]
fn enum_indices() {
    assert_eq!(InputAction::Left.index(), 3);
    assert_eq!(InputPlayer::Two.index(), 1);
}

#[test]
fn player_two_right_alone() {
    let mut state = released();
    state.player2_right = true;
    let current = input_controller_state_to_action_state(&state);
    assert_eq!(
        current,
        [false, false, false, false, false, false, false, true, false, false, false, false]
    );
}

#[test]
fn start_buttons_are_the_system_buttons() {
    let mut input = input_init(&released());
    assert!(!input_is_start_just_pressed(&input, InputPlayer::One));
    let mut state = released();
    state.system_two_player = true;
    input_update(&mut input, &state);
    assert!(input_is_start_just_pressed(&input, InputPlayer::Two));
    assert!(!input_is_start_just_pressed(&input, InputPlayer::One));
    // the start buttons take no place among the players' buttons
    assert!(input.current.iter().all(|b| !*b));
    state.system_one_player = true;
    input_update(&mut input, &state);
    assert!(input_is_start_just_pressed(&input, InputPlayer::One));
    assert!(!input_is_start_just_pressed(&input, InputPlayer::Two));
}

#[test]
fn start_held_at_init_reads_as_just_pressed() {
    let mut state = released();
    state.system_one_player = true;
    let input = input_init(&state);
    assert!(input_is_start_just_pressed(&input, InputPlayer::One));
}
