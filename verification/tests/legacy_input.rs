use super_snack_bros::engine::input::ControllerState;
use super_snack_bros::input::{init, InputAction};

fn released() -> ControllerState {
    ControllerState {
        connected: true,
        system_one_player: false,
        system_two_player: false,
        player1_up: false,
        player1_down: false,
        player1_left: false,
        player1_right: false,
        player1_a: false,
        player1_b: false,
        player2_up: false,
        player2_down: false,
        player2_left: false,
        player2_right: false,
        player2_a: false,
        player2_b: false,
    }
}

#[test]
fn each_action_reads_its_button() {
    let mut state = released();
    state.player1_down = true;
    state.player2_right = true;
    let input = init(&state);
    assert!(input.is_action_pressed(InputAction::PlayerOneDown));
    assert!(input.is_action_pressed(InputAction::PlayerTwoRight));
    assert!(!input.is_action_pressed(InputAction::PlayerOneRight));
    assert!(!input.is_action_pressed(InputAction::PlayerTwoDown));
}

#[test]
fn update_tracks_edges() {
    let mut input = init(&released());
    let mut state = released();
    state.player2_b = true;
    input.update(&state);
    assert!(input.is_action_just_pressed(InputAction::PlayerTwoB));
    input.update(&state);
    assert!(input.is_action_pressed(InputAction::PlayerTwoB));
    assert!(!input.is_action_just_pressed(InputAction::PlayerTwoB));
    input.update(&released());
    assert!(input.is_action_just_released(InputAction::PlayerTwoB));
    assert!(!input.is_action_pressed(InputAction::PlayerTwoB));
}

#[test]
fn action_indices() {
    assert_eq!(InputAction::PlayerOneUp.index(), 0);
    assert_eq!(InputAction::PlayerTwoUp.index(), 6);
    assert_eq!(InputAction::Count.index(), 12);
}
