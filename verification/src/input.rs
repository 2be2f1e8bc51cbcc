//! Single-table input tracking: one action per (player, button) pair.
use vstd::prelude::*;

use crate::engine::input::{ControllerState, InputPlayer};
use crate::engine::input::InputAction as Button;

verus! {

/// Number of real actions (every variant before `Count`).
pub const ACTION_COUNT: usize = 12;

#[derive(Debug, Copy, Clone, PartialEq, Eq, Structural)]
pub enum InputAction {
    PlayerOneUp,
    PlayerOneRight,
    PlayerOneDown,
    PlayerOneLeft,
    PlayerOneA,
    PlayerOneB,
    PlayerTwoUp,
    PlayerTwoRight,
    PlayerTwoDown,
    PlayerTwoLeft,
    PlayerTwoA,
    PlayerTwoB,
    Count,
}

impl InputAction {
    pub open spec fn spec_index(self) -> int {
        match self {
            InputAction::PlayerOneUp => 0,
            InputAction::PlayerOneRight => 1,
            InputAction::PlayerOneDown => 2,
            InputAction::PlayerOneLeft => 3,
            InputAction::PlayerOneA => 4,
            InputAction::PlayerOneB => 5,
            InputAction::PlayerTwoUp => 6,
            InputAction::PlayerTwoRight => 7,
            InputAction::PlayerTwoDown => 8,
            InputAction::PlayerTwoLeft => 9,
            InputAction::PlayerTwoA => 10,
            InputAction::PlayerTwoB => 11,
            InputAction::Count => 12,
        }
    }

    /// The player and button this action stands for (`Count` stands for none).
    pub open spec fn spec_button(self) -> (InputPlayer, Button) {
        match self {
            InputAction::PlayerOneUp => (InputPlayer::One, Button::Up),
            InputAction::PlayerOneRight => (InputPlayer::One, Button::Right),
            InputAction::PlayerOneDown => (InputPlayer::One, Button::Down),
            InputAction::PlayerOneLeft => (InputPlayer::One, Button::Left),
            InputAction::PlayerOneA => (InputPlayer::One, Button::A),
            InputAction::PlayerOneB => (InputPlayer::One, Button::B),
            InputAction::PlayerTwoUp => (InputPlayer::Two, Button::Up),
            InputAction::PlayerTwoRight => (InputPlayer::Two, Button::Right),
            InputAction::PlayerTwoDown => (InputPlayer::Two, Button::Down),
            InputAction::PlayerTwoLeft => (InputPlayer::Two, Button::Left),
            InputAction::PlayerTwoA => (InputPlayer::Two, Button::A),
            InputAction::PlayerTwoB | InputAction::Count => (InputPlayer::Two, Button::B),
        }
    }

    /// Position of the action in the state tables.
    pub fn index(self) -> (i: usize)
        ensures
            i == self.spec_index(),
    {
        match self {
            InputAction::PlayerOneUp => 0,
            InputAction::PlayerOneRight => 1,
            InputAction::PlayerOneDown => 2,
            InputAction::PlayerOneLeft => 3,
            InputAction::PlayerOneA => 4,
            InputAction::PlayerOneB => 5,
            InputAction::PlayerTwoUp => 6,
            InputAction::PlayerTwoRight => 7,
            InputAction::PlayerTwoDown => 8,
            InputAction::PlayerTwoLeft => 9,
            InputAction::PlayerTwoA => 10,
            InputAction::PlayerTwoB => 11,
            InputAction::Count => 12,
        }
    }
}

/// `buttons` holds, at the place of every action, whether the controller
/// reports that action's button as held.
pub open spec fn spec_reports_actions(buttons: Seq<bool>, state: ControllerState) -> bool {
    &&& buttons.len() == ACTION_COUNT
    &&& forall|action: InputAction|
        action != InputAction::Count ==> #[trigger] buttons[action.spec_index()]
            == state.spec_pressed(action.spec_button().0, action.spec_button().1)
}

fn with_action_state(current: [bool; ACTION_COUNT], action: InputAction, held: bool) -> (next: [bool;
    ACTION_COUNT])
    requires
        action != InputAction::Count,
    ensures
        next@ == current@.update(action.spec_index(), held),
{
    let mut next = current;
    next[action.index()] = held;
    next
}

/// The held buttons the controller reports, laid out by `InputAction::index`.
fn input_controller_state_to_action_state(state: &ControllerState) -> (current: [bool;
    ACTION_COUNT])
    ensures
        spec_reports_actions(current@, *state),
{
    let mut current = [false; ACTION_COUNT];

    current = with_action_state(current, InputAction::PlayerOneUp, state.player1_up);
    current = with_action_state(current, InputAction::PlayerOneRight, state.player1_right);
    current = with_action_state(current, InputAction::PlayerOneDown, state.player1_down);
    current = with_action_state(current, InputAction::PlayerOneLeft, state.player1_left);
    current = with_action_state(current, InputAction::PlayerOneA, state.player1_a);
    current = with_action_state(current, InputAction::PlayerOneB, state.player1_b);
    current = with_action_state(current, InputAction::PlayerTwoUp, state.player2_up);
    current = with_action_state(current, InputAction::PlayerTwoRight, state.player2_right);
    current = with_action_state(current, InputAction::PlayerTwoDown, state.player2_down);
    current = with_action_state(current, InputAction::PlayerTwoLeft, state.player2_left);
    current = with_action_state(current, InputAction::PlayerTwoA, state.player2_a);
    current = with_action_state(current, InputAction::PlayerTwoB, state.player2_b);

    current
}

/// The state of every action in this update and in the one before.
pub struct Input {
    pub current: [bool; ACTION_COUNT],
    pub previous: [bool; ACTION_COUNT],
}

impl Input {
    pub open spec fn spec_pressed(&self, action: InputAction) -> bool {
        self.current@[action.spec_index()]
    }

    pub open spec fn spec_was_pressed(&self, action: InputAction) -> bool {
        self.previous@[action.spec_index()]
    }

    /// Takes in a new controller reading: the current state becomes the previous one.
    pub fn update(&mut self, state: &ControllerState)
        ensures
            final(self).previous@ == old(self).current@,
            spec_reports_actions(final(self).current@, *state),
    {
        let current = input_controller_state_to_action_state(state);
        self.previous = self.current;
        self.current = current;
    }

    /// Whether the action's button is held in this update.
    pub fn is_action_pressed(&self, action: InputAction) -> (b: bool)
        requires
            action != InputAction::Count,
        ensures
            b == self.spec_pressed(action),
    {
        self.current[action.index()]
    }

    /// Whether the action's button is held now and was not in the update before.
    pub fn is_action_just_pressed(&self, action: InputAction) -> (b: bool)
        requires
            action != InputAction::Count,
        ensures
            b == (self.spec_pressed(action) && !self.spec_was_pressed(action)),
    {
        self.current[action.index()] && !self.previous[action.index()]
    }

    /// Whether the action's button was held in the update before and is not now.
    pub fn is_action_just_released(&self, action: InputAction) -> (b: bool)
        requires
            action != InputAction::Count,
        ensures
            b == (!self.spec_pressed(action) && self.spec_was_pressed(action)),
    {
        !self.current[action.index()] && self.previous[action.index()]
    }
}

/// The input state right after the controller is acquired: what it reports
/// now, with nothing held before.
pub fn init(state: &ControllerState) -> (input: Input)
    ensures
        spec_reports_actions(input.current@, *state),
        forall|i: int| 0 <= i < ACTION_COUNT ==> !#[trigger] input.previous@[i],
{
    let current = input_controller_state_to_action_state(state);
    Input { current, previous: [false; ACTION_COUNT] }
}

/// Each action other than `Count` reads the controller button it is named after.
pub proof fn law_action_reads_its_button(input: Input, state: ControllerState, action: InputAction)
    requires
        spec_reports_actions(input.current@, state),
        action != InputAction::Count,
    ensures
        input.spec_pressed(action) == state.spec_pressed(action.spec_button().0, action.spec_button().1),
{
}

} // verus!
