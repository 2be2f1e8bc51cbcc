use vstd::prelude::*;

verus! {

/// Number of variants of [`InputAction`].
pub const INPUT_ACTION_COUNT: usize = 6;

/// Number of variants of [`InputPlayer`].
pub const INPUT_PLAYER_COUNT: usize = 2;

/// Number of (player, action) pairs tracked.
pub const INPUT_TOTAL_COUNT: usize = 12;

#[derive(Debug, Copy, Clone, PartialEq, Eq, Structural)]
pub enum InputAction {
    Up,
    Right,
    Down,
    Left,
    A,
    B,
}

#[derive(Debug, Copy, Clone, PartialEq, Eq, Structural)]
pub enum InputPlayer {
    One,
    Two,
}

impl InputAction {
    pub open spec fn spec_index(self) -> usize {
        match self {
            InputAction::Up => 0,
            InputAction::Right => 1,
            InputAction::Down => 2,
            InputAction::Left => 3,
            InputAction::A => 4,
            InputAction::B => 5,
        }
    }

    /// Position of the action among a player's actions.
    pub fn index(self) -> (i: usize)
        ensures
            i == self.spec_index(),
            i < INPUT_ACTION_COUNT,
    {
        match self {
            InputAction::Up => 0,
            InputAction::Right => 1,
            InputAction::Down => 2,
            InputAction::Left => 3,
            InputAction::A => 4,
            InputAction::B => 5,
        }
    }
}

impl InputPlayer {
    pub open spec fn spec_index(self) -> usize {
        match self {
            InputPlayer::One => 0,
            InputPlayer::Two => 1,
        }
    }

    /// Position of the player.
    pub fn index(self) -> (i: usize)
        ensures
            i == self.spec_index(),
            i < INPUT_PLAYER_COUNT,
    {
        match self {
            InputPlayer::One => 0,
            InputPlayer::Two => 1,
        }
    }
}

/// The buttons of the classic arcade controller, as it reports them.
#[derive(Debug, Copy, Clone, PartialEq, Eq, Structural)]
pub struct ControllerState {
    pub connected: bool,
    pub system_one_player: bool,
    pub system_two_player: bool,
    pub player1_up: bool,
    pub player1_down: bool,
    pub player1_left: bool,
    pub player1_right: bool,
    pub player1_a: bool,
    pub player1_b: bool,
    pub player2_up: bool,
    pub player2_down: bool,
    pub player2_left: bool,
    pub player2_right: bool,
    pub player2_a: bool,
    pub player2_b: bool,
}

impl ControllerState {
    /// Whether the controller reports the cabinet's start button of `player` as held.
    pub open spec fn spec_start_pressed(self, player: InputPlayer) -> bool {
        match player {
            InputPlayer::One => self.system_one_player,
            InputPlayer::Two => self.system_two_player,
        }
    }

    /// Whether the controller reports the button of `action` for `player` as held.
    pub open spec fn spec_pressed(self, player: InputPlayer, action: InputAction) -> bool {
        match player {
            InputPlayer::One => match action {
                InputAction::Up => self.player1_up,
                InputAction::Right => self.player1_right,
                InputAction::Down => self.player1_down,
                InputAction::Left => self.player1_left,
                InputAction::A => self.player1_a,
                InputAction::B => self.player1_b,
            },
            InputPlayer::Two => match action {
                InputAction::Up => self.player2_up,
                InputAction::Right => self.player2_right,
                InputAction::Down => self.player2_down,
                InputAction::Left => self.player2_left,
                InputAction::A => self.player2_a,
                InputAction::B => self.player2_b,
            },
        }
    }
}

/// The state of every button in this update and in the one before: the
/// players' buttons in `current` and `previous`, laid out by
/// `input_action_index`, and each player's start button on the cabinet in
/// `start_current` and `start_previous`, by `InputPlayer::index`.
pub struct Input {
    pub current: [bool; INPUT_TOTAL_COUNT],
    pub previous: [bool; INPUT_TOTAL_COUNT],
    pub start_current: [bool; INPUT_PLAYER_COUNT],
    pub start_previous: [bool; INPUT_PLAYER_COUNT],
}

pub open spec fn spec_input_action_index(player: InputPlayer, action: InputAction) -> int {
    player.spec_index() * INPUT_ACTION_COUNT + action.spec_index()
}

/// `buttons` holds, at the place of every (player, action) pair, whether the
/// controller reports that button as held.
pub open spec fn spec_reports(buttons: Seq<bool>, state: ControllerState) -> bool {
    &&& buttons.len() == INPUT_TOTAL_COUNT
    &&& forall|player: InputPlayer, action: InputAction|
        #[trigger] buttons[spec_input_action_index(player, action)] == state.spec_pressed(
            player,
            action,
        )
}

/// `buttons` holds, at each player's place, whether the controller reports
/// that player's start button as held.
pub open spec fn spec_reports_start(buttons: Seq<bool>, state: ControllerState) -> bool {
    &&& buttons.len() == INPUT_PLAYER_COUNT
    &&& forall|player: InputPlayer|
        #[trigger] buttons[player.spec_index() as int] == state.spec_start_pressed(player)
}

impl Input {
    pub open spec fn spec_start_just_pressed(&self, player: InputPlayer) -> bool {
        self.start_current@[player.spec_index() as int] && !self.start_previous@[
            player.spec_index() as int
        ]
    }

    pub open spec fn spec_pressed(&self, player: InputPlayer, action: InputAction) -> bool {
        self.current@[spec_input_action_index(player, action)]
    }

    pub open spec fn spec_was_pressed(&self, player: InputPlayer, action: InputAction) -> bool {
        self.previous@[spec_input_action_index(player, action)]
    }

    pub open spec fn spec_just_pressed(&self, player: InputPlayer, action: InputAction) -> bool {
        self.spec_pressed(player, action) && !self.spec_was_pressed(player, action)
    }

    pub open spec fn spec_just_released(&self, player: InputPlayer, action: InputAction) -> bool {
        !self.spec_pressed(player, action) && self.spec_was_pressed(player, action)
    }
}

/// Where the state of `action` for `player` is kept.
pub fn input_action_index(player: InputPlayer, action: InputAction) -> (i: usize)
    ensures
        i == spec_input_action_index(player, action),
        i < INPUT_TOTAL_COUNT,
{
    (player.index() * INPUT_ACTION_COUNT) + action.index()
}

/// Records whether the button of `action` for `player` is held.
fn with_action_state(
    current: [bool; INPUT_TOTAL_COUNT],
    player: InputPlayer,
    action: InputAction,
    held: bool,
) -> (next: [bool; INPUT_TOTAL_COUNT])
    ensures
        next@ == current@.update(spec_input_action_index(player, action), held),
{
    let mut next = current;
    next[input_action_index(player, action)] = held;
    next
}

/// The held buttons the controller reports, laid out by `input_action_index`.
pub fn input_controller_state_to_action_state(state: &ControllerState) -> (current: [bool;
    INPUT_TOTAL_COUNT])
    ensures
        spec_reports(current@, *state),
{
    let mut current = [false; INPUT_TOTAL_COUNT];

    current = with_action_state(current, InputPlayer::One, InputAction::Up, state.player1_up);
    current = with_action_state(current, InputPlayer::One, InputAction::Right, state.player1_right);
    current = with_action_state(current, InputPlayer::One, InputAction::Down, state.player1_down);
    current = with_action_state(current, InputPlayer::One, InputAction::Left, state.player1_left);
    current = with_action_state(current, InputPlayer::One, InputAction::A, state.player1_a);
    current = with_action_state(current, InputPlayer::One, InputAction::B, state.player1_b);

    current = with_action_state(current, InputPlayer::Two, InputAction::Up, state.player2_up);
    current = with_action_state(current, InputPlayer::Two, InputAction::Right, state.player2_right);
    current = with_action_state(current, InputPlayer::Two, InputAction::Down, state.player2_down);
    current = with_action_state(current, InputPlayer::Two, InputAction::Left, state.player2_left);
    current = with_action_state(current, InputPlayer::Two, InputAction::A, state.player2_a);
    current = with_action_state(current, InputPlayer::Two, InputAction::B, state.player2_b);

    current
}

/// The start buttons the controller reports, by `InputPlayer::index`.
fn input_controller_state_to_start_state(state: &ControllerState) -> (start: [bool;
    INPUT_PLAYER_COUNT])
    ensures
        spec_reports_start(start@, *state),
{
    let start = [state.system_one_player, state.system_two_player];
    assert(start@[0] == state.system_one_player && start@[1] == state.system_two_player);
    start
}

/// The input state right after the controller is acquired: what it reports
/// now, with nothing held before.
pub fn input_init(state: &ControllerState) -> (input: Input)
    ensures
        spec_reports(input.current@, *state),
        forall|i: int| 0 <= i < INPUT_TOTAL_COUNT ==> !#[trigger] input.previous@[i],
        spec_reports_start(input.start_current@, *state),
        forall|i: int| 0 <= i < INPUT_PLAYER_COUNT ==> !#[trigger] input.start_previous@[i],
{
    let current = input_controller_state_to_action_state(state);
    let start_current = input_controller_state_to_start_state(state);
    Input {
        current,
        previous: [false; INPUT_TOTAL_COUNT],
        start_current,
        start_previous: [false; INPUT_PLAYER_COUNT],
    }
}

/// Takes in a new controller reading: the current state becomes the previous one.
pub fn input_update(input: &mut Input, state: &ControllerState)
    ensures
        final(input).previous@ == old(input).current@,
        spec_reports(final(input).current@, *state),
        final(input).start_previous@ == old(input).start_current@,
        spec_reports_start(final(input).start_current@, *state),
{
    let current = input_controller_state_to_action_state(state);
    input.previous = input.current;
    input.current = current;
    let start_current = input_controller_state_to_start_state(state);
    input.start_previous = input.start_current;
    input.start_current = start_current;
}

/// Whether the button is held in this update.
pub fn input_is_action_pressed(input: &Input, player: InputPlayer, action: InputAction) -> (b: bool)
    ensures
        b == input.spec_pressed(player, action),
{
    let index = input_action_index(player, action);
    input.current[index]
}

/// Whether the button is held in this update and was not in the one before.
pub fn input_is_action_just_pressed(input: &Input, player: InputPlayer, action: InputAction) -> (b:
    bool)
    ensures
        b == input.spec_just_pressed(player, action),
{
    let index = input_action_index(player, action);
    input.current[index] && !input.previous[index]
}

/// Whether the player's start button is held in this update and was not in the one before.
pub fn input_is_start_just_pressed(input: &Input, player: InputPlayer) -> (b: bool)
    ensures
        b == input.spec_start_just_pressed(player),
{
    let index = player.index();
    input.start_current[index] && !input.start_previous[index]
}

/// Whether the button was held in the update before and is not in this one.
pub fn input_is_action_just_released(input: &Input, player: InputPlayer, action: InputAction) -> (b:
    bool)
    ensures
        b == input.spec_just_released(player, action),
{
    let index = input_action_index(player, action);
    !input.current[index] && input.previous[index]
}

/// Distinct (player, action) pairs are kept in distinct places, and every place
/// belongs to a pair.
pub proof fn law_action_index_is_bijective(
    p1: InputPlayer,
    a1: InputAction,
    p2: InputPlayer,
    a2: InputAction,
    i: usize,
)
    ensures
        spec_input_action_index(p1, a1) == spec_input_action_index(p2, a2) ==> p1 == p2 && a1
            == a2,
        i < INPUT_TOTAL_COUNT ==> exists|p: InputPlayer, a: InputAction|
            spec_input_action_index(p, a) == i as int,
{
    if i < INPUT_TOTAL_COUNT {
        let p = if i < 6 { InputPlayer::One } else { InputPlayer::Two };
        let j = if i < 6 { i } else { (i - 6) as usize };
        let a = if j == 0 {
            InputAction::Up
        } else if j == 1 {
            InputAction::Right
        } else if j == 2 {
            InputAction::Down
        } else if j == 3 {
            InputAction::Left
        } else if j == 4 {
            InputAction::A
        } else {
            InputAction::B
        };
        assert(spec_input_action_index(p, a) == i as int);
    }
}

/// After a controller reading is taken in, a button reads as pressed exactly
/// when the controller reports it held, and as just pressed (just released)
/// exactly when it changed from released to held (held to released); a start
/// button reads as just pressed exactly when it changed from released to held.
pub proof fn law_update_reads_back(
    before: Input,
    after: Input,
    state: ControllerState,
    player: InputPlayer,
    action: InputAction,
)
    requires
        after.previous@ == before.current@,
        spec_reports(after.current@, state),
        after.start_previous@ == before.start_current@,
        spec_reports_start(after.start_current@, state),
    ensures
        after.spec_start_just_pressed(player) == (state.spec_start_pressed(player)
            && !before.start_current@[player.spec_index() as int]),
        after.spec_pressed(player, action) == state.spec_pressed(player, action),
        after.spec_was_pressed(player, action) == before.spec_pressed(player, action),
        after.spec_just_pressed(player, action) == (state.spec_pressed(player, action)
            && !before.spec_pressed(player, action)),
        after.spec_just_released(player, action) == (!state.spec_pressed(player, action)
            && before.spec_pressed(player, action)),
{
}

/// A button is never both just pressed and just released.
pub proof fn law_just_pressed_and_released_exclusive(
    input: Input,
    player: InputPlayer,
    action: InputAction,
)
    ensures
        !(input.spec_just_pressed(player, action) && input.spec_just_released(player, action)),
        input.spec_just_pressed(player, action) ==> input.spec_pressed(player, action),
        input.spec_just_released(player, action) ==> !input.spec_pressed(player, action),
{
}

/// Two readings in a row of the same controller state leave no button just
/// pressed or just released: holding a button reports one press, not one per update.
pub proof fn law_steady_state_has_no_edges(
    input: Input,
    state: ControllerState,
    player: InputPlayer,
    action: InputAction,
)
    requires
        spec_reports(input.previous@, state),
        spec_reports(input.current@, state),
    ensures
        !input.spec_just_pressed(player, action),
        !input.spec_just_released(player, action),
{
}

} // verus!
