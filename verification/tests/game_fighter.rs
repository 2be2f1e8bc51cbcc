use super_snack_bros::engine::animation::Animation;
use super_snack_bros::engine::input::{input_init, input_update, ControllerState, Input, InputPlayer};
use super_snack_bros::engine::render::Sprite;
use super_snack_bros::game::fighter::{
    ControlOutcome, FighterAttack, FighterControl, FighterDirection, FighterInputType, FighterMode,
    FIGHTER_COYOTE_TIMER_DURATION,
};

fn released() -> ControllerState {
    ControllerState {
        connected: true,
        system_one_player: false,
        system_two_player: false,
        player1_up: false,
        player1_down: false,
        player1_left: false,
        player1_right: false,
        player1_a: false,
        player1_b: false,
        player2_up: false,
        player2_down: false,
        player2_left: false,
        player2_right: false,
        player2_a: false,
        player2_b: false,
    }
}

fn up() -> ControllerState {
    let mut s = released();
    s.player1_up = true;
    s
}

fn punch() -> ControllerState {
    let mut s = released();
    s.player1_a = true;
    s
}

fn left() -> ControllerState {
    let mut s = released();
    s.player1_left = true;
    s
}

/// One update of player one's fighter with the given buttons, standing or not afterwards.
fn step(f: &mut FighterControl, input: &mut Input, state: ControllerState, landed: bool) -> ControlOutcome {
    input_update(input, &state);
    let outcome = f.update(input, false);
    f.finish_update(landed);
    outcome
}

fn grounded_fighter() -> (FighterControl, Input) {
    let mut f = FighterControl::new(InputPlayer::One);
    f.is_grounded = true;
    (f, input_init(&released()))
}

#[test]
fn new_fighters_face_each_other() {
    let one = FighterControl::new(InputPlayer::One);
    let two = FighterControl::new(InputPlayer::Two);
    assert_eq!(one.sprite, Sprite::CrabOrange);
    assert_eq!(two.sprite, Sprite::CrabGreen);
    assert_eq!(one.direction, FighterDirection::Right);
    assert_eq!(two.direction, FighterDirection::Left);
    assert_eq!(one.mode, FighterMode::Idle);
    assert_eq!(one.animation.name, Animation::CrabIdle);
    assert!(one.has_double_jump);
    assert!(!one.is_grounded);
    assert!(one.input_queue.is_empty());
    assert_eq!(one.direction.sign(), 1);
    assert_eq!(two.direction.sign(), -1);
}

#[test]
fn expected_animation_follows_state() {
    let (mut f, _) = grounded_fighter();
    assert_eq!(f.get_expected_animation(false), Animation::CrabIdle);
    assert_eq!(f.get_expected_animation(true), Animation::CrabWalk);
    f.is_grounded = false;
    assert_eq!(f.get_expected_animation(true), Animation::CrabFall);
    f.enter_hitstun();
    assert_eq!(f.get_expected_animation(false), Animation::CrabHurt);
}

#[test]
fn ground_jump_then_one_air_jump() {
    let (mut f, mut input) = grounded_fighter();
    let outcome = step(&mut f, &mut input, up(), false);
    assert!(outcome.jumped);
    assert!(f.input_queue.is_empty());
    assert!(f.has_double_jump);
    assert_eq!(f.coyote_timer, 0);

    step(&mut f, &mut input, released(), false);
    let outcome = step(&mut f, &mut input, up(), false);
    assert!(outcome.jumped);
    assert!(!f.has_double_jump);

    step(&mut f, &mut input, released(), false);
    let outcome = step(&mut f, &mut input, up(), false);
    assert!(!outcome.jumped);
    // the jump stays buffered
    assert_eq!(f.input_queue.len(), 1);
    assert_eq!(f.input_queue[0].typ, FighterInputType::Jump);
    assert_eq!(f.input_queue[0].ttl, 7);
}

#[test]
fn buffered_jump_is_taken_on_landing_and_expires_otherwise() {
    let mut f = FighterControl::new(InputPlayer::One);
    f.has_double_jump = false;
    let mut input = input_init(&released());
    // press jump in the air with no jump left
    let outcome = step(&mut f, &mut input, up(), false);
    assert!(!outcome.jumped);
    // land: the buffered jump is taken on the next update
    step(&mut f, &mut input, released(), true);
    assert!(f.has_double_jump);
    let outcome = step(&mut f, &mut input, released(), true);
    assert!(outcome.jumped);
    assert!(f.input_queue.is_empty());

    // an input that cannot be taken is gone after its eight updates
    let mut f = FighterControl::new(InputPlayer::One);
    f.has_double_jump = false;
    let mut input = input_init(&released());
    step(&mut f, &mut input, up(), false);
    for remaining in (1..7).rev() {
        step(&mut f, &mut input, released(), false);
        assert_eq!(f.input_queue[0].ttl, remaining);
    }
    step(&mut f, &mut input, released(), false);
    assert!(f.input_queue.is_empty());
}

#[test]
fn coyote_time_allows_a_late_ground_jump() {
    let (mut f, mut input) = grounded_fighter();
    // walk off a ledge
    step(&mut f, &mut input, released(), false);
    assert_eq!(f.coyote_timer, FIGHTER_COYOTE_TIMER_DURATION - 1);
    step(&mut f, &mut input, released(), false);
    assert_eq!(f.coyote_timer, FIGHTER_COYOTE_TIMER_DURATION - 2);
    let outcome = step(&mut f, &mut input, up(), false);
    assert!(outcome.jumped);
    // a ground jump: the air jump is still there
    assert!(f.has_double_jump);
    assert_eq!(f.coyote_timer, 0);
}

#[test]
fn coyote_time_runs_out() {
    let (mut f, mut input) = grounded_fighter();
    for _ in 0..FIGHTER_COYOTE_TIMER_DURATION {
        step(&mut f, &mut input, released(), false);
    }
    assert_eq!(f.coyote_timer, 0);
    let outcome = step(&mut f, &mut input, up(), false);
    // only the air jump is left
    assert!(outcome.jumped);
    assert!(!f.has_double_jump);
}

#[test]
fn punch_combo() {
    let (mut f, mut input) = grounded_fighter();
    step(&mut f, &mut input, punch(), true);
    assert_eq!(f.mode, FighterMode::Neutral1);
    assert!(f.has_hit);
    assert_eq!(f.animation.name, Animation::CrabPunch);
    assert_eq!(f.get_attack(), None);
    assert!(f.is_attacking());

    // wind-up frame
    for _ in 0..3 {
        step(&mut f, &mut input, released(), true);
    }
    assert_eq!(f.animation.frame_index, 0);
    step(&mut f, &mut input, released(), true);
    assert_eq!(f.animation.frame_index, 1);
    assert_eq!(f.get_attack(), Some(FighterAttack::Neutral));

    // pressing during the hit frame is taken but does not chain
    step(&mut f, &mut input, punch(), true);
    assert_eq!(f.mode, FighterMode::Neutral1);
    assert!(f.input_queue.is_empty());
    for _ in 0..3 {
        step(&mut f, &mut input, released(), true);
    }
    assert!(f.animation.is_on_recovery_frame());

    // on the recovery frame the second punch comes out
    step(&mut f, &mut input, punch(), true);
    assert_eq!(f.mode, FighterMode::Neutral2);
    assert_eq!(f.animation.frame_index, 0);
    for _ in 0..8 {
        step(&mut f, &mut input, released(), true);
    }
    assert!(f.animation.is_on_recovery_frame());
    step(&mut f, &mut input, punch(), true);
    assert_eq!(f.mode, FighterMode::Neutral3);
    assert_eq!(f.animation.name, Animation::CrabPunch2);

    // the finisher hits on its third frame
    for _ in 0..8 {
        step(&mut f, &mut input, released(), true);
    }
    assert_eq!(f.animation.frame_index, 2);
    assert_eq!(f.get_attack(), Some(FighterAttack::NeutralFinisher));
}

#[test]
fn punch_ends_in_idle() {
    let (mut f, mut input) = grounded_fighter();
    step(&mut f, &mut input, punch(), true);
    for _ in 0..11 {
        step(&mut f, &mut input, released(), true);
        assert_eq!(f.mode, FighterMode::Neutral1);
    }
    step(&mut f, &mut input, released(), true);
    assert_eq!(f.mode, FighterMode::Idle);
    assert!(f.animation.is_finished());
    // the next update brings the idle animation back
    step(&mut f, &mut input, released(), true);
    assert_eq!(f.animation.name, Animation::CrabIdle);
}

#[test]
fn no_punch_in_the_air() {
    let mut f = FighterControl::new(InputPlayer::One);
    let mut input = input_init(&released());
    step(&mut f, &mut input, punch(), false);
    assert_eq!(f.mode, FighterMode::Idle);
    assert_eq!(f.input_queue.len(), 1);
}

#[test]
fn queue_holds_at_most_four_inputs() {
    let mut f = FighterControl::new(InputPlayer::One);
    f.has_double_jump = false;
    let mut input = input_init(&released());
    for _ in 0..3 {
        step(&mut f, &mut input, punch(), false);
        step(&mut f, &mut input, released(), false);
    }
    assert_eq!(f.input_queue.len(), 3);
    let mut both = punch();
    both.player1_up = true;
    step(&mut f, &mut input, both, false);
    assert_eq!(f.input_queue.len(), 4);
    // the oldest buffered inputs are the ones dropped
    assert_eq!(f.input_queue[2].typ, FighterInputType::Jump);
    assert_eq!(f.input_queue[3].typ, FighterInputType::Punch);
    for i in 0..3 {
        assert!(f.input_queue[i].ttl <= f.input_queue[i + 1].ttl);
    }
}

#[test]
fn hitstun_lasts_five_updates() {
    let (mut f, mut input) = grounded_fighter();
    f.enter_hitstun();
    assert_eq!(f.mode, FighterMode::Hitstun);
    // neither jumping nor punching gets it out
    step(&mut f, &mut input, up(), true);
    let mut both = punch();
    both.player1_up = true;
    step(&mut f, &mut input, both, true);
    assert_eq!(f.mode, FighterMode::Hitstun);
    assert_eq!(f.hitstun_timer, 3);
    step(&mut f, &mut input, released(), true);
    step(&mut f, &mut input, released(), true);
    assert_eq!(f.mode, FighterMode::Hitstun);
    step(&mut f, &mut input, released(), true);
    assert_eq!(f.mode, FighterMode::Idle);
}

#[test]
fn hit_during_attack_stops_it() {
    let (mut f, mut input) = grounded_fighter();
    step(&mut f, &mut input, punch(), true);
    f.enter_hitstun();
    assert!(!f.is_attacking());
    step(&mut f, &mut input, released(), true);
    assert_eq!(f.animation.name, Animation::CrabHurt);
}

#[test]
fn turning_around() {
    let (mut f, mut input) = grounded_fighter();
    input_update(&mut input, &left());
    assert_eq!(f.get_directional_input(&input), -1);
    let outcome = f.update(&input, true);
    f.finish_update(true);
    assert_eq!(outcome.turn_input, -1);
    assert_eq!(f.direction, FighterDirection::Left);

    // no turning in the air
    let mut f = FighterControl::new(InputPlayer::One);
    let mut input = input_init(&released());
    let outcome = step(&mut f, &mut input, left(), false);
    assert_eq!(outcome.turn_input, -1);
    assert_eq!(f.direction, FighterDirection::Right);
}

#[test]
fn no_directional_input_while_attacking() {
    let (mut f, mut input) = grounded_fighter();
    step(&mut f, &mut input, punch(), true);
    input_update(&mut input, &left());
    assert_eq!(f.get_directional_input(&input), 0);
}

#[test]
fn walking_animation_when_moving() {
    let (mut f, input) = grounded_fighter();
    f.update(&input, true);
    assert_eq!(f.animation.name, Animation::CrabWalk);
    f.update(&input, false);
    assert_eq!(f.animation.name, Animation::CrabIdle);
}
