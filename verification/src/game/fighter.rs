//! The decisions a fighter takes each update: buffered inputs, jumps, attacks,
//! hitstun and which animation plays. Positions and velocities are not here.
use vstd::prelude::*;

use crate::engine::animation::{Animation, AnimationInstance, ANIMATION_LOOPS_INDEFINITELY};
use crate::engine::input::{
    input_is_action_just_pressed, input_is_action_pressed, Input, InputAction, InputPlayer,
};
use crate::engine::render::Sprite;
use std::collections::VecDeque;

verus! {

/// Updates after leaving the ground during which a ground jump is still allowed.
pub const FIGHTER_COYOTE_TIMER_DURATION: u32 = 10;

/// Updates a buffered input stays in the queue.
pub const FIGHTER_INPUT_TTL: u32 = 8;

/// Most inputs the queue holds; the oldest goes when a new one comes.
pub const FIGHTER_INPUT_QUEUE_MAX_SIZE: usize = 4;

/// Updates a hit fighter stays in hitstun.
pub const FIGHTER_HITSTUN_DURATION: u32 = 5;

#[derive(Debug, Copy, Clone, PartialEq, Eq, Structural)]
pub enum FighterMode {
    Idle,
    Hitstun,
    Neutral1,
    Neutral2,
    Neutral3,
}

#[derive(Debug, Copy, Clone, PartialEq, Eq, Structural)]
pub enum FighterDirection {
    Right,
    Left,
}

#[derive(Debug, Copy, Clone, PartialEq, Eq, Structural)]
pub enum FighterInputType {
    Jump,
    Punch,
}

/// A buffered input and the updates it has left in the queue.
#[derive(Debug, Copy, Clone, PartialEq, Eq, Structural)]
pub struct FighterInput {
    pub typ: FighterInputType,
    pub ttl: u32,
}

/// The attack whose hit a fighter deals on its current frame.
#[derive(Debug, Copy, Clone, PartialEq, Eq, Structural)]
pub enum FighterAttack {
    /// The first two punches of the combo.
    Neutral,
    /// The third punch of the combo.
    NeutralFinisher,
}

/// What the movement code has to do after the decisions of an update.
#[derive(Debug, Copy, Clone, PartialEq, Eq, Structural)]
pub struct ControlOutcome {
    /// A jump was taken this update: the vertical velocity becomes the jump's.
    pub jumped: bool,
    /// Directional input (-1, 0 or 1) read while idle: a grounded fighter
    /// moving against it stops.
    pub turn_input: i8,
}

/// The state of a fighter other than its position, velocity and damage.
pub struct FighterControl {
    pub player: InputPlayer,
    pub mode: FighterMode,
    pub animation: AnimationInstance,
    pub input_queue: VecDeque<FighterInput>,
    pub sprite: Sprite,
    pub direction: FighterDirection,
    pub jumped_this_frame: bool,
    pub has_double_jump: bool,
    pub is_grounded: bool,
    pub coyote_timer: u32,
    pub hitstun_timer: u32,
    pub has_hit: bool,
}

/// [`FighterControl`] with its input queue as a sequence.
#[verifier::ext_equal]
pub struct FighterView {
    pub player: InputPlayer,
    pub mode: FighterMode,
    pub animation: AnimationInstance,
    pub input_queue: Seq<FighterInput>,
    pub sprite: Sprite,
    pub direction: FighterDirection,
    pub jumped_this_frame: bool,
    pub has_double_jump: bool,
    pub is_grounded: bool,
    pub coyote_timer: u32,
    pub hitstun_timer: u32,
    pub has_hit: bool,
}

impl View for FighterControl {
    type V = FighterView;

    open spec fn view(&self) -> FighterView {
        FighterView {
            player: self.player,
            mode: self.mode,
            animation: self.animation,
            input_queue: self.input_queue@,
            sprite: self.sprite,
            direction: self.direction,
            jumped_this_frame: self.jumped_this_frame,
            has_double_jump: self.has_double_jump,
            is_grounded: self.is_grounded,
            coyote_timer: self.coyote_timer,
            hitstun_timer: self.hitstun_timer,
            has_hit: self.has_hit,
        }
    }
}

impl FighterDirection {
    pub open spec fn spec_sign(self) -> i8 {
        match self {
            FighterDirection::Right => 1i8,
            FighterDirection::Left => -1i8,
        }
    }

    /// 1 when facing right, -1 when facing left.
    pub fn sign(self) -> (s: i8)
        ensures
            s == self.spec_sign(),
    {
        match self {
            FighterDirection::Right => 1,
            FighterDirection::Left => -1,
        }
    }
}

// ---------------------------------------------------------------------------
// Specification of one update

pub open spec fn spec_is_attacking(mode: FighterMode) -> bool {
    mode == FighterMode::Neutral1 || mode == FighterMode::Neutral2 || mode == FighterMode::Neutral3
}

/// Every input has updates left, at most `FIGHTER_INPUT_TTL`, and older inputs
/// (nearer the front) have no more left than newer ones.
pub open spec fn spec_queue_wf(q: Seq<FighterInput>) -> bool {
    &&& q.len() <= FIGHTER_INPUT_QUEUE_MAX_SIZE
    &&& forall|i: int| 0 <= i < q.len() ==> 1 <= #[trigger] q[i].ttl <= FIGHTER_INPUT_TTL
    &&& forall|i: int, j: int| 0 <= i <= j < q.len() ==> #[trigger] q[i].ttl <= #[trigger] q[j].ttl
}

impl FighterView {
    /// Everything [`FighterView::wf`] asks but that an attack's animation is still running.
    pub open spec fn wf_except_finish(self) -> bool {
        &&& self.animation.wf()
        &&& (self.mode == FighterMode::Hitstun ==> self.hitstun_timer >= 1)
        &&& self.coyote_timer <= FIGHTER_COYOTE_TIMER_DURATION
        &&& spec_queue_wf(self.input_queue)
    }

    /// The state between updates: the animation is well formed, an attack's
    /// animation is still running, hitstun has updates left, the coyote timer
    /// is within its duration and the input queue is well formed.
    pub open spec fn wf(self) -> bool {
        &&& self.wf_except_finish()
        &&& (spec_is_attacking(self.mode) ==> !self.animation.spec_is_finished())
    }
}

pub open spec fn spec_expected_animation(v: FighterView, moving_x: bool) -> Animation {
    match v.mode {
        FighterMode::Idle => {
            if !v.is_grounded {
                Animation::CrabFall
            } else if moving_x {
                Animation::CrabWalk
            } else {
                Animation::CrabIdle
            }
        },
        FighterMode::Hitstun => Animation::CrabHurt,
        FighterMode::Neutral1 | FighterMode::Neutral2 => Animation::CrabPunch,
        FighterMode::Neutral3 => Animation::CrabPunch2,
    }
}

pub open spec fn spec_reset_animation(v: FighterView, moving_x: bool) -> FighterView {
    FighterView { animation: spec_expected_animation(v, moving_x).spec_instance(), ..v }
}

pub open spec fn spec_sync_animation(v: FighterView, moving_x: bool) -> FighterView {
    if v.animation.name != spec_expected_animation(v, moving_x) {
        spec_reset_animation(v, moving_x)
    } else {
        v
    }
}

pub open spec fn spec_queue_input(q: Seq<FighterInput>, typ: FighterInputType) -> Seq<
    FighterInput,
> {
    let kept = if q.len() == FIGHTER_INPUT_QUEUE_MAX_SIZE {
        q.drop_first()
    } else {
        q
    };
    kept.push(FighterInput { typ, ttl: FIGHTER_INPUT_TTL })
}

pub open spec fn spec_drop_expired(q: Seq<FighterInput>) -> Seq<FighterInput>
    decreases q.len(),
{
    if q.len() > 0 && q[0].ttl == 0 {
        spec_drop_expired(q.drop_first())
    } else {
        q
    }
}

pub open spec fn spec_decrement_ttls(q: Seq<FighterInput>) -> Seq<FighterInput> {
    q.map_values(|e: FighterInput| FighterInput { typ: e.typ, ttl: (e.ttl - 1) as u32 })
}

pub open spec fn spec_can_ground_jump(v: FighterView) -> bool {
    v.is_grounded || v.coyote_timer != 0
}

/// Whether an input of type `typ` is taken in state `v`.
pub open spec fn spec_can_handle(v: FighterView, typ: FighterInputType) -> bool {
    match typ {
        FighterInputType::Jump => v.mode == FighterMode::Idle && (spec_can_ground_jump(v)
            || v.has_double_jump),
        FighterInputType::Punch => v.is_grounded,
    }
}

/// The first position at or after `i` whose input is taken, or the queue's length.
pub open spec fn spec_first_handled(v: FighterView, q: Seq<FighterInput>, i: int) -> int
    decreases q.len() - i,
{
    if i < 0 || i >= q.len() {
        q.len() as int
    } else if spec_can_handle(v, q[i].typ) {
        i
    } else {
        spec_first_handled(v, q, i + 1)
    }
}

pub open spec fn spec_jump(v: FighterView, moving_x: bool) -> FighterView {
    spec_reset_animation(FighterView { mode: FighterMode::Idle, ..v }, moving_x)
}

pub open spec fn spec_jump_effect(v: FighterView, moving_x: bool) -> FighterView {
    if spec_can_ground_jump(v) {
        FighterView { jumped_this_frame: true, coyote_timer: 0, ..spec_jump(v, moving_x) }
    } else {
        FighterView { has_double_jump: false, ..spec_jump(v, moving_x) }
    }
}

pub open spec fn spec_set_attack_mode(v: FighterView, mode: FighterMode, moving_x: bool) -> FighterView {
    spec_reset_animation(FighterView { mode, has_hit: true, ..v }, moving_x)
}

pub open spec fn spec_punch_effect(v: FighterView, moving_x: bool) -> FighterView {
    if v.mode == FighterMode::Idle {
        spec_set_attack_mode(v, FighterMode::Neutral1, moving_x)
    } else if v.mode == FighterMode::Neutral1 && v.animation.spec_is_on_recovery_frame() {
        spec_set_attack_mode(v, FighterMode::Neutral2, moving_x)
    } else if v.mode == FighterMode::Neutral2 && v.animation.spec_is_on_recovery_frame() {
        spec_set_attack_mode(v, FighterMode::Neutral3, moving_x)
    } else {
        v
    }
}

pub open spec fn spec_handle_effect(v: FighterView, typ: FighterInputType, moving_x: bool) -> FighterView {
    match typ {
        FighterInputType::Jump => spec_jump_effect(v, moving_x),
        FighterInputType::Punch => spec_punch_effect(v, moving_x),
    }
}

/// Takes the first input of the queue that can be taken, with every input up
/// to it; the flag tells whether it was a jump.
pub open spec fn spec_handle_queue(v: FighterView, moving_x: bool) -> (FighterView, bool) {
    let q = v.input_queue;
    let i = spec_first_handled(v, q, 0);
    if i < q.len() {
        (
            FighterView {
                input_queue: q.skip(i + 1),
                ..spec_handle_effect(v, q[i].typ, moving_x)
            },
            q[i].typ == FighterInputType::Jump,
        )
    } else {
        (v, false)
    }
}

pub open spec fn spec_directional_input(v: FighterView, input: Input) -> i8 {
    let can_di = v.mode == FighterMode::Idle;
    if can_di && input.spec_pressed(v.player, InputAction::Right) {
        1i8
    } else if can_di && input.spec_pressed(v.player, InputAction::Left) {
        -1i8
    } else {
        0i8
    }
}

pub open spec fn spec_mode_update(v: FighterView, input: Input) -> (FighterView, i8) {
    match v.mode {
        FighterMode::Idle => {
            let di = spec_directional_input(v, input);
            let direction = if v.is_grounded && di != 0 {
                if di > 0 {
                    FighterDirection::Right
                } else {
                    FighterDirection::Left
                }
            } else {
                v.direction
            };
            (FighterView { direction, ..v }, di)
        },
        FighterMode::Hitstun => {
            let timer = (v.hitstun_timer - 1) as u32;
            let mode = if timer == 0 {
                FighterMode::Idle
            } else {
                FighterMode::Hitstun
            };
            (FighterView { hitstun_timer: timer, mode, ..v }, 0i8)
        },
        _ => {
            if v.animation.spec_is_finished() {
                (FighterView { mode: FighterMode::Idle, ..v }, 0i8)
            } else {
                (v, 0i8)
            }
        },
    }
}

/// The animation follows the state, then moves on by one update.
pub open spec fn spec_animate(v: FighterView, moving_x: bool) -> FighterView {
    let synced = spec_sync_animation(v, moving_x);
    FighterView { animation: synced.animation.spec_step(), ..synced }
}

/// New presses of jump and punch join the queue, jump first.
pub open spec fn spec_queue_presses(v: FighterView, input: Input) -> FighterView {
    let q1 = if input.spec_just_pressed(v.player, InputAction::Up) {
        spec_queue_input(v.input_queue, FighterInputType::Jump)
    } else {
        v.input_queue
    };
    let q2 = if input.spec_just_pressed(v.player, InputAction::A) {
        spec_queue_input(q1, FighterInputType::Punch)
    } else {
        q1
    };
    FighterView { input_queue: q2, ..v }
}

/// Every buffered input loses one update; the ones with none left go.
pub open spec fn spec_tick(v: FighterView) -> FighterView {
    FighterView { input_queue: spec_drop_expired(spec_decrement_ttls(v.input_queue)), ..v }
}

/// The decisions of one update, up to the movement: `moving_x` is whether
/// the horizontal velocity is non-zero.
pub open spec fn spec_update(v: FighterView, input: Input, moving_x: bool) -> (
    FighterView,
    ControlOutcome,
) {
    let ticked = spec_tick(spec_queue_presses(spec_animate(v, moving_x), input));
    let (handled, jumped) = spec_handle_queue(ticked, moving_x);
    let (moded, turn_input) = spec_mode_update(handled, input);
    (moded, ControlOutcome { jumped, turn_input })
}

/// The end of an update, once the movement has decided whether the fighter stands on ground.
pub open spec fn spec_finish_update(v: FighterView, landed: bool) -> FighterView {
    let left_ground = !landed && v.is_grounded && !v.jumped_this_frame;
    let coyote = if left_ground {
        FIGHTER_COYOTE_TIMER_DURATION
    } else {
        v.coyote_timer
    };
    FighterView {
        is_grounded: landed,
        coyote_timer: if coyote != 0 {
            (coyote - 1) as u32
        } else {
            0
        },
        jumped_this_frame: false,
        has_double_jump: if landed {
            true
        } else {
            v.has_double_jump
        },
        ..v
    }
}

pub open spec fn spec_new(player: InputPlayer) -> FighterView {
    FighterView {
        player,
        mode: FighterMode::Idle,
        animation: Animation::CrabIdle.spec_instance(),
        input_queue: Seq::empty(),
        sprite: match player {
            InputPlayer::One => Sprite::CrabOrange,
            InputPlayer::Two => Sprite::CrabGreen,
        },
        direction: match player {
            InputPlayer::One => FighterDirection::Right,
            InputPlayer::Two => FighterDirection::Left,
        },
        jumped_this_frame: false,
        has_double_jump: true,
        is_grounded: false,
        coyote_timer: 0,
        hitstun_timer: 0,
        has_hit: false,
    }
}

pub open spec fn spec_attack(v: FighterView) -> Option<FighterAttack> {
    if !v.has_hit || !v.animation.spec_is_on_hit_frame() {
        None
    } else if v.mode == FighterMode::Neutral3 {
        Some(FighterAttack::NeutralFinisher)
    } else {
        Some(FighterAttack::Neutral)
    }
}

// ---------------------------------------------------------------------------
// Proofs about the queue

proof fn lemma_drop_expired(q: Seq<FighterInput>)
    requires
        forall|i: int, j: int| 0 <= i <= j < q.len() ==> #[trigger] q[i].ttl <= #[trigger] q[j].ttl,
    ensures
        spec_drop_expired(q).len() <= q.len(),
        spec_drop_expired(q) == q.skip(q.len() - spec_drop_expired(q).len()),
        forall|i: int| 0 <= i < spec_drop_expired(q).len() ==> #[trigger] spec_drop_expired(q)[i].ttl >= 1,
    decreases q.len(),
{
    if q.len() > 0 && q[0].ttl == 0 {
        let rest = q.drop_first();
        assert forall|i: int, j: int| 0 <= i <= j < rest.len() implies #[trigger] rest[i].ttl <= #[trigger] rest[j].ttl by {
            assert(rest[i] == q[i + 1] && rest[j] == q[j + 1]);
        }
        lemma_drop_expired(rest);
        let d = spec_drop_expired(rest);
        assert(rest.skip(rest.len() - d.len()) =~= q.skip(q.len() - d.len()));
    } else {
        assert(q.skip(0) =~= q);
        if q.len() > 0 {
            assert forall|i: int| 0 <= i < q.len() implies #[trigger] q[i].ttl >= 1 by {
                assert(q[0].ttl <= q[i].ttl);
            }
        }
    }
}

proof fn lemma_tick_keeps_queue_wf(q: Seq<FighterInput>)
    requires
        spec_queue_wf(q),
    ensures
        spec_queue_wf(spec_drop_expired(spec_decrement_ttls(q))),
{
    let d = spec_decrement_ttls(q);
    assert forall|i: int, j: int| 0 <= i <= j < d.len() implies #[trigger] d[i].ttl <= #[trigger] d[j].ttl by {
        assert(q[i].ttl <= q[j].ttl);
    }
    lemma_drop_expired(d);
    let e = spec_drop_expired(d);
    let off = d.len() - e.len();
    assert forall|i: int| 0 <= i < e.len() implies 1 <= #[trigger] e[i].ttl <= FIGHTER_INPUT_TTL by {
        assert(e[i] == d[i + off]);
    }
    assert forall|i: int, j: int| 0 <= i <= j < e.len() implies #[trigger] e[i].ttl <= #[trigger] e[j].ttl by {
        assert(e[i] == d[i + off] && e[j] == d[j + off]);
    }
}

proof fn lemma_queue_input_keeps_queue_wf(q: Seq<FighterInput>, typ: FighterInputType)
    requires
        spec_queue_wf(q),
    ensures
        spec_queue_wf(spec_queue_input(q, typ)),
{
    let kept = if q.len() == FIGHTER_INPUT_QUEUE_MAX_SIZE {
        q.drop_first()
    } else {
        q
    };
    let r = spec_queue_input(q, typ);
    let off: int = if q.len() == FIGHTER_INPUT_QUEUE_MAX_SIZE {
        1
    } else {
        0
    };
    assert forall|i: int| 0 <= i < kept.len() implies #[trigger] kept[i] == q[i + off] by {}
    assert forall|i: int, j: int| 0 <= i <= j < r.len() implies #[trigger] r[i].ttl <= #[trigger] r[j].ttl by {
        if j < kept.len() {
            assert(r[i] == q[i + off] && r[j] == q[j + off]);
        } else if i < kept.len() {
            assert(r[i] == q[i + off]);
        }
    }
    assert forall|i: int| 0 <= i < r.len() implies 1 <= #[trigger] r[i].ttl <= FIGHTER_INPUT_TTL by {
        if i < kept.len() {
            assert(r[i] == q[i + off]);
        }
    }
}

proof fn lemma_skip_keeps_queue_wf(q: Seq<FighterInput>, n: int)
    requires
        spec_queue_wf(q),
        0 <= n <= q.len(),
    ensures
        spec_queue_wf(q.skip(n)),
{
    let s = q.skip(n);
    assert forall|i: int, j: int| 0 <= i <= j < s.len() implies #[trigger] s[i].ttl <= #[trigger] s[j].ttl by {
        assert(s[i] == q[i + n] && s[j] == q[j + n]);
    }
    assert forall|i: int| 0 <= i < s.len() implies 1 <= #[trigger] s[i].ttl <= FIGHTER_INPUT_TTL by {
        assert(s[i] == q[i + n]);
    }
}

// ---------------------------------------------------------------------------
// Executable decisions

impl FighterControl {
    /// A fighter for `player`, idle, facing the middle of the stage.
    pub fn new(player: InputPlayer) -> (f: FighterControl)
        ensures
            f@ == spec_new(player),
            f@.wf(),
    {
        let sprite = match player {
            InputPlayer::One => Sprite::CrabOrange,
            InputPlayer::Two => Sprite::CrabGreen,
        };
        FighterControl {
            player,
            mode: FighterMode::Idle,
            animation: Animation::CrabIdle.instance(),
            input_queue: VecDeque::new(),
            sprite,
            direction: match player {
                InputPlayer::One => FighterDirection::Right,
                InputPlayer::Two => FighterDirection::Left,
            },
            jumped_this_frame: false,
            has_double_jump: true,
            is_grounded: false,
            coyote_timer: 0,
            hitstun_timer: 0,
            has_hit: false,
        }
    }

    /// The animation the fighter's state calls for.
    pub fn get_expected_animation(&self, moving_x: bool) -> (a: Animation)
        ensures
            a == spec_expected_animation(self@, moving_x),
    {
        match self.mode {
            FighterMode::Idle => {
                if !self.is_grounded {
                    return Animation::CrabFall;
                }
                if moving_x {
                    return Animation::CrabWalk;
                }
                Animation::CrabIdle
            },
            FighterMode::Hitstun => Animation::CrabHurt,
            FighterMode::Neutral1 | FighterMode::Neutral2 => Animation::CrabPunch,
            FighterMode::Neutral3 => Animation::CrabPunch2,
        }
    }

    fn reset_animation(&mut self, moving_x: bool)
        ensures
            final(self)@ == spec_reset_animation(old(self)@, moving_x),
    {
        self.animation = self.get_expected_animation(moving_x).instance();
    }

    /// Whether the fighter is in one of the punches of its combo.
    pub fn is_attacking(&self) -> (b: bool)
        ensures
            b == spec_is_attacking(self.mode),
    {
        self.mode == FighterMode::Neutral1 || self.mode == FighterMode::Neutral2 || self.mode
            == FighterMode::Neutral3
    }

    fn queue_input(&mut self, typ: FighterInputType)
        ensures
            final(self)@ == (FighterView {
                input_queue: spec_queue_input(old(self)@.input_queue, typ),
                ..old(self)@
            }),
    {
        if self.input_queue.len() == FIGHTER_INPUT_QUEUE_MAX_SIZE {
            self.input_queue.pop_front();
        }
        self.input_queue.push_back(FighterInput { typ, ttl: FIGHTER_INPUT_TTL });
        proof {
            let q = old(self)@.input_queue;
            if q.len() == FIGHTER_INPUT_QUEUE_MAX_SIZE {
                assert(q.subrange(1, q.len() as int) =~= q.drop_first());
            }
            assert(self@.input_queue =~= spec_queue_input(q, typ));
        }
    }

    /// Every buffered input loses one update; the ones with none left go.
    fn tick_input_queue(&mut self)
        requires
            forall|i: int|
                0 <= i < old(self)@.input_queue.len() ==> #[trigger] old(self)@.input_queue[i].ttl
                    >= 1,
        ensures
            final(self)@ == (FighterView {
                input_queue: spec_drop_expired(spec_decrement_ttls(old(self)@.input_queue)),
                ..old(self)@
            }),
    {
        let ghost q0 = self@.input_queue;
        let mut ticked: VecDeque<FighterInput> = VecDeque::new();
        let len = self.input_queue.len();
        let mut i: usize = 0;
        while i < len
            invariant
                self@ == old(self)@,
                q0 == old(self)@.input_queue,
                len == q0.len(),
                i <= len,
                forall|k: int| 0 <= k < q0.len() ==> #[trigger] q0[k].ttl >= 1,
                ticked@ =~= spec_decrement_ttls(q0).take(i as int),
            decreases len - i,
        {
            let input = self.input_queue[i];
            ticked.push_back(FighterInput { typ: input.typ, ttl: input.ttl - 1 });
            proof {
                assert(spec_decrement_ttls(q0).take(i + 1) =~= spec_decrement_ttls(q0).take(
                    i as int,
                ).push(spec_decrement_ttls(q0)[i as int]));
            }
            i += 1;
        }
        assert(spec_decrement_ttls(q0).take(len as int) =~= spec_decrement_ttls(q0));
        self.input_queue = ticked;

        // Pop any inputs whose TTL is 0
        while self.input_queue.len() > 0 && self.input_queue[0].ttl == 0
            invariant
                self@ == (FighterView { input_queue: self@.input_queue, ..old(self)@ }),
                spec_drop_expired(self@.input_queue) == spec_drop_expired(
                    spec_decrement_ttls(q0),
                ),
            decreases self@.input_queue.len(),
        {
            let ghost before = self@.input_queue;
            self.input_queue.pop_front();
            assert(self@.input_queue =~= before.drop_first());
        }
    }

    /// Drops the first `count` inputs of the queue.
    fn drop_front_inputs(&mut self, count: usize)
        requires
            count <= old(self)@.input_queue.len(),
        ensures
            final(self)@ == (FighterView {
                input_queue: old(self)@.input_queue.skip(count as int),
                ..old(self)@
            }),
    {
        let mut k: usize = 0;
        while k < count
            invariant
                k <= count,
                count <= old(self)@.input_queue.len(),
                self@ == (FighterView {
                    input_queue: old(self)@.input_queue.skip(k as int),
                    ..old(self)@
                }),
            decreases count - k,
        {
            self.input_queue.pop_front();
            assert(self@.input_queue =~= old(self)@.input_queue.skip(k + 1));
            k += 1;
        }
    }

    fn can_ground_jump(&self) -> (b: bool)
        ensures
            b == spec_can_ground_jump(self@),
    {
        self.is_grounded || self.coyote_timer != 0
    }

    fn jump(&mut self, moving_x: bool)
        ensures
            final(self)@ == spec_jump(old(self)@, moving_x),
    {
        self.mode = FighterMode::Idle;
        self.reset_animation(moving_x);
    }

    fn handle_input_jump(&mut self, moving_x: bool) -> (handled: bool)
        ensures
            handled == spec_can_handle(old(self)@, FighterInputType::Jump),
            handled ==> final(self)@ == spec_jump_effect(old(self)@, moving_x),
            !handled ==> final(self)@ == old(self)@,
    {
        if self.mode != FighterMode::Idle {
            return false;
        }
        if self.can_ground_jump() {
            // Begin jump
            self.jump(moving_x);
            self.jumped_this_frame = true;
            self.coyote_timer = 0;

            return true;
        } else if self.has_double_jump {
            self.jump(moving_x);
            self.has_double_jump = false;

            return true;
        }
        false
    }

    fn set_attack_mode(&mut self, mode: FighterMode, moving_x: bool)
        ensures
            final(self)@ == spec_set_attack_mode(old(self)@, mode, moving_x),
    {
        self.mode = mode;
        self.has_hit = true;
        self.reset_animation(moving_x);
    }

    fn handle_input_punch(&mut self, moving_x: bool) -> (handled: bool)
        ensures
            handled == spec_can_handle(old(self)@, FighterInputType::Punch),
            handled ==> final(self)@ == spec_punch_effect(old(self)@, moving_x),
            !handled ==> final(self)@ == old(self)@,
    {
        if self.is_grounded {
            if self.mode == FighterMode::Idle {
                self.set_attack_mode(FighterMode::Neutral1, moving_x);
            } else if self.mode == FighterMode::Neutral1 && self.animation.is_on_recovery_frame() {
                self.set_attack_mode(FighterMode::Neutral2, moving_x);
            } else if self.mode == FighterMode::Neutral2 && self.animation.is_on_recovery_frame() {
                self.set_attack_mode(FighterMode::Neutral3, moving_x);
            }
            return true;
        }
        false
    }

    fn handle_input(&mut self, input_type: FighterInputType, moving_x: bool) -> (handled: bool)
        ensures
            handled == spec_can_handle(old(self)@, input_type),
            handled ==> final(self)@ == spec_handle_effect(old(self)@, input_type, moving_x),
            !handled ==> final(self)@ == old(self)@,
    {
        match input_type {
            FighterInputType::Jump => self.handle_input_jump(moving_x),
            FighterInputType::Punch => self.handle_input_punch(moving_x),
        }
    }

    /// Tries the buffered inputs from the oldest; the first one taken goes
    /// with every input before it.
    fn handle_input_queue(&mut self, moving_x: bool) -> (jumped: bool)
        ensures
            final(self)@ == spec_handle_queue(old(self)@, moving_x).0,
            jumped == spec_handle_queue(old(self)@, moving_x).1,
    {
        let ghost v0 = self@;
        let len = self.input_queue.len();
        let mut index: usize = 0;
        while index < len
            invariant
                self@ == v0,
                v0 == old(self)@,
                len == v0.input_queue.len(),
                index <= len,
                spec_first_handled(v0, v0.input_queue, 0) == spec_first_handled(
                    v0,
                    v0.input_queue,
                    index as int,
                ),
            decreases len - index,
        {
            let input = self.input_queue[index];
            if self.handle_input(input.typ, moving_x) {
                proof {
                    assert(input == v0.input_queue[index as int]);
                    assert(spec_first_handled(v0, v0.input_queue, index as int) == index);
                    assert(self@.input_queue == v0.input_queue);
                }
                // If we handled an input, drop it and every input before it
                self.drop_front_inputs(index + 1);
                let jumped = input.typ == FighterInputType::Jump;
                proof {
                    assert(self@ =~= spec_handle_queue(v0, moving_x).0);
                    assert(jumped == spec_handle_queue(v0, moving_x).1);
                }
                return jumped;
            }
            index += 1;
        }
        false
    }

    /// -1, 0 or 1: the horizontal direction the player holds, when idle.
    pub fn get_directional_input(&self, input: &Input) -> (di: i8)
        ensures
            di == spec_directional_input(self@, *input),
    {
        let can_di = self.mode == FighterMode::Idle;
        if can_di && input_is_action_pressed(input, self.player, InputAction::Right) {
            1
        } else if can_di && input_is_action_pressed(input, self.player, InputAction::Left) {
            -1
        } else {
            0
        }
    }

    fn update_mode(&mut self, input: &Input) -> (turn_input: i8)
        requires
            old(self)@.mode == FighterMode::Hitstun ==> old(self)@.hitstun_timer >= 1,
        ensures
            final(self)@ == spec_mode_update(old(self)@, *input).0,
            turn_input == spec_mode_update(old(self)@, *input).1,
    {
        match self.mode {
            FighterMode::Idle => {
                let di = self.get_directional_input(input);

                // Update direction
                if self.is_grounded && di != 0 {
                    self.direction = if di > 0 {
                        FighterDirection::Right
                    } else {
                        FighterDirection::Left
                    };
                }
                di
            },
            FighterMode::Hitstun => {
                self.hitstun_timer -= 1;
                if self.hitstun_timer == 0 {
                    self.mode = FighterMode::Idle;
                }
                0
            },
            FighterMode::Neutral1 | FighterMode::Neutral2 | FighterMode::Neutral3 => {
                if self.animation.is_finished() {
                    self.mode = FighterMode::Idle;
                }
                0
            },
        }
    }

    fn animate(&mut self, moving_x: bool)
        requires
            old(self)@.wf(),
        ensures
            final(self)@ == spec_animate(old(self)@, moving_x),
            final(self)@.wf_except_finish(),
    {
        if self.animation.name != self.get_expected_animation(moving_x) {
            self.reset_animation(moving_x);
        }
        proof {
            lemma_synced_animation_running(old(self)@, moving_x);
        }
        self.animation.update();
    }

    fn queue_presses(&mut self, input: &Input)
        requires
            old(self)@.wf_except_finish(),
        ensures
            final(self)@ == spec_queue_presses(old(self)@, *input),
            final(self)@.wf_except_finish(),
    {
        if input_is_action_just_pressed(input, self.player, InputAction::Up) {
            proof {
                lemma_queue_input_keeps_queue_wf(self@.input_queue, FighterInputType::Jump);
            }
            self.queue_input(FighterInputType::Jump);
        }
        if input_is_action_just_pressed(input, self.player, InputAction::A) {
            proof {
                lemma_queue_input_keeps_queue_wf(self@.input_queue, FighterInputType::Punch);
            }
            self.queue_input(FighterInputType::Punch);
        }
    }

    /// The decisions of one update, before the fighter moves: the animation
    /// follows the state, new presses are buffered, the oldest buffered input
    /// that can be taken is taken, and the mode moves on. `moving_x` tells
    /// whether the horizontal velocity is non-zero.
    pub fn update(&mut self, input: &Input, moving_x: bool) -> (outcome: ControlOutcome)
        requires
            old(self)@.wf(),
        ensures
            final(self)@.wf(),
            final(self)@ == spec_update(old(self)@, *input, moving_x).0,
            outcome == spec_update(old(self)@, *input, moving_x).1,
    {
        self.animate(moving_x);

        // CHECK INPUTS
        self.queue_presses(input);

        // INPUT QUEUE
        proof {
            lemma_tick_keeps_queue_wf(self@.input_queue);
        }
        self.tick_input_queue();
        let ghost ticked = self@;
        let jumped = self.handle_input_queue(moving_x);
        proof {
            lemma_handle_queue_wf(ticked, moving_x);
        }

        // UPDATE
        proof {
            lemma_mode_update_wf(self@, *input);
        }
        let turn_input = self.update_mode(input);
        ControlOutcome { jumped, turn_input }
    }

    /// The end of an update: `landed` tells whether the movement left the
    /// fighter standing on a platform.
    pub fn finish_update(&mut self, landed: bool)
        requires
            old(self)@.wf(),
        ensures
            final(self)@.wf(),
            final(self)@ == spec_finish_update(old(self)@, landed),
    {
        let was_grounded = self.is_grounded;
        self.is_grounded = landed;

        // Coyote timer
        if !self.is_grounded && was_grounded && !self.jumped_this_frame {
            self.coyote_timer = FIGHTER_COYOTE_TIMER_DURATION;
        }
        if self.coyote_timer != 0 {
            self.coyote_timer -= 1;
        }

        // Reset jumps remaining
        self.jumped_this_frame = false;
        if self.is_grounded {
            self.has_double_jump = true;
        }
    }

    /// The fighter is hit: it goes into hitstun.
    pub fn enter_hitstun(&mut self)
        requires
            old(self)@.wf(),
        ensures
            final(self)@.wf(),
            final(self)@ == (FighterView {
                mode: FighterMode::Hitstun,
                hitstun_timer: FIGHTER_HITSTUN_DURATION,
                ..old(self)@
            }),
    {
        self.mode = FighterMode::Hitstun;
        self.hitstun_timer = FIGHTER_HITSTUN_DURATION;
    }

    /// The attack whose hit the fighter deals now, if any.
    pub fn get_attack(&self) -> (attack: Option<FighterAttack>)
        requires
            self@.has_hit && self@.animation.spec_is_on_hit_frame() ==> spec_is_attacking(
                self@.mode,
            ),
        ensures
            attack == spec_attack(self@),
    {
        if !self.has_hit || !self.animation.is_on_hit_frame() {
            return None;
        }
        match self.mode {
            FighterMode::Neutral1 | FighterMode::Neutral2 => Some(FighterAttack::Neutral),
            _ => Some(FighterAttack::NeutralFinisher),
        }
    }
}

// ---------------------------------------------------------------------------
// Invariant proofs

proof fn lemma_synced_animation_running(v: FighterView, moving_x: bool)
    requires
        v.wf(),
    ensures
        spec_sync_animation(v, moving_x).animation.wf(),
        !spec_sync_animation(v, moving_x).animation.spec_is_finished(),
        spec_sync_animation(v, moving_x).wf(),
{
    let e = spec_expected_animation(v, moving_x);
    crate::engine::animation::lemma_instance_wf(e);
    if v.animation.name == e && !spec_is_attacking(v.mode) {
        assert(e.spec_loops() == ANIMATION_LOOPS_INDEFINITELY);
    }
}

proof fn lemma_handle_queue_wf(v: FighterView, moving_x: bool)
    requires
        v.wf_except_finish(),
    ensures
        spec_handle_queue(v, moving_x).0.wf_except_finish(),
{
    let q = v.input_queue;
    let i = spec_first_handled(v, q, 0);
    lemma_first_handled_range(v, q, 0);
    if i < q.len() {
        lemma_skip_keeps_queue_wf(q, i + 1);
        crate::engine::animation::lemma_instance_wf(spec_expected_animation(
            FighterView { mode: FighterMode::Idle, ..v },
            moving_x,
        ));
        crate::engine::animation::lemma_instance_wf(Animation::CrabPunch);
        crate::engine::animation::lemma_instance_wf(Animation::CrabPunch2);
    }
}

proof fn lemma_first_handled_range(v: FighterView, q: Seq<FighterInput>, i: int)
    requires
        0 <= i,
    ensures
        spec_first_handled(v, q, i) <= q.len(),
        spec_first_handled(v, q, i) < q.len() ==> i <= spec_first_handled(v, q, i)
            && spec_can_handle(v, q[spec_first_handled(v, q, i)].typ),
    decreases q.len() - i,
{
    if i < q.len() && !spec_can_handle(v, q[i].typ) {
        lemma_first_handled_range(v, q, i + 1);
    }
}

proof fn lemma_mode_update_wf(v: FighterView, input: Input)
    requires
        v.wf_except_finish(),
    ensures
        spec_mode_update(v, input).0.wf(),
{
}

// ---------------------------------------------------------------------------
// Laws

/// A fighter in hitstun with `t` updates left is, one update later, in hitstun
/// with `t - 1` left, or idle when `t` was 1, whatever the input.
pub proof fn law_hitstun_counts_down(v: FighterView, input: Input, moving_x: bool)
    requires
        v.wf(),
        v.mode == FighterMode::Hitstun,
    ensures
        spec_update(v, input, moving_x).0.hitstun_timer == v.hitstun_timer - 1,
        spec_update(v, input, moving_x).0.mode == if v.hitstun_timer == 1 {
            FighterMode::Idle
        } else {
            FighterMode::Hitstun
        },
        !spec_update(v, input, moving_x).1.jumped,
{
    let ticked = spec_tick(spec_queue_presses(spec_animate(v, moving_x), input));
    let q = ticked.input_queue;
    let i = spec_first_handled(ticked, q, 0);
    lemma_first_handled_range(ticked, q, 0);
}

/// The punch combo goes in order: an update enters the first punch only from
/// idle, the second only from the first, and the third only from the second.
pub proof fn law_combo_order(v: FighterView, input: Input, moving_x: bool)
    requires
        v.wf(),
    ensures
        ({
            let w = spec_update(v, input, moving_x).0;
            &&& (w.mode == FighterMode::Neutral1 && v.mode != FighterMode::Neutral1 ==> v.mode
                == FighterMode::Idle)
            &&& (w.mode == FighterMode::Neutral2 && v.mode != FighterMode::Neutral2 ==> v.mode
                == FighterMode::Neutral1)
            &&& (w.mode == FighterMode::Neutral3 && v.mode != FighterMode::Neutral3 ==> v.mode
                == FighterMode::Neutral2)
        }),
{
    let ticked = spec_tick(spec_queue_presses(spec_animate(v, moving_x), input));
    let q = ticked.input_queue;
    lemma_first_handled_range(ticked, q, 0);
}

/// A jump is only taken from idle, and leaves the fighter idle.
pub proof fn law_jump_only_from_idle(v: FighterView, input: Input, moving_x: bool)
    requires
        v.wf(),
        spec_update(v, input, moving_x).1.jumped,
    ensures
        v.mode == FighterMode::Idle,
        spec_update(v, input, moving_x).0.mode == FighterMode::Idle,
{
    let ticked = spec_tick(spec_queue_presses(spec_animate(v, moving_x), input));
    let q = ticked.input_queue;
    lemma_first_handled_range(ticked, q, 0);
}

/// The air jump is never given back by an update's decisions: only landing
/// (the end of an update on ground) restores it.
pub proof fn law_double_jump_restored_only_by_landing(
    v: FighterView,
    input: Input,
    moving_x: bool,
    landed: bool,
)
    requires
        v.wf(),
    ensures
        spec_update(v, input, moving_x).0.has_double_jump ==> v.has_double_jump,
        spec_finish_update(v, landed).has_double_jump == (landed || v.has_double_jump),
{
    let ticked = spec_tick(spec_queue_presses(spec_animate(v, moving_x), input));
    let q = ticked.input_queue;
    lemma_first_handled_range(ticked, q, 0);
}

/// A fighter turns around only while idle and standing on ground.
pub proof fn law_turns_only_when_grounded_and_idle(v: FighterView, input: Input, moving_x: bool)
    requires
        v.wf(),
    ensures
        spec_update(v, input, moving_x).0.direction != v.direction ==> v.is_grounded,
{
    let ticked = spec_tick(spec_queue_presses(spec_animate(v, moving_x), input));
    let q = ticked.input_queue;
    lemma_first_handled_range(ticked, q, 0);
}

/// The queue holds a buffered jump.
pub open spec fn spec_has_jump(q: Seq<FighterInput>) -> bool {
    exists|i: int| 0 <= i < q.len() && (#[trigger] q[i]).typ == FighterInputType::Jump
}

proof fn lemma_queue_punch_adds_no_jump(q: Seq<FighterInput>)
    ensures
        spec_has_jump(spec_queue_input(q, FighterInputType::Punch)) ==> spec_has_jump(q),
{
    let r = spec_queue_input(q, FighterInputType::Punch);
    if spec_has_jump(r) {
        let i = choose|i: int| 0 <= i < r.len() && (#[trigger] r[i]).typ == FighterInputType::Jump;
        let off: int = if q.len() == FIGHTER_INPUT_QUEUE_MAX_SIZE {
            1
        } else {
            0
        };
        assert(i < r.len() - 1);
        assert(r[i] == q[i + off]);
    }
}

proof fn lemma_tick_adds_no_jump(q: Seq<FighterInput>)
    requires
        spec_queue_wf(q),
    ensures
        spec_has_jump(spec_drop_expired(spec_decrement_ttls(q))) ==> spec_has_jump(q),
{
    let d = spec_decrement_ttls(q);
    assert forall|i: int, j: int| 0 <= i <= j < d.len() implies #[trigger] d[i].ttl <= #[trigger] d[j].ttl by {
        assert(q[i].ttl <= q[j].ttl);
    }
    lemma_drop_expired(d);
    let e = spec_drop_expired(d);
    if spec_has_jump(e) {
        let i = choose|i: int| 0 <= i < e.len() && (#[trigger] e[i]).typ == FighterInputType::Jump;
        let off = d.len() - e.len();
        assert(e[i] == d[i + off]);
        assert(q[i + off].typ == FighterInputType::Jump);
    }
}

/// An update takes a jump only if the player has just pressed Up, or a jump
/// was already waiting in the queue: holding Up does not jump again.
pub proof fn law_jump_needs_press_or_buffered_jump(v: FighterView, input: Input, moving_x: bool)
    requires
        v.wf(),
    ensures
        spec_update(v, input, moving_x).1.jumped ==> input.spec_just_pressed(
            v.player,
            InputAction::Up,
        ) || spec_has_jump(v.input_queue),
{
    let a = spec_animate(v, moving_x);
    assert(a.input_queue == v.input_queue);
    let q1 = if input.spec_just_pressed(v.player, InputAction::Up) {
        spec_queue_input(a.input_queue, FighterInputType::Jump)
    } else {
        a.input_queue
    };
    lemma_queue_input_keeps_queue_wf(a.input_queue, FighterInputType::Jump);
    lemma_queue_input_keeps_queue_wf(q1, FighterInputType::Punch);
    lemma_queue_punch_adds_no_jump(q1);
    let b = spec_queue_presses(a, input);
    let c = spec_tick(b);
    lemma_tick_adds_no_jump(b.input_queue);
    let q = c.input_queue;
    lemma_first_handled_range(c, q, 0);
    let i = spec_first_handled(c, q, 0);
    if spec_update(v, input, moving_x).1.jumped {
        assert(q[i].typ == FighterInputType::Jump);
        assert(spec_has_jump(q));
    }
}

/// The combo has three punches: an update that starts in the third punch
/// leaves the fighter either still in it, with its animation moved on by one
/// update (never restarted), or idle.
pub proof fn law_finisher_is_not_restarted(v: FighterView, input: Input, moving_x: bool)
    requires
        v.wf(),
        v.mode == FighterMode::Neutral3,
        v.animation.name == Animation::CrabPunch2,
    ensures
        spec_update(v, input, moving_x).0.mode == FighterMode::Neutral3
            || spec_update(v, input, moving_x).0.mode == FighterMode::Idle,
        spec_update(v, input, moving_x).0.mode == FighterMode::Neutral3 ==> spec_update(
            v,
            input,
            moving_x,
        ).0.animation == v.animation.spec_step(),
        !spec_update(v, input, moving_x).1.jumped,
{
    let ticked = spec_tick(spec_queue_presses(spec_animate(v, moving_x), input));
    let q = ticked.input_queue;
    lemma_first_handled_range(ticked, q, 0);
}

/// Only the third punch deals the finisher's hit; a hit of the first or the
/// second punch is always the neutral one.
pub proof fn law_finisher_only_from_third_punch(v: FighterView)
    ensures
        spec_attack(v) == Some(FighterAttack::NeutralFinisher) ==> v.mode == FighterMode::Neutral3,
        (v.mode == FighterMode::Neutral1 || v.mode == FighterMode::Neutral2) && spec_attack(v) is Some
            ==> spec_attack(v) == Some(FighterAttack::Neutral),
        spec_attack(v) is Some ==> v.has_hit && v.animation.spec_is_on_hit_frame(),
{
}

/// The queue holds a buffered punch.
pub open spec fn spec_has_punch(q: Seq<FighterInput>) -> bool {
    exists|i: int| 0 <= i < q.len() && (#[trigger] q[i]).typ == FighterInputType::Punch
}

proof fn lemma_queue_jump_adds_no_punch(q: Seq<FighterInput>)
    ensures
        spec_has_punch(spec_queue_input(q, FighterInputType::Jump)) ==> spec_has_punch(q),
{
    let r = spec_queue_input(q, FighterInputType::Jump);
    if spec_has_punch(r) {
        let i = choose|i: int| 0 <= i < r.len() && (#[trigger] r[i]).typ == FighterInputType::Punch;
        let off: int = if q.len() == FIGHTER_INPUT_QUEUE_MAX_SIZE {
            1
        } else {
            0
        };
        assert(i < r.len() - 1);
        assert(r[i] == q[i + off]);
    }
}

proof fn lemma_tick_adds_no_punch(q: Seq<FighterInput>)
    requires
        spec_queue_wf(q),
    ensures
        spec_has_punch(spec_drop_expired(spec_decrement_ttls(q))) ==> spec_has_punch(q),
{
    let d = spec_decrement_ttls(q);
    assert forall|i: int, j: int| 0 <= i <= j < d.len() implies #[trigger] d[i].ttl <= #[trigger] d[j].ttl by {
        assert(q[i].ttl <= q[j].ttl);
    }
    lemma_drop_expired(d);
    let e = spec_drop_expired(d);
    if spec_has_punch(e) {
        let i = choose|i: int| 0 <= i < e.len() && (#[trigger] e[i]).typ == FighterInputType::Punch;
        let off = d.len() - e.len();
        assert(e[i] == d[i + off]);
        assert(q[i + off].typ == FighterInputType::Punch);
    }
}

/// An update starts a punch (enters a punch mode it was not in) only if the
/// player has just pressed A, or a punch was already waiting in the queue:
/// holding A does not punch again.
pub proof fn law_punch_needs_press_or_buffered_punch(v: FighterView, input: Input, moving_x: bool)
    requires
        v.wf(),
    ensures
        ({
            let w = spec_update(v, input, moving_x).0;
            spec_is_attacking(w.mode) && w.mode != v.mode ==> input.spec_just_pressed(
                v.player,
                InputAction::A,
            ) || spec_has_punch(v.input_queue)
        }),
{
    let a = spec_animate(v, moving_x);
    assert(a.input_queue == v.input_queue);
    let q1 = if input.spec_just_pressed(v.player, InputAction::Up) {
        spec_queue_input(a.input_queue, FighterInputType::Jump)
    } else {
        a.input_queue
    };
    lemma_queue_input_keeps_queue_wf(a.input_queue, FighterInputType::Jump);
    lemma_queue_input_keeps_queue_wf(q1, FighterInputType::Punch);
    lemma_queue_jump_adds_no_punch(a.input_queue);
    let b = spec_queue_presses(a, input);
    let c = spec_tick(b);
    lemma_tick_adds_no_punch(b.input_queue);
    let q = c.input_queue;
    lemma_first_handled_range(c, q, 0);
    let i = spec_first_handled(c, q, 0);
    if i < q.len() && q[i].typ == FighterInputType::Punch {
        assert(spec_has_punch(q));
    }
}

} // verus!
