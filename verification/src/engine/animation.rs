use vstd::prelude::*;

verus! {

/// The `loops` value of an animation that never finishes.
pub const ANIMATION_LOOPS_INDEFINITELY: u32 = 0xffff_ffff;

/// Number of variants of [`Animation`].
pub const ANIMATION_COUNT: usize = 8;

#[derive(Debug, Copy, Clone, PartialEq, Eq, Structural)]
pub enum Animation {
    CrabIdle,
    CrabWalk,
    CrabJump,
    CrabFall,
    CrabHurt,
    CrabPunch,
    CrabPunch2,
    CrabSideSmash,
}

/// One frame of an animation: the sprite cell to show and for how many updates.
#[derive(Debug, Copy, Clone)]
pub struct AnimationFrame {
    pub h_frame: u32,
    pub v_frame: u32,
    pub duration: u32,
}

/// The static description of an animation.
pub struct AnimationData {
    pub loops: u32,
    pub hit_range: Option<(usize, usize)>,
    pub frames: Vec<AnimationFrame>,
}

/// A running animation.
#[derive(Debug, Copy, Clone)]
pub struct AnimationInstance {
    pub name: Animation,
    pub frame_index: usize,
    pub frame_timer: u32,
    pub loops_remaining: u32,
    pub h_frame: u32,
    pub v_frame: u32,
}

pub open spec fn frame(h_frame: u32, v_frame: u32, duration: u32) -> AnimationFrame {
    AnimationFrame { h_frame, v_frame, duration }
}

/// Sum of the durations of `frames[from..]`.
pub open spec fn sum_durations(frames: Seq<AnimationFrame>, from: int) -> int
    decreases frames.len() - from,
{
    if from < 0 || from >= frames.len() {
        0
    } else {
        frames[from].duration + sum_durations(frames, from + 1)
    }
}

impl Animation {
    pub open spec fn spec_index(self) -> usize {
        match self {
            Animation::CrabIdle => 0,
            Animation::CrabWalk => 1,
            Animation::CrabJump => 2,
            Animation::CrabFall => 3,
            Animation::CrabHurt => 4,
            Animation::CrabPunch => 5,
            Animation::CrabPunch2 => 6,
            Animation::CrabSideSmash => 7,
        }
    }

    pub open spec fn spec_from_index(i: usize) -> Animation {
        if i == 0 {
            Animation::CrabIdle
        } else if i == 1 {
            Animation::CrabWalk
        } else if i == 2 {
            Animation::CrabJump
        } else if i == 3 {
            Animation::CrabFall
        } else if i == 4 {
            Animation::CrabHurt
        } else if i == 5 {
            Animation::CrabPunch
        } else if i == 6 {
            Animation::CrabPunch2
        } else {
            Animation::CrabSideSmash
        }
    }

    pub open spec fn spec_loops(self) -> u32 {
        match self {
            Animation::CrabPunch | Animation::CrabPunch2 | Animation::CrabSideSmash => 1,
            _ => ANIMATION_LOOPS_INDEFINITELY,
        }
    }

    pub open spec fn spec_hit_range(self) -> Option<(usize, usize)> {
        match self {
            Animation::CrabPunch => Some((1usize, 2usize)),
            Animation::CrabPunch2 | Animation::CrabSideSmash => Some((2usize, 3usize)),
            _ => None,
        }
    }

    pub open spec fn spec_frames(self) -> Seq<AnimationFrame> {
        match self {
            Animation::CrabIdle => seq![frame(0, 0, 10), frame(1, 0, 10)],
            Animation::CrabWalk => seq![frame(0, 0, 8), frame(2, 0, 8), frame(3, 0, 8), frame(4, 0, 8)],
            Animation::CrabJump => seq![frame(5, 0, 8)],
            Animation::CrabFall => seq![frame(6, 0, 8)],
            Animation::CrabHurt => seq![frame(7, 0, 8)],
            Animation::CrabPunch => seq![frame(0, 1, 4), frame(1, 1, 4), frame(2, 1, 4)],
            Animation::CrabPunch2 => seq![
                frame(3, 1, 4),
                frame(4, 1, 4),
                frame(5, 1, 4),
                frame(6, 1, 4),
                frame(4, 1, 4),
                frame(3, 1, 4),
            ],
            Animation::CrabSideSmash => seq![
                frame(7, 1, 4),
                frame(0, 2, 4),
                frame(1, 2, 4),
                frame(2, 2, 4),
                frame(4, 1, 4),
                frame(3, 1, 4),
            ],
        }
    }

    /// Number of updates one pass through all the frames takes.
    pub open spec fn spec_total_duration(self) -> int {
        sum_durations(self.spec_frames(), 0)
    }

    /// The state of a fresh instance of this animation.
    pub open spec fn spec_instance(self) -> AnimationInstance {
        let first = self.spec_frames()[0];
        AnimationInstance {
            name: self,
            frame_index: 0,
            frame_timer: first.duration,
            loops_remaining: self.spec_loops(),
            h_frame: first.h_frame,
            v_frame: first.v_frame,
        }
    }

    /// Position of the animation in the data table.
    pub fn index(self) -> (i: usize)
        ensures
            i == self.spec_index(),
            i < ANIMATION_COUNT,
    {
        match self {
            Animation::CrabIdle => 0,
            Animation::CrabWalk => 1,
            Animation::CrabJump => 2,
            Animation::CrabFall => 3,
            Animation::CrabHurt => 4,
            Animation::CrabPunch => 5,
            Animation::CrabPunch2 => 6,
            Animation::CrabSideSmash => 7,
        }
    }

    /// The animation at position `i` of the data table.
    pub fn from_index(i: usize) -> (a: Animation)
        requires
            i < ANIMATION_COUNT,
        ensures
            a == Animation::spec_from_index(i),
            a.spec_index() == i,
    {
        if i == 0 {
            Animation::CrabIdle
        } else if i == 1 {
            Animation::CrabWalk
        } else if i == 2 {
            Animation::CrabJump
        } else if i == 3 {
            Animation::CrabFall
        } else if i == 4 {
            Animation::CrabHurt
        } else if i == 5 {
            Animation::CrabPunch
        } else if i == 6 {
            Animation::CrabPunch2
        } else {
            Animation::CrabSideSmash
        }
    }

    /// The description of this animation.
    pub fn get_data(self) -> (data: AnimationData)
        ensures
            data.loops == self.spec_loops(),
            data.hit_range == self.spec_hit_range(),
            data.frames@ == self.spec_frames(),
    {
        let data = match self {
            Animation::CrabIdle => AnimationData {
                loops: ANIMATION_LOOPS_INDEFINITELY,
                hit_range: None,
                frames: vec![
                    AnimationFrame { h_frame: 0, v_frame: 0, duration: 10 },
                    AnimationFrame { h_frame: 1, v_frame: 0, duration: 10 },
                ],
            },
            Animation::CrabWalk => AnimationData {
                loops: ANIMATION_LOOPS_INDEFINITELY,
                hit_range: None,
                frames: vec![
                    AnimationFrame { h_frame: 0, v_frame: 0, duration: 8 },
                    AnimationFrame { h_frame: 2, v_frame: 0, duration: 8 },
                    AnimationFrame { h_frame: 3, v_frame: 0, duration: 8 },
                    AnimationFrame { h_frame: 4, v_frame: 0, duration: 8 },
                ],
            },
            Animation::CrabJump => AnimationData {
                loops: ANIMATION_LOOPS_INDEFINITELY,
                hit_range: None,
                frames: vec![AnimationFrame { h_frame: 5, v_frame: 0, duration: 8 }],
            },
            Animation::CrabFall => AnimationData {
                loops: ANIMATION_LOOPS_INDEFINITELY,
                hit_range: None,
                frames: vec![AnimationFrame { h_frame: 6, v_frame: 0, duration: 8 }],
            },
            Animation::CrabHurt => AnimationData {
                loops: ANIMATION_LOOPS_INDEFINITELY,
                hit_range: None,
                frames: vec![AnimationFrame { h_frame: 7, v_frame: 0, duration: 8 }],
            },
            Animation::CrabPunch => AnimationData {
                loops: 1,
                hit_range: Some((1, 2)),
                frames: vec![
                    AnimationFrame { h_frame: 0, v_frame: 1, duration: 4 },
                    AnimationFrame { h_frame: 1, v_frame: 1, duration: 4 },
                    AnimationFrame { h_frame: 2, v_frame: 1, duration: 4 },
                ],
            },
            Animation::CrabPunch2 => AnimationData {
                loops: 1,
                hit_range: Some((2, 3)),
                frames: vec![
                    AnimationFrame { h_frame: 3, v_frame: 1, duration: 4 },
                    AnimationFrame { h_frame: 4, v_frame: 1, duration: 4 },
                    AnimationFrame { h_frame: 5, v_frame: 1, duration: 4 },
                    AnimationFrame { h_frame: 6, v_frame: 1, duration: 4 },
                    AnimationFrame { h_frame: 4, v_frame: 1, duration: 4 },
                    AnimationFrame { h_frame: 3, v_frame: 1, duration: 4 },
                ],
            },
            Animation::CrabSideSmash => AnimationData {
                loops: 1,
                hit_range: Some((2, 3)),
                frames: vec![
                    AnimationFrame { h_frame: 7, v_frame: 1, duration: 4 },
                    AnimationFrame { h_frame: 0, v_frame: 2, duration: 4 },
                    AnimationFrame { h_frame: 1, v_frame: 2, duration: 4 },
                    AnimationFrame { h_frame: 2, v_frame: 2, duration: 4 },
                    AnimationFrame { h_frame: 4, v_frame: 1, duration: 4 },
                    AnimationFrame { h_frame: 3, v_frame: 1, duration: 4 },
                ],
            },
        };
        assert(data.frames@ =~= self.spec_frames());
        data
    }
}


/// Every animation has at least one frame, every frame lasts at least one update,
/// and every animation loops at least once.
pub open spec fn data_well_formed(a: Animation) -> bool {
    &&& a.spec_frames().len() >= 1
    &&& forall|i: int| 0 <= i < a.spec_frames().len() ==> #[trigger] a.spec_frames()[i].duration >= 1
    &&& a.spec_loops() >= 1
}

pub proof fn lemma_data_well_formed(a: Animation)
    ensures
        data_well_formed(a),
{
}

impl AnimationInstance {
    pub open spec fn spec_frames(&self) -> Seq<AnimationFrame> {
        self.name.spec_frames()
    }

    pub open spec fn spec_is_finished(&self) -> bool {
        self.loops_remaining == 0
    }

    /// The instance is in a state that `Animation::instance` and `update` can produce.
    pub open spec fn wf(&self) -> bool {
        let frames = self.spec_frames();
        &&& self.frame_index < frames.len()
        &&& self.loops_remaining <= self.name.spec_loops()
        &&& (self.name.spec_loops() == ANIMATION_LOOPS_INDEFINITELY ==> self.loops_remaining
            == ANIMATION_LOOPS_INDEFINITELY)
        &&& (self.frame_timer == 0 <==> self.loops_remaining == 0)
        &&& (self.frame_timer > 0 ==> self.frame_timer <= frames[self.frame_index as int].duration)
    }

    /// While running, the shown cell is the current frame's.
    pub open spec fn spec_shows_current_frame(&self) -> bool {
        let frames = self.spec_frames();
        self.frame_timer > 0 ==> {
            &&& self.h_frame == frames[self.frame_index as int].h_frame
            &&& self.v_frame == frames[self.frame_index as int].v_frame
        }
    }

    /// The state one `update` leads to from a running instance.
    pub open spec fn spec_step(self) -> AnimationInstance {
        let frames = self.spec_frames();
        let timer = (self.frame_timer - 1) as u32;
        if timer != 0 {
            AnimationInstance { frame_timer: timer, ..self }
        } else {
            let next = self.frame_index + 1;
            let wrapped = next == frames.len();
            let index: usize = if wrapped { 0 } else { next as usize };
            let loops: u32 = if wrapped && self.loops_remaining != ANIMATION_LOOPS_INDEFINITELY {
                (self.loops_remaining - 1) as u32
            } else {
                self.loops_remaining
            };
            if loops == 0 {
                AnimationInstance { frame_index: index, frame_timer: 0, loops_remaining: 0, ..self }
            } else {
                AnimationInstance {
                    name: self.name,
                    frame_index: index,
                    frame_timer: frames[index as int].duration,
                    loops_remaining: loops,
                    h_frame: frames[index as int].h_frame,
                    v_frame: frames[index as int].v_frame,
                }
            }
        }
    }

    /// The state after `n` updates; a finished instance stays as it is.
    pub open spec fn spec_iterate(self, n: nat) -> AnimationInstance
        decreases n,
    {
        if n == 0 || self.spec_is_finished() {
            self
        } else {
            self.spec_step().spec_iterate((n - 1) as nat)
        }
    }

    /// Updates left until the animation passes its last frame.
    pub open spec fn spec_time_to_wrap(&self) -> int {
        self.frame_timer + sum_durations(self.spec_frames(), self.frame_index + 1)
    }

    /// Moves the animation on by one update.
    pub fn update(&mut self)
        requires
            old(self).wf(),
            !old(self).spec_is_finished(),
        ensures
            final(self).wf(),
            *final(self) == old(self).spec_step(),
            old(self).spec_shows_current_frame() ==> final(self).spec_shows_current_frame(),
    {
        let animation_data = self.name.get_data();
        proof {
            lemma_data_well_formed(self.name);
        }
        self.frame_timer -= 1;
        if self.frame_timer == 0 {
            // Increase frame
            self.frame_index += 1;

            // If we've reached the last frame...
            if self.frame_index == animation_data.frames.len() {
                // Loop back around
                self.frame_index = 0;

                // And (optionally) decrement the loop counter
                if self.loops_remaining != ANIMATION_LOOPS_INDEFINITELY {
                    self.loops_remaining -= 1;
                }
            }

            // If we're done looping, the animation is finished, so return
            if self.is_finished() {
                return;
            }

            // Otherwise, setup the next animation frame
            self.frame_timer = animation_data.frames[self.frame_index].duration;
            self.h_frame = animation_data.frames[self.frame_index].h_frame;
            self.v_frame = animation_data.frames[self.frame_index].v_frame;
        }
    }

    /// Whether the animation has played all its loops.
    pub fn is_finished(&self) -> (b: bool)
        ensures
            b == self.spec_is_finished(),
    {
        self.loops_remaining == 0
    }

    pub open spec fn spec_is_on_hit_frame(&self) -> bool {
        match self.name.spec_hit_range() {
            Some((hit_start, hit_end)) => hit_start <= self.frame_index < hit_end,
            None => false,
        }
    }

    pub open spec fn spec_is_on_recovery_frame(&self) -> bool {
        match self.name.spec_hit_range() {
            Some((_, hit_end)) => self.frame_index >= hit_end,
            None => false,
        }
    }

    /// Whether the current frame is one on which the attack deals damage.
    pub fn is_on_hit_frame(&self) -> (b: bool)
        ensures
            b == self.spec_is_on_hit_frame(),
    {
        let animation_data = self.name.get_data();
        match animation_data.hit_range {
            Some((hit_start, hit_end)) => self.frame_index >= hit_start && self.frame_index < hit_end,
            None => false,
        }
    }

    /// Whether the current frame comes after the frames on which the attack deals damage.
    pub fn is_on_recovery_frame(&self) -> (b: bool)
        ensures
            b == self.spec_is_on_recovery_frame(),
    {
        let animation_data = self.name.get_data();
        match animation_data.hit_range {
            Some((_, hit_end)) => self.frame_index >= hit_end,
            None => false,
        }
    }
}

/// A fresh instance is well formed and running.
pub proof fn lemma_instance_wf(a: Animation)
    ensures
        a.spec_instance().wf(),
        a.spec_instance().spec_shows_current_frame(),
        !a.spec_instance().spec_is_finished(),
{
    lemma_data_well_formed(a);
}

impl Animation {
    /// A fresh instance of this animation, on its first frame.
    pub fn instance(self) -> (inst: AnimationInstance)
        ensures
            inst == self.spec_instance(),
            inst.wf(),
            inst.spec_shows_current_frame(),
            !inst.spec_is_finished(),
    {
        let animation_data = self.get_data();
        proof {
            lemma_data_well_formed(self);
        }
        AnimationInstance {
            name: self,
            frame_index: 0,
            frame_timer: animation_data.frames[0].duration,
            loops_remaining: animation_data.loops,
            h_frame: animation_data.frames[0].h_frame,
            v_frame: animation_data.frames[0].v_frame,
        }
    }
}

/// The table of every animation's description, indexed by `Animation::index`.
pub fn animation_init() -> (table: Vec<AnimationData>)
    ensures
        table.len() == ANIMATION_COUNT,
        forall|i: int|
            0 <= i < ANIMATION_COUNT ==> {
                let a = Animation::spec_from_index(i as usize);
                &&& #[trigger] table[i].loops == a.spec_loops()
                &&& table[i].hit_range == a.spec_hit_range()
                &&& table[i].frames@ == a.spec_frames()
            },
{
    let mut table: Vec<AnimationData> = Vec::new();
    let mut i: usize = 0;
    while i < ANIMATION_COUNT
        invariant
            i <= ANIMATION_COUNT,
            table.len() == i,
            forall|j: int|
                0 <= j < i ==> {
                    let a = Animation::spec_from_index(j as usize);
                    &&& #[trigger] table[j].loops == a.spec_loops()
                    &&& table[j].hit_range == a.spec_hit_range()
                    &&& table[j].frames@ == a.spec_frames()
                },
        decreases ANIMATION_COUNT - i,
    {
        let data = Animation::from_index(i).get_data();
        let ghost before = table@;
        table.push(data);
        assert(forall|j: int| 0 <= j < i ==> table@[j] == before[j]);
        i += 1;
    }
    table
}


impl AnimationInstance {
    /// The state reached when the last frame of a pass runs out.
    pub open spec fn spec_wrapped(self) -> AnimationInstance {
        let frames = self.spec_frames();
        let loops: u32 = if self.loops_remaining != ANIMATION_LOOPS_INDEFINITELY {
            (self.loops_remaining - 1) as u32
        } else {
            self.loops_remaining
        };
        if loops == 0 {
            AnimationInstance {
                name: self.name,
                frame_index: 0,
                frame_timer: 0,
                loops_remaining: 0,
                h_frame: frames.last().h_frame,
                v_frame: frames.last().v_frame,
            }
        } else {
            AnimationInstance {
                name: self.name,
                frame_index: 0,
                frame_timer: frames[0].duration,
                loops_remaining: loops,
                h_frame: frames[0].h_frame,
                v_frame: frames[0].v_frame,
            }
        }
    }
}

proof fn lemma_sum_durations_bounds(a: Animation, from: int)
    requires
        0 <= from,
    ensures
        sum_durations(a.spec_frames(), from) >= 0,
        from < a.spec_frames().len() ==> sum_durations(a.spec_frames(), from) >= 1,
        from >= a.spec_frames().len() ==> sum_durations(a.spec_frames(), from) == 0,
    decreases a.spec_frames().len() - from,
{
    lemma_data_well_formed(a);
    if from < a.spec_frames().len() {
        lemma_sum_durations_bounds(a, from + 1);
    }
}

/// One update keeps an instance well formed and brings its wrap one update closer.
proof fn lemma_step(s: AnimationInstance)
    requires
        s.wf(),
        !s.spec_is_finished(),
    ensures
        s.spec_step().wf(),
        s.spec_shows_current_frame() ==> s.spec_step().spec_shows_current_frame(),
        s.spec_step().name == s.name,
        s.spec_time_to_wrap() >= 1,
        s.spec_time_to_wrap() > 1 ==> {
            &&& !s.spec_step().spec_is_finished()
            &&& s.spec_step().loops_remaining == s.loops_remaining
            &&& s.spec_step().spec_time_to_wrap() == s.spec_time_to_wrap() - 1
        },
        s.spec_time_to_wrap() == 1 && s.spec_shows_current_frame() ==> s.spec_step()
            == s.spec_wrapped(),
{
    lemma_data_well_formed(s.name);
    lemma_sum_durations_bounds(s.name, s.frame_index + 1);
    lemma_sum_durations_bounds(s.name, s.frame_index + 2);
    let frames = s.spec_frames();
    assert(frames[s.frame_index + 1 as int].duration >= 1 || s.frame_index + 1 >= frames.len());
}

/// Running `a + b` updates is running `a` updates, then `b` more.
proof fn lemma_iterate_add(s: AnimationInstance, a: nat, b: nat)
    ensures
        s.spec_iterate(a + b) == s.spec_iterate(a).spec_iterate(b),
    decreases a,
{
    if a == 0 {
    } else if s.spec_is_finished() {
        lemma_iterate_finished(s, b);
        lemma_iterate_finished(s, a + b);
    } else {
        lemma_iterate_add(s.spec_step(), (a - 1) as nat, b);
        assert((a + b - 1) as nat == (a - 1) as nat + b);
    }
}

proof fn lemma_iterate_finished(s: AnimationInstance, n: nat)
    requires
        s.spec_is_finished(),
    ensures
        s.spec_iterate(n) == s,
{
}

/// Before the wrap, updates only walk through the frames of the current pass.
proof fn lemma_iterate_before_wrap(s: AnimationInstance, k: nat)
    requires
        s.wf(),
        !s.spec_is_finished(),
        k < s.spec_time_to_wrap(),
    ensures
        s.spec_iterate(k).wf(),
        s.spec_shows_current_frame() ==> s.spec_iterate(k).spec_shows_current_frame(),
        !s.spec_iterate(k).spec_is_finished(),
        s.spec_iterate(k).name == s.name,
        s.spec_iterate(k).loops_remaining == s.loops_remaining,
        s.spec_iterate(k).spec_time_to_wrap() == s.spec_time_to_wrap() - k,
    decreases k,
{
    if k > 0 {
        lemma_step(s);
        lemma_iterate_before_wrap(s.spec_step(), (k - 1) as nat);
    }
}

/// After exactly `spec_time_to_wrap` updates the pass ends.
proof fn lemma_iterate_to_wrap(s: AnimationInstance)
    requires
        s.wf(),
        s.spec_shows_current_frame(),
        !s.spec_is_finished(),
    ensures
        s.spec_time_to_wrap() >= 1,
        s.spec_iterate(s.spec_time_to_wrap() as nat) == s.spec_wrapped(),
{
    lemma_step(s);
    let k = (s.spec_time_to_wrap() - 1) as nat;
    lemma_iterate_before_wrap(s, k);
    let t = s.spec_iterate(k);
    lemma_step(t);
    lemma_iterate_add(s, k, 1);
    assert(k + 1 == s.spec_time_to_wrap() as nat);
    assert(t.spec_iterate(1) == t.spec_step().spec_iterate(0));
}

/// An animation that plays once (such as an attack) is still running for
/// fewer updates than its total duration, and finished after exactly that many.
pub proof fn law_one_shot_finishes_after_total_duration(a: Animation, k: nat)
    requires
        a.spec_loops() == 1,
    ensures
        k < a.spec_total_duration() ==> !a.spec_instance().spec_iterate(k).spec_is_finished(),
        a.spec_instance().spec_iterate(a.spec_total_duration() as nat).spec_is_finished(),
{
    let s = a.spec_instance();
    lemma_data_well_formed(a);
    lemma_sum_durations_bounds(a, 1);
    assert(s.spec_time_to_wrap() == a.spec_total_duration());
    if k < a.spec_total_duration() {
        lemma_iterate_before_wrap(s, k);
    }
    lemma_iterate_to_wrap(s);
}

/// An animation that loops indefinitely is back on its first frame, in its
/// initial state, after its total duration.
pub proof fn law_looping_animation_repeats(a: Animation)
    requires
        a.spec_loops() == ANIMATION_LOOPS_INDEFINITELY,
    ensures
        a.spec_instance().spec_iterate(a.spec_total_duration() as nat) == a.spec_instance(),
{
    let s = a.spec_instance();
    lemma_data_well_formed(a);
    lemma_sum_durations_bounds(a, 1);
    assert(s.spec_time_to_wrap() == a.spec_total_duration());
    lemma_iterate_to_wrap(s);
}

/// An instance of an animation that loops indefinitely never finishes,
/// however many updates it gets.
pub proof fn law_looping_animation_never_finishes(s: AnimationInstance, n: nat)
    requires
        s.wf(),
        s.name.spec_loops() == ANIMATION_LOOPS_INDEFINITELY,
    ensures
        s.spec_iterate(n).wf(),
        !s.spec_iterate(n).spec_is_finished(),
    decreases n,
{
    if n > 0 {
        lemma_step(s);
        law_looping_animation_never_finishes(s.spec_step(), (n - 1) as nat);
    }
}

/// No frame is both a hit frame and a recovery frame.
pub proof fn law_hit_and_recovery_frames_disjoint(s: AnimationInstance)
    ensures
        !(s.spec_is_on_hit_frame() && s.spec_is_on_recovery_frame()),
{
}

} // verus!
