//! Endlessly looping frame animations described by a list of frames.
use vstd::prelude::*;

verus! {

/// One frame of an animation: the sprite cell to show and for how many updates.
#[derive(Debug, Copy, Clone)]
pub struct AnimationFrame {
    pub h_frame: u32,
    pub v_frame: u32,
    pub duration: u32,
}

/// An animation: its frames, played in order and then again from the first.
pub struct Animation {
    pub frames: Vec<AnimationFrame>,
}

/// A running animation.
pub struct AnimationInstance<'a> {
    pub animation: &'a Animation,
    pub frame_index: usize,
    pub frame_timer: u32,
    pub h_frame: u32,
    pub v_frame: u32,
}

/// Sum of the durations of `frames[from..]`.
pub open spec fn sum_durations(frames: Seq<AnimationFrame>, from: int) -> int
    decreases frames.len() - from,
{
    if from < 0 || from >= frames.len() {
        0
    } else {
        frames[from].duration + sum_durations(frames, from + 1)
    }
}

impl Animation {
    /// The animation has at least one frame (and no more than a `Vec` holds),
    /// and every frame lasts at least one update.
    pub open spec fn wf(&self) -> bool {
        &&& 1 <= self.frames@.len() <= usize::MAX
        &&& forall|i: int| 0 <= i < self.frames@.len() ==> #[trigger] self.frames@[i].duration >= 1
    }

    /// Number of updates one pass through all the frames takes.
    pub open spec fn spec_total_duration(&self) -> int {
        sum_durations(self.frames@, 0)
    }

    /// The state of a fresh instance of this animation.
    pub open spec fn spec_instance<'a>(&'a self) -> AnimationInstance<'a> {
        AnimationInstance {
            animation: self,
            frame_index: 0,
            frame_timer: self.frames@[0].duration,
            h_frame: self.frames@[0].h_frame,
            v_frame: self.frames@[0].v_frame,
        }
    }

    /// A fresh instance of this animation, on its first frame.
    pub fn instance<'a>(&'a self) -> (inst: AnimationInstance<'a>)
        requires
            self.wf(),
        ensures
            inst == self.spec_instance(),
            inst.wf(),
            inst.spec_shows_current_frame(),
    {
        AnimationInstance {
            animation: self,
            frame_index: 0,
            frame_timer: self.frames[0].duration,
            h_frame: self.frames[0].h_frame,
            v_frame: self.frames[0].v_frame,
        }
    }
}

impl<'a> AnimationInstance<'a> {
    pub open spec fn spec_frames(&self) -> Seq<AnimationFrame> {
        self.animation.frames@
    }

    /// The instance is on a frame of its animation, whose time has not run out.
    pub open spec fn wf(&self) -> bool {
        let frames = self.spec_frames();
        &&& self.animation.wf()
        &&& self.frame_index < frames.len()
        &&& 1 <= self.frame_timer <= frames[self.frame_index as int].duration
    }

    /// The shown cell is the current frame's.
    pub open spec fn spec_shows_current_frame(&self) -> bool {
        let frames = self.spec_frames();
        &&& self.h_frame == frames[self.frame_index as int].h_frame
        &&& self.v_frame == frames[self.frame_index as int].v_frame
    }

    /// The state one `update` leads to.
    pub open spec fn spec_step(self) -> AnimationInstance<'a> {
        let frames = self.spec_frames();
        let timer = (self.frame_timer - 1) as u32;
        if timer != 0 {
            AnimationInstance { frame_timer: timer, ..self }
        } else {
            let index = ((self.frame_index + 1) % (frames.len() as int)) as usize;
            AnimationInstance {
                animation: self.animation,
                frame_index: index,
                frame_timer: frames[index as int].duration,
                h_frame: frames[index as int].h_frame,
                v_frame: frames[index as int].v_frame,
            }
        }
    }

    /// The state after `n` updates.
    pub open spec fn spec_iterate(self, n: nat) -> AnimationInstance<'a>
        decreases n,
    {
        if n == 0 {
            self
        } else {
            self.spec_step().spec_iterate((n - 1) as nat)
        }
    }

    /// Updates left until the animation passes its last frame.
    pub open spec fn spec_time_to_wrap(&self) -> int {
        self.frame_timer + sum_durations(self.spec_frames(), self.frame_index + 1)
    }

    /// Moves the animation on by one update.
    pub fn update(&mut self)
        requires
            old(self).wf(),
        ensures
            final(self).wf(),
            *final(self) == old(self).spec_step(),
            old(self).spec_shows_current_frame() ==> final(self).spec_shows_current_frame(),
    {
        self.frame_timer -= 1;
        if self.frame_timer == 0 {
            proof {
                lemma_next_index(self.frame_index as int, self.animation.frames@.len() as int);
            }
            let frame_count = self.animation.frames.len();
            self.frame_index = (self.frame_index + 1) % frame_count;
            self.frame_timer = self.animation.frames[self.frame_index].duration;
            self.h_frame = self.animation.frames[self.frame_index].h_frame;
            self.v_frame = self.animation.frames[self.frame_index].v_frame;
        }
    }
}

/// The crab's idle animation.
pub fn animation_crab_idle() -> (a: Animation)
    ensures
        a.wf(),
        a.frames@ == seq![
            AnimationFrame { h_frame: 0, v_frame: 0, duration: 16 },
            AnimationFrame { h_frame: 1, v_frame: 0, duration: 16 },
        ],
{
    let a = Animation {
        frames: vec![
            AnimationFrame { h_frame: 0, v_frame: 0, duration: 16 },
            AnimationFrame { h_frame: 1, v_frame: 0, duration: 16 },
        ],
    };
    assert(a.frames@ =~= seq![
        AnimationFrame { h_frame: 0, v_frame: 0, duration: 16 },
        AnimationFrame { h_frame: 1, v_frame: 0, duration: 16 },
    ]);
    a
}

proof fn lemma_next_index(index: int, len: int)
    requires
        0 <= index < len,
    ensures
        (index + 1) % len == if index + 1 < len { index + 1 } else { 0 },
{
    assert((index + 1) % len == if index + 1 < len { index + 1 } else { 0 }) by (nonlinear_arith)
        requires
            0 <= index < len,
    ;
}

proof fn lemma_sum_durations_bounds(a: &Animation, from: int)
    requires
        a.wf(),
        0 <= from,
    ensures
        sum_durations(a.frames@, from) >= 0,
        from < a.frames@.len() ==> sum_durations(a.frames@, from) >= 1,
        from >= a.frames@.len() ==> sum_durations(a.frames@, from) == 0,
    decreases a.frames@.len() - from,
{
    if from < a.frames@.len() {
        lemma_sum_durations_bounds(a, from + 1);
    }
}

proof fn lemma_step<'a>(s: AnimationInstance<'a>)
    requires
        s.wf(),
    ensures
        s.spec_step().wf(),
        s.spec_time_to_wrap() >= 1,
        s.spec_time_to_wrap() > 1 ==> s.spec_step().spec_time_to_wrap() == s.spec_time_to_wrap()
            - 1,
        s.spec_time_to_wrap() == 1 ==> s.spec_step() == s.animation.spec_instance(),
{
    lemma_next_index(s.frame_index as int, s.spec_frames().len() as int);
    lemma_sum_durations_bounds(s.animation, s.frame_index + 1);
    lemma_sum_durations_bounds(s.animation, s.frame_index + 2);
    let frames = s.spec_frames();
    assert(s.frame_index + 1 >= frames.len() || frames[s.frame_index + 1 as int].duration >= 1);
    if s.frame_timer == 1 && s.frame_index + 1 < frames.len() {
        let t = s.spec_step();
        assert(t.frame_index == s.frame_index + 1);
        assert(sum_durations(frames, s.frame_index + 1) == frames[s.frame_index + 1].duration
            + sum_durations(frames, s.frame_index + 2));
    }
}

proof fn lemma_iterate_before_wrap<'a>(s: AnimationInstance<'a>, k: nat)
    requires
        s.wf(),
        k < s.spec_time_to_wrap(),
    ensures
        s.spec_iterate(k).wf(),
        s.spec_iterate(k).animation == s.animation,
        s.spec_iterate(k).spec_time_to_wrap() == s.spec_time_to_wrap() - k,
    decreases k,
{
    if k > 0 {
        lemma_step(s);
        lemma_iterate_before_wrap(s.spec_step(), (k - 1) as nat);
    }
}

proof fn lemma_iterate_add<'a>(s: AnimationInstance<'a>, a: nat, b: nat)
    ensures
        s.spec_iterate(a + b) == s.spec_iterate(a).spec_iterate(b),
    decreases a,
{
    if a > 0 {
        lemma_iterate_add(s.spec_step(), (a - 1) as nat, b);
        assert((a + b - 1) as nat == (a - 1) as nat + b);
    }
}

/// After one pass through its frames (its total duration in updates), a
/// fresh instance is back in its initial state: the animation repeats forever.
pub proof fn law_animation_repeats(a: &Animation)
    requires
        a.wf(),
    ensures
        a.spec_instance().spec_iterate(a.spec_total_duration() as nat) == a.spec_instance(),
{
    let s = a.spec_instance();
    lemma_sum_durations_bounds(a, 1);
    assert(s.spec_time_to_wrap() == a.spec_total_duration());
    lemma_step(s);
    let k = (s.spec_time_to_wrap() - 1) as nat;
    lemma_iterate_before_wrap(s, k);
    let t = s.spec_iterate(k);
    lemma_step(t);
    lemma_iterate_add(s, k, 1);
    assert(k + 1 == s.spec_time_to_wrap() as nat);
    assert(t.spec_iterate(1) == t.spec_step().spec_iterate(0));
}

} // verus!
