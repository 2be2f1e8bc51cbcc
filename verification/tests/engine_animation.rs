use super_snack_bros::engine::animation::{animation_init, Animation, ANIMATION_COUNT};

const ALL: [Animation; 8] = [
    Animation::CrabIdle,
    Animation::CrabWalk,
    Animation::CrabJump,
    Animation::CrabFall,
    Animation::CrabHurt,
    Animation::CrabPunch,
    Animation::CrabPunch2,
    Animation::CrabSideSmash,
];

fn total_duration(animation: Animation) -> u32 {
    animation.get_data().frames.iter().map(|f| f.duration).sum()
}

#[test]
fn instance_starts_on_first_frame() {
    let inst = Animation::CrabWalk.instance();
    assert_eq!(inst.name, Animation::CrabWalk);
    assert_eq!(inst.frame_index, 0);
    assert_eq!(inst.frame_timer, 8);
    assert_eq!((inst.h_frame, inst.v_frame), (0, 0));
    assert!(!inst.is_finished());
}

#[test]
fn idle_switches_frame_after_its_duration() {
    let mut inst = Animation::CrabIdle.instance();
    for _ in 0..9 {
        inst.update();
        assert_eq!(inst.frame_index, 0);
    }
    inst.update();
    assert_eq!(inst.frame_index, 1);
    assert_eq!((inst.h_frame, inst.v_frame), (1, 0));
    assert_eq!(inst.frame_timer, 10);
}

#[test]
fn looping_animation_repeats_after_total_duration() {
    for animation in ALL {
        if animation.get_data().loops != u32::MAX {
            continue;
        }
        let start = animation.instance();
        let mut inst = animation.instance();
        for _ in 0..total_duration(animation) {
            inst.update();
            assert!(!inst.is_finished());
        }
        assert_eq!(inst.frame_index, start.frame_index);
        assert_eq!(inst.frame_timer, start.frame_timer);
        assert_eq!(inst.loops_remaining, start.loops_remaining);
        assert_eq!((inst.h_frame, inst.v_frame), (start.h_frame, start.v_frame));
    }
}

#[test]
fn one_shot_finishes_after_total_duration() {
    for animation in [Animation::CrabPunch, Animation::CrabPunch2, Animation::CrabSideSmash] {
        let total = total_duration(animation);
        let mut inst = animation.instance();
        for _ in 0..total - 1 {
            inst.update();
            assert!(!inst.is_finished());
        }
        inst.update();
        assert!(inst.is_finished());
        assert_eq!(inst.frame_index, 0);
        assert_eq!(inst.frame_timer, 0);
    }
}

#[test]
fn punch_total_duration_is_twelve() {
    assert_eq!(total_duration(Animation::CrabPunch), 12);
    assert_eq!(total_duration(Animation::CrabPunch2), 24);
    assert_eq!(total_duration(Animation::CrabIdle), 20);
}

#[test]
fn finished_punch_keeps_last_cell() {
    let mut inst = Animation::CrabPunch.instance();
    for _ in 0..12 {
        inst.update();
    }
    assert!(inst.is_finished());
    assert_eq!((inst.h_frame, inst.v_frame), (2, 1));
}

#[test]
fn punch_hit_and_recovery_frames() {
    let mut inst = Animation::CrabPunch.instance();
    // frame 0: wind-up
    assert!(!inst.is_on_hit_frame());
    assert!(!inst.is_on_recovery_frame());
    for _ in 0..4 {
        inst.update();
    }
    // frame 1: hit
    assert_eq!(inst.frame_index, 1);
    assert!(inst.is_on_hit_frame());
    assert!(!inst.is_on_recovery_frame());
    for _ in 0..4 {
        inst.update();
    }
    // frame 2: recovery
    assert_eq!(inst.frame_index, 2);
    assert!(!inst.is_on_hit_frame());
    assert!(inst.is_on_recovery_frame());
}

#[test]
fn animations_without_hit_range_never_hit() {
    let mut inst = Animation::CrabWalk.instance();
    for _ in 0..40 {
        assert!(!inst.is_on_hit_frame());
        assert!(!inst.is_on_recovery_frame());
        inst.update();
    }
}

#[test]
fn hit_and_recovery_never_both() {
    for animation in ALL {
        let mut inst = animation.instance();
        for _ in 0..total_duration(animation) {
            assert!(!(inst.is_on_hit_frame() && inst.is_on_recovery_frame()));
            inst.update();
            if inst.is_finished() {
                break;
            }
        }
    }
}

#[test]
fn init_table_matches_each_animation() {
    let table = animation_init();
    assert_eq!(table.len(), ANIMATION_COUNT);
    for animation in ALL {
        let entry = &table[animation.index()];
        let data = animation.get_data();
        assert_eq!(entry.loops, data.loops);
        assert_eq!(entry.hit_range, data.hit_range);
        assert_eq!(entry.frames.len(), data.frames.len());
    }
    assert_eq!(table[5].hit_range, Some((1, 2)));
    assert_eq!(table[7].frames[1].h_frame, 0);
    assert_eq!(table[7].frames[1].v_frame, 2);
}

#[test]
fn index_and_from_index_agree() {
    for (i, animation) in ALL.iter().enumerate() {
        assert_eq!(animation.index(), i);
        assert_eq!(Animation::from_index(i), *animation);
    }
}

#[test]
fn side_smash_data() {
    let data = Animation::CrabSideSmash.get_data();
    assert_eq!(data.loops, 1);
    assert_eq!(data.hit_range, Some((2, 3)));
    assert_eq!(data.frames.len(), 6);
    assert_eq!(data.frames[5].h_frame, 3);
}

#[test]
fn update_does_not_need_the_shown_cell() {
    let mut inst = Animation::CrabIdle.instance();
    inst.h_frame = 9;
    inst.v_frame = 9;
    inst.update();
    // the shown cell is left alone until the frame changes
    assert_eq!((inst.h_frame, inst.v_frame), (9, 9));
    for _ in 0..9 {
        inst.update();
    }
    assert_eq!(inst.frame_index, 1);
    assert_eq!((inst.h_frame, inst.v_frame), (1, 0));
}
