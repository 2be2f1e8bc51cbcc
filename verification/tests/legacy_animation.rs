use super_snack_bros::animation::{animation_crab_idle, Animation, AnimationFrame};

#[test]
fn crab_idle_instance_and_update() {
    let animation = animation_crab_idle();
    let mut inst = animation.instance();
    assert_eq!((inst.frame_index, inst.frame_timer, inst.h_frame, inst.v_frame), (0, 16, 0, 0));
    for _ in 0..15 {
        inst.update();
    }
    assert_eq!(inst.frame_index, 0);
    assert_eq!(inst.frame_timer, 1);
    inst.update();
    assert_eq!((inst.frame_index, inst.frame_timer, inst.h_frame), (1, 16, 1));
}

#[test]
fn crab_idle_repeats_after_thirty_two_updates() {
    let animation = animation_crab_idle();
    let mut inst = animation.instance();
    for _ in 0..32 {
        inst.update();
    }
    assert_eq!((inst.frame_index, inst.frame_timer, inst.h_frame, inst.v_frame), (0, 16, 0, 0));
}

#[test]
fn single_frame_animation_stays_on_its_frame() {
    let animation = Animation { frames: vec![AnimationFrame { h_frame: 3, v_frame: 2, duration: 1 }] };
    let mut inst = animation.instance();
    for _ in 0..5 {
        inst.update();
        assert_eq!((inst.frame_index, inst.frame_timer, inst.h_frame, inst.v_frame), (0, 1, 3, 2));
    }
}

#[test]
fn uneven_durations() {
    let animation = Animation {
        frames: vec![
            AnimationFrame { h_frame: 0, v_frame: 0, duration: 2 },
            AnimationFrame { h_frame: 5, v_frame: 1, duration: 3 },
        ],
    };
    let mut inst = animation.instance();
    inst.update();
    inst.update();
    assert_eq!((inst.frame_index, inst.h_frame, inst.v_frame), (1, 5, 1));
    inst.update();
    inst.update();
    inst.update();
    assert_eq!((inst.frame_index, inst.frame_timer, inst.h_frame), (0, 2, 0));
}

#[test]
fn legacy_update_does_not_need_the_shown_cell() {
    let animation = animation_crab_idle();
    let mut inst = animation.instance();
    inst.h_frame = 7;
    for _ in 0..16 {
        inst.update();
    }
    assert_eq!((inst.frame_index, inst.h_frame), (1, 1));
}
