use tilecore::components::action_state::ActionState;
use tilecore::components::animation::{Animation, AnimationState};

fn walking() -> Animation {
    let mut a = Animation::new(AnimationState::Walk, 6, 8, 9);
    a.current_frame = 3;
    a.elapsed_time = 40;
    a
}

#[test]
fn new_starts_at_frame_zero_without_lock() {
    let a = Animation::new(AnimationState::Idle, 6, 8, 9);
    assert_eq!(a.current_frame, 0);
    assert_eq!(a.frame_duration, 100);
    assert_eq!(a.elapsed_time, 0);
    assert!(!a.is_attack_in_progress);
    assert_eq!(a.state, AnimationState::Idle);
}

#[test]
fn attack_intent_mid_walk_forces_attack_immediately() {
    let mut a = walking();
    a.apply_intent(&ActionState::Attacking);
    assert_eq!(a.state, AnimationState::Attack);
    assert_eq!(a.current_frame, 0);
    assert!(a.is_attack_in_progress);
}

#[test]
fn attack_lock_ignores_later_intents_until_cycle_completes() {
    let mut a = walking();
    a.apply_intent(&ActionState::Attacking);
    let moving = ActionState::Moving { right: true, left: false, up: false, down: false };
    // Movement intents are ignored for the whole 9-frame attack cycle.
    for frame in 1..9 {
        a.apply_intent(&moving);
        assert_eq!(a.state, AnimationState::Attack);
        a.update(100);
        assert_eq!(a.current_frame, frame);
        assert!(a.is_attack_in_progress);
    }
    // The wrap from the last attack frame completes the cycle.
    a.apply_intent(&moving);
    assert_eq!(a.state, AnimationState::Attack);
    a.update(100);
    assert_eq!(a.state, AnimationState::Idle);
    assert_eq!(a.current_frame, 0);
    assert!(!a.is_attack_in_progress);
    // Intents are honored again.
    a.apply_intent(&moving);
    assert_eq!(a.state, AnimationState::Walk);
    assert_eq!(a.current_frame, 0);
}

#[test]
fn attack_intent_during_attack_does_not_restart_cycle() {
    let mut a = walking();
    a.apply_intent(&ActionState::Attacking);
    a.update(100);
    assert_eq!(a.current_frame, 1);
    a.apply_intent(&ActionState::Attacking);
    assert_eq!(a.current_frame, 1); // not reset
}

#[test]
fn movement_intent_switches_to_walk_and_resets_frame() {
    let mut a = Animation::new(AnimationState::Idle, 6, 8, 9);
    a.current_frame = 2;
    a.apply_intent(&ActionState::Moving { right: false, left: true, up: false, down: false });
    assert_eq!(a.state, AnimationState::Walk);
    assert_eq!(a.current_frame, 0);
    // Same target state again: frame is kept.
    a.current_frame = 4;
    a.apply_intent(&ActionState::Moving { right: true, left: false, up: false, down: false });
    assert_eq!(a.state, AnimationState::Walk);
    assert_eq!(a.current_frame, 4);
}

#[test]
fn moving_with_no_bits_set_counts_as_idle() {
    let mut a = walking();
    a.apply_intent(&ActionState::Moving { right: false, left: false, up: false, down: false });
    assert_eq!(a.state, AnimationState::Idle);
    assert_eq!(a.current_frame, 0);
}

#[test]
fn frame_advances_when_the_accumulator_fills() {
    let mut a = Animation::new(AnimationState::Idle, 6, 8, 9);
    a.update(60);
    assert_eq!(a.current_frame, 0);
    assert_eq!(a.elapsed_time, 60);
    a.update(40); // reaches the 100 ms frame duration
    assert_eq!(a.current_frame, 1);
    assert_eq!(a.elapsed_time, 0);
}

#[test]
fn frames_wrap_at_the_state_frame_count() {
    let mut a = Animation::new(AnimationState::Idle, 2, 8, 9);
    a.update(100);
    assert_eq!(a.current_frame, 1);
    a.update(100);
    assert_eq!(a.current_frame, 0); // wrapped at idle_frames == 2
    assert_eq!(a.state, AnimationState::Idle);
}

#[test]
fn zero_elapsed_update_changes_nothing() {
    let mut a = walking();
    let before = a;
    a.update(0);
    assert_eq!(a, before);
}

#[test]
fn has_completed_cycle_reports_last_frame() {
    let mut a = Animation::new(AnimationState::Walk, 6, 8, 9);
    assert!(!a.has_completed_cycle());
    a.current_frame = 7;
    assert!(a.has_completed_cycle());
}
