//! Sprite animation state: a five-state machine with per-state frame counts
//! and an attack lock that makes one attack cycle uninterruptible.

use vstd::prelude::*;
use crate::components::action_state::ActionState;

verus! {

/// Time each animation frame is shown, in milliseconds.
pub const DEFAULT_FRAME_DURATION: u32 = 100;

#[derive(Clone, Copy, PartialEq, Eq, Structural, Debug)]
pub enum AnimationState {
    Idle,
    Walk,
    Attack,
    Hurt,
    Death,
}

/// Animation record for one entity.
///
/// `frame_duration` and `elapsed_time` are in milliseconds. While
/// `is_attack_in_progress` is true, intents other than the frame-advance
/// step itself cannot change `state`.
#[derive(Clone, Copy, PartialEq, Eq, Structural, Debug)]
pub struct Animation {
    pub current_frame: usize,
    pub frame_duration: u32,
    pub state: AnimationState,
    pub elapsed_time: u32,
    pub is_attack_in_progress: bool,
    pub idle_frames: usize,
    pub walk_frames: usize,
    pub attack_frames: usize,
}

impl Animation {
    /// Number of frames of the current state's animation. States without
    /// their own sheet (Hurt, Death) fall back to the idle count.
    pub open spec fn spec_frames_for_state(self) -> usize {
        match self.state {
            AnimationState::Idle => self.idle_frames,
            AnimationState::Walk => self.walk_frames,
            AnimationState::Attack => self.attack_frames,
            _ => self.idle_frames,
        }
    }

    /// Well-formedness: every frame count is positive, the frame timer is
    /// positive, and the current frame indexes into the current state's
    /// sheet, so a renderer can never index out of range.
    pub open spec fn wf(self) -> bool {
        &&& self.idle_frames >= 1
        &&& self.walk_frames >= 1
        &&& self.attack_frames >= 1
        &&& self.frame_duration >= 1
        &&& self.current_frame < self.spec_frames_for_state()
        &&& self.elapsed_time < self.frame_duration
    }

    /// Result of applying one frame's declared intent to the animation,
    /// in priority order: an attack intent starts an attack cycle unless one
    /// is already running; while the attack lock is held all other intents
    /// are ignored; otherwise directed movement selects Walk and anything
    /// else Idle, resetting the frame on a state change.
    pub open spec fn spec_apply_intent(self, action: ActionState) -> Animation {
        if action == ActionState::Attacking && !self.is_attack_in_progress {
            Animation {
                state: AnimationState::Attack,
                current_frame: 0,
                is_attack_in_progress: true,
                ..self
            }
        } else if !self.is_attack_in_progress {
            let target = if action.is_directed_movement() {
                AnimationState::Walk
            } else {
                AnimationState::Idle
            };
            if target != self.state {
                Animation { state: target, current_frame: 0, ..self }
            } else {
                self
            }
        } else {
            self
        }
    }

    /// Result of advancing the animation clock by `frame_time` milliseconds:
    /// once the accumulator reaches `frame_duration` it resets and the frame
    /// advances, wrapping to 0 at the end of the sheet; a wrap that completes
    /// a locked attack cycle releases the lock and returns to Idle.
    /// The accumulator saturates instead of overflowing.
    pub open spec fn spec_update(self, frame_time: u32) -> Animation {
        let elapsed = if self.elapsed_time + frame_time > u32::MAX {
            u32::MAX
        } else {
            (self.elapsed_time + frame_time) as u32
        };
        if elapsed >= self.frame_duration {
            let next = self.current_frame + 1;
            if next >= self.spec_frames_for_state() {
                if self.state == AnimationState::Attack && self.is_attack_in_progress {
                    Animation {
                        current_frame: 0,
                        elapsed_time: 0,
                        state: AnimationState::Idle,
                        is_attack_in_progress: false,
                        ..self
                    }
                } else {
                    Animation { current_frame: 0, elapsed_time: 0, ..self }
                }
            } else {
                Animation { current_frame: next as usize, elapsed_time: 0, ..self }
            }
        } else {
            Animation { elapsed_time: elapsed, ..self }
        }
    }

    /// A fresh animation showing frame 0 of `state` at the default frame
    /// duration, with no attack in progress.
    pub fn new(
        state: AnimationState,
        idle_frames: usize,
        walk_frames: usize,
        attack_frames: usize,
    ) -> (a: Animation)
        requires
            idle_frames >= 1,
            walk_frames >= 1,
            attack_frames >= 1,
        ensures
            a == (Animation {
                current_frame: 0,
                frame_duration: DEFAULT_FRAME_DURATION,
                state: state,
                elapsed_time: 0,
                is_attack_in_progress: false,
                idle_frames: idle_frames,
                walk_frames: walk_frames,
                attack_frames: attack_frames,
            }),
            a.wf(),
    {
        Animation {
            current_frame: 0,
            frame_duration: DEFAULT_FRAME_DURATION,
            state,
            elapsed_time: 0,
            is_attack_in_progress: false,
            idle_frames,
            walk_frames,
            attack_frames,
        }
    }

    /// Apply one frame's declared intent (the animation resolver's
    /// transition rules, without the frame-advance step).
    pub fn apply_intent(&mut self, action: &ActionState)
        requires
            old(self).wf(),
        ensures
            *final(self) == old(self).spec_apply_intent(*action),
            final(self).wf(),
    {
        if *action == ActionState::Attacking {
            if !self.is_attack_in_progress {
                self.state = AnimationState::Attack;
                self.current_frame = 0;
                self.is_attack_in_progress = true;
            }
        } else if !self.is_attack_in_progress {
            let target = match action {
                ActionState::Moving { right, left, up, down } => {
                    if *right || *left || *up || *down {
                        AnimationState::Walk
                    } else {
                        AnimationState::Idle
                    }
                },
                _ => AnimationState::Idle,
            };
            if target != self.state {
                self.state = target;
                self.current_frame = 0;
            }
        }
    }

    /// Advance the animation clock by `frame_time` milliseconds (the frame
    /// advance step, run every frame independently of intent).
    pub fn update(&mut self, frame_time: u32)
        requires
            old(self).wf(),
        ensures
            *final(self) == old(self).spec_update(frame_time),
            final(self).wf(),
    {
        if frame_time > u32::MAX - self.elapsed_time {
            self.elapsed_time = u32::MAX;
        } else {
            self.elapsed_time = self.elapsed_time + frame_time;
        }
        if self.elapsed_time >= self.frame_duration {
            self.elapsed_time = 0;
            let next = self.current_frame + 1;
            let total = match self.state {
                AnimationState::Idle => self.idle_frames,
                AnimationState::Walk => self.walk_frames,
                AnimationState::Attack => self.attack_frames,
                _ => self.idle_frames,
            };
            if next >= total {
                self.current_frame = 0;
                if self.state == AnimationState::Attack && self.is_attack_in_progress {
                    self.is_attack_in_progress = false;
                    self.state = AnimationState::Idle;
                }
            } else {
                self.current_frame = next;
            }
        }
    }

    /// True when the current frame is the last of the current state's sheet.
    pub fn has_completed_cycle(&self) -> (r: bool)
        requires
            self.wf(),
        ensures
            r == (self.current_frame >= self.spec_frames_for_state() - 1),
    {
        let total = match self.state {
            AnimationState::Idle => self.idle_frames,
            AnimationState::Walk => self.walk_frames,
            AnimationState::Attack => self.attack_frames,
            _ => self.idle_frames,
        };
        self.current_frame >= total - 1
    }
}

/// Law: an attack intent issued while no attack is in progress — whatever
/// state the animation is in, mid-walk included — forces the Attack state
/// immediately, resets the frame to 0 and takes the lock; nothing can
/// pre-empt this transition.
pub proof fn lemma_attack_intent_forces_attack(a: Animation)
    requires
        a.wf(),
        !a.is_attack_in_progress,
    ensures
        a.spec_apply_intent(ActionState::Attacking) == (Animation {
            state: AnimationState::Attack,
            current_frame: 0,
            is_attack_in_progress: true,
            ..a
        }),
{
}

/// Law: while an attack is in progress, every intent — movement intents
/// included — is ignored by the intent step; only the frame-advance step
/// can end the lock.
pub proof fn lemma_attack_lock_ignores_intents(a: Animation, action: ActionState)
    requires
        a.is_attack_in_progress,
    ensures
        a.spec_apply_intent(action) == a,
{
}

/// Law: a frame advance that does not yet wrap the attack sheet keeps the
/// lock and the Attack state.
pub proof fn lemma_attack_cycle_keeps_lock(a: Animation, frame_time: u32)
    requires
        a.wf(),
        a.state == AnimationState::Attack,
        a.is_attack_in_progress,
        a.current_frame + 1 < a.attack_frames,
    ensures
        a.spec_update(frame_time).is_attack_in_progress,
        a.spec_update(frame_time).state == AnimationState::Attack,
{
}

/// Law: the frame advance that wraps the last attack frame completes the
/// cycle: it releases the lock, returns the state to Idle and resets the
/// frame to 0.
pub proof fn lemma_attack_cycle_completion(a: Animation, frame_time: u32)
    requires
        a.wf(),
        a.state == AnimationState::Attack,
        a.is_attack_in_progress,
        a.current_frame == a.attack_frames - 1,
        a.elapsed_time + frame_time >= a.frame_duration,
    ensures
        a.spec_update(frame_time).state == AnimationState::Idle,
        !a.spec_update(frame_time).is_attack_in_progress,
        a.spec_update(frame_time).current_frame == 0,
{
}

/// Law: advancing the animation clock by zero elapsed time changes
/// nothing. (The intent step is time-independent by design, so it is not
/// covered by this identity.)
pub proof fn lemma_zero_elapsed_update_is_identity(a: Animation)
    requires
        a.wf(),
    ensures
        a.spec_update(0) == a,
{
}

} // verus!
