//! Health records: current/max points, queued damage and healing,
//! an invulnerability window, passive regeneration and a death flag.

use vstd::prelude::*;

verus! {

/// Invulnerability granted after a hit, in milliseconds.
pub const DEFAULT_INVULNERABILITY: u32 = 500;

/// Micro-points per whole health point: the regeneration accumulator is
/// kept in micro-points so that a rate in milli-points per second times an
/// elapsed time in milliseconds accumulates exactly.
pub const MICRO_POINTS_PER_POINT: u64 = 1_000_000;

/// Health component for one entity.
///
/// `invulnerability_timer` and `invulnerability_duration` are milliseconds;
/// `regeneration_rate` is milli-points per second;
/// `regeneration_accumulator` is micro-points of pending regeneration.
#[derive(Clone, PartialEq, Debug)]
pub struct Health {
    pub current: u32,
    pub max: u32,
    pub damage_queue: Vec<u32>,
    pub healing_queue: Vec<u32>,
    pub invulnerability_timer: u32,
    pub invulnerability_duration: u32,
    pub regeneration_rate: u32,
    pub regeneration_accumulator: u64,
    pub is_dead: bool,
}

impl Health {
    /// Well-formedness: points never exceed the maximum, and pending
    /// regeneration is always less than one whole point (whole points are
    /// paid out as soon as they accrue).
    pub open spec fn wf(self) -> bool {
        &&& self.current <= self.max
        &&& self.regeneration_accumulator < MICRO_POINTS_PER_POINT
    }

    /// A live record with the default invulnerability window and no
    /// regeneration, and nothing queued.
    pub fn new(current: u32, max: u32) -> (h: Health)
        requires
            current <= max,
        ensures
            h.current == current,
            h.max == max,
            h.damage_queue@ == Seq::<u32>::empty(),
            h.healing_queue@ == Seq::<u32>::empty(),
            h.invulnerability_timer == 0,
            h.invulnerability_duration == DEFAULT_INVULNERABILITY,
            h.regeneration_rate == 0,
            h.regeneration_accumulator == 0,
            !h.is_dead,
            h.wf(),
    {
        Health {
            current,
            max,
            damage_queue: Vec::new(),
            healing_queue: Vec::new(),
            invulnerability_timer: 0,
            invulnerability_duration: DEFAULT_INVULNERABILITY,
            regeneration_rate: 0,
            regeneration_accumulator: 0,
            is_dead: false,
        }
    }

    /// Like `new`, with a custom invulnerability window in milliseconds.
    pub fn with_invulnerability(current: u32, max: u32, invulnerability_duration: u32) -> (h:
        Health)
        requires
            current <= max,
        ensures
            h.current == current,
            h.max == max,
            h.damage_queue@ == Seq::<u32>::empty(),
            h.healing_queue@ == Seq::<u32>::empty(),
            h.invulnerability_timer == 0,
            h.invulnerability_duration == invulnerability_duration,
            h.regeneration_rate == 0,
            h.regeneration_accumulator == 0,
            !h.is_dead,
            h.wf(),
    {
        let mut h = Health::new(current, max);
        h.invulnerability_duration = invulnerability_duration;
        h
    }

    /// Like `new`, with a regeneration rate in milli-points per second.
    pub fn with_regeneration(current: u32, max: u32, regen_rate: u32) -> (h: Health)
        requires
            current <= max,
        ensures
            h.current == current,
            h.max == max,
            h.damage_queue@ == Seq::<u32>::empty(),
            h.healing_queue@ == Seq::<u32>::empty(),
            h.invulnerability_timer == 0,
            h.invulnerability_duration == DEFAULT_INVULNERABILITY,
            h.regeneration_rate == regen_rate,
            h.regeneration_accumulator == 0,
            !h.is_dead,
            h.wf(),
    {
        let mut h = Health::new(current, max);
        h.regeneration_rate = regen_rate;
        h
    }

    /// Damage queued this frame is applied only while this is false.
    pub fn is_invulnerable(&self) -> (r: bool)
        ensures
            r == (self.invulnerability_timer > 0),
    {
        self.invulnerability_timer > 0
    }

    /// Visual damage indicator: while invulnerable, true on even tenths of
    /// a second of the remaining window.
    pub fn is_flashing(&self) -> (r: bool)
        ensures
            r == (self.invulnerability_timer > 0 && (self.invulnerability_timer / 100) % 2 == 0),
    {
        self.invulnerability_timer > 0 && (self.invulnerability_timer / 100) % 2 == 0
    }
}

} // verus!
