//! Health resolver: drains queued damage (unless invulnerable) and healing,
//! ticks the invulnerability window, pays out passive regeneration and
//! performs the terminal death transition.

use vstd::prelude::*;
use crate::components::entity::Entity;
use crate::components::health::Health;
use crate::components::health::MICRO_POINTS_PER_POINT;

verus! {

/// Sum of a sequence of queued amounts, as an unbounded integer.
pub open spec fn seq_sum(s: Seq<u32>) -> int
    decreases s.len(),
{
    if s.len() == 0 {
        0
    } else {
        seq_sum(s.drop_last()) + s.last()
    }
}

proof fn lemma_seq_sum_nonneg(s: Seq<u32>)
    ensures
        seq_sum(s) >= 0,
    decreases s.len(),
{
    if s.len() > 0 {
        lemma_seq_sum_nonneg(s.drop_last());
    }
}

proof fn lemma_seq_sum_take_succ(s: Seq<u32>, i: int)
    requires
        0 <= i < s.len(),
    ensures
        seq_sum(s.take(i + 1)) == seq_sum(s.take(i)) + s[i],
{
    assert(s.take(i + 1).drop_last() =~= s.take(i));
}

/// Damage queued this frame is applied only when the entity enters the
/// pass with no invulnerability window left.
pub open spec fn damage_applies(h: Health) -> bool {
    h.invulnerability_timer == 0
}

/// Points left after draining the damage queue: each queued amount is a
/// saturating subtraction, so the result is the current value minus the
/// queue total, floored at zero; an invulnerable entity keeps its points
/// and its queue.
pub open spec fn current_after_damage(h: Health) -> int {
    if damage_applies(h) {
        if h.current - seq_sum(h.damage_queue@) >= 0 {
            h.current - seq_sum(h.damage_queue@)
        } else {
            0
        }
    } else {
        h.current as int
    }
}

/// The invulnerability window after the damage drain: applying at least one
/// queued hit rearms it to the full duration.
pub open spec fn timer_after_damage(h: Health) -> int {
    if damage_applies(h) && h.damage_queue@.len() > 0 {
        h.invulnerability_duration as int
    } else {
        h.invulnerability_timer as int
    }
}

/// Points after draining the healing queue: healing is never blocked, and
/// each amount is added with a clamp at the maximum, so the result is the
/// damage result plus the queue total, capped at the maximum.
pub open spec fn current_after_healing(h: Health) -> int {
    if current_after_damage(h) + seq_sum(h.healing_queue@) <= h.max {
        current_after_damage(h) + seq_sum(h.healing_queue@)
    } else {
        h.max as int
    }
}

/// The invulnerability window after also ticking `dt` milliseconds off it,
/// floored at zero.
pub open spec fn timer_after_tick(h: Health, dt: int) -> int {
    if timer_after_damage(h) - dt >= 0 {
        timer_after_damage(h) - dt
    } else {
        0
    }
}

/// Regeneration runs only for entities with a positive rate that are still
/// missing points after the queues drained.
pub open spec fn regen_active(h: Health) -> bool {
    h.regeneration_rate > 0 && current_after_healing(h) < h.max
}

/// The regeneration accumulator after banking this frame's micro-points
/// (rate in milli-points per second times elapsed milliseconds), saturating
/// at the accumulator's capacity.
pub open spec fn acc_after_gain(h: Health, dt: int) -> int {
    if regen_active(h) {
        if h.regeneration_accumulator + h.regeneration_rate * dt <= u64::MAX {
            h.regeneration_accumulator + h.regeneration_rate * dt
        } else {
            u64::MAX as int
        }
    } else {
        h.regeneration_accumulator as int
    }
}

/// Whole points paid out by regeneration this frame.
pub open spec fn regen_payout(h: Health, dt: int) -> int {
    if regen_active(h) && acc_after_gain(h, dt) >= MICRO_POINTS_PER_POINT {
        acc_after_gain(h, dt) / (MICRO_POINTS_PER_POINT as int)
    } else {
        0
    }
}

/// Points at the end of the pass: queue results plus the regeneration
/// payout, capped at the maximum.
pub open spec fn current_after_pass(h: Health, dt: int) -> int {
    if current_after_healing(h) + regen_payout(h, dt) <= h.max {
        current_after_healing(h) + regen_payout(h, dt)
    } else {
        h.max as int
    }
}

/// The accumulator at the end of the pass: paid-out whole points are
/// deducted, so only a fractional carry remains.
pub open spec fn acc_after_pass(h: Health, dt: int) -> int {
    if regen_active(h) && acc_after_gain(h, dt) >= MICRO_POINTS_PER_POINT {
        acc_after_gain(h, dt) % (MICRO_POINTS_PER_POINT as int)
    } else {
        acc_after_gain(h, dt)
    }
}

/// The death flag at the end of the pass: set when the pass ends with zero
/// points, and never cleared.
pub open spec fn dead_after_pass(h: Health, dt: int) -> bool {
    h.is_dead || current_after_pass(h, dt) == 0
}

/// Full effect of one health resolver pass of `dt` milliseconds on one
/// record: relates every field of the record after the pass to the record
/// before it.
pub open spec fn health_stepped(pre: Health, post: Health, dt: int) -> bool {
    &&& post.current == current_after_pass(pre, dt)
    &&& post.max == pre.max
    &&& post.damage_queue@ == (if damage_applies(pre) {
        Seq::<u32>::empty()
    } else {
        pre.damage_queue@
    })
    &&& post.healing_queue@ == Seq::<u32>::empty()
    &&& post.invulnerability_timer == timer_after_tick(pre, dt)
    &&& post.invulnerability_duration == pre.invulnerability_duration
    &&& post.regeneration_rate == pre.regeneration_rate
    &&& post.regeneration_accumulator == acc_after_pass(pre, dt)
    &&& post.is_dead == dead_after_pass(pre, dt)
}

pub struct HealthSystem;

impl HealthSystem {
    /// One health resolver pass of `delta_time` milliseconds on one record.
    pub fn step(health: &mut Health, delta_time: u32)
        requires
            old(health).wf(),
        ensures
            health_stepped(*old(health), *final(health), delta_time as int),
            final(health).wf(),
    {
        let ghost pre: Health = *old(health);

        // Drain the damage queue, unless invulnerable: each hit is a
        // saturating subtraction and rearms the invulnerability window.
        if health.invulnerability_timer == 0 {
            let ghost q = health.damage_queue@;
            let ghost c0 = health.current;
            let mut i: usize = 0;
            while i < health.damage_queue.len()
                invariant
                    i <= q.len(),
                    health.damage_queue@ == q,
                    health.current as int == (if c0 - seq_sum(q.take(i as int)) >= 0 {
                        c0 - seq_sum(q.take(i as int))
                    } else {
                        0
                    }),
                    health.invulnerability_timer == (if i > 0 {
                        health.invulnerability_duration
                    } else {
                        0u32
                    }),
                    health.max == pre.max,
                    health.healing_queue@ == pre.healing_queue@,
                    health.invulnerability_duration == pre.invulnerability_duration,
                    health.regeneration_rate == pre.regeneration_rate,
                    health.regeneration_accumulator == pre.regeneration_accumulator,
                    health.is_dead == pre.is_dead,
                decreases q.len() - i,
            {
                let d = health.damage_queue[i];
                if health.current >= d {
                    health.current = health.current - d;
                } else {
                    health.current = 0;
                }
                health.invulnerability_timer = health.invulnerability_duration;
                proof {
                    lemma_seq_sum_take_succ(q, i as int);
                }
                i = i + 1;
            }
            proof {
                assert(q.take(q.len() as int) =~= q);
            }
            health.damage_queue = Vec::new();
        }
        assert(health.current as int == current_after_damage(pre));
        assert(health.invulnerability_timer as int == timer_after_damage(pre));

        // Drain the healing queue unconditionally, clamping at the maximum.
        proof {
            lemma_seq_sum_nonneg(pre.damage_queue@);
        }
        let ghost hq = health.healing_queue@;
        let ghost c1 = health.current;
        let mut j: usize = 0;
        while j < health.healing_queue.len()
            invariant
                j <= hq.len(),
                health.healing_queue@ == hq,
                c1 <= health.max,
                health.current as int == (if c1 + seq_sum(hq.take(j as int)) <= health.max {
                    c1 + seq_sum(hq.take(j as int))
                } else {
                    health.max as int
                }),
                health.max == pre.max,
                health.damage_queue@ == (if damage_applies(pre) {
                    Seq::<u32>::empty()
                } else {
                    pre.damage_queue@
                }),
                health.invulnerability_timer as int == timer_after_damage(pre),
                health.invulnerability_duration == pre.invulnerability_duration,
                health.regeneration_rate == pre.regeneration_rate,
                health.regeneration_accumulator == pre.regeneration_accumulator,
                health.is_dead == pre.is_dead,
            decreases hq.len() - j,
        {
            let v = health.healing_queue[j];
            let s: u64 = health.current as u64 + v as u64;
            if s >= health.max as u64 {
                health.current = health.max;
            } else {
                health.current = s as u32;
            }
            proof {
                lemma_seq_sum_take_succ(hq, j as int);
            }
            j = j + 1;
        }
        proof {
            assert(hq.take(hq.len() as int) =~= hq);
        }
        health.healing_queue = Vec::new();
        assert(health.current as int == current_after_healing(pre));
        assert(health.current <= health.max);

        // Tick the invulnerability window down, floored at zero.
        if health.invulnerability_timer > 0 {
            if delta_time >= health.invulnerability_timer {
                health.invulnerability_timer = 0;
            } else {
                health.invulnerability_timer = health.invulnerability_timer - delta_time;
            }
        }

        // Passive regeneration: bank micro-points, pay out whole points.
        if health.regeneration_rate > 0 && health.current < health.max {
            proof {
                assert((health.regeneration_rate as u64) * (delta_time as u64) <= u64::MAX)
                    by (nonlinear_arith)
                    requires
                        health.regeneration_rate <= u32::MAX,
                        delta_time <= u32::MAX,
                ;
            }
            let gain: u64 = (health.regeneration_rate as u64) * (delta_time as u64);
            if gain > u64::MAX - health.regeneration_accumulator {
                health.regeneration_accumulator = u64::MAX;
            } else {
                health.regeneration_accumulator = health.regeneration_accumulator + gain;
            }
            if health.regeneration_accumulator >= MICRO_POINTS_PER_POINT {
                let amount: u64 = health.regeneration_accumulator / MICRO_POINTS_PER_POINT;
                let s: u64 = health.current as u64 + amount;
                if s >= health.max as u64 {
                    health.current = health.max;
                } else {
                    health.current = s as u32;
                }
                health.regeneration_accumulator = health.regeneration_accumulator
                    % MICRO_POINTS_PER_POINT;
            }
        }

        // Terminal death transition.
        if health.current == 0 && !health.is_dead {
            health.is_dead = true;
        }
    }

    /// One health resolver pass of `delta_time` milliseconds over every
    /// record, entity by entity in index order.
    pub fn update(entities: &Vec<Entity>, healths: &mut Vec<Health>, delta_time: u32)
        requires
            old(healths).len() == entities.len(),
            forall|i: int| 0 <= i < old(healths).len() ==> #[trigger] old(healths)@[i].wf(),
        ensures
            final(healths).len() == old(healths).len(),
            forall|i: int| 0 <= i < old(healths).len() ==> health_stepped(
                old(healths)@[i],
                #[trigger] final(healths)@[i],
                delta_time as int,
            ),
            forall|i: int| 0 <= i < old(healths).len() ==> #[trigger] final(healths)@[i].wf(),
    {
        let n = healths.len();
        let mut i: usize = 0;
        while i < n
            invariant
                i <= n,
                healths.len() == n,
                n == old(healths).len(),
                forall|k: int| i <= k < n ==> healths@[k] == old(healths)@[k],
                forall|k: int| 0 <= k < n ==> #[trigger] old(healths)@[k].wf(),
                forall|k: int| 0 <= k < i ==> health_stepped(
                    old(healths)@[k],
                    #[trigger] healths@[k],
                    delta_time as int,
                ),
                forall|k: int| 0 <= k < i ==> #[trigger] healths@[k].wf(),
            decreases n - i,
        {
            let h = &mut healths[i];
            HealthSystem::step(h, delta_time);
            i = i + 1;
        }
    }

    /// Queue `amount` points of damage against entity `target_idx`;
    /// an out-of-range index has no effect.
    pub fn deal_damage(healths: &mut Vec<Health>, target_idx: usize, amount: u32)
        ensures
            final(healths).len() == old(healths).len(),
            target_idx < old(healths).len() ==> {
                &&& final(healths)@[target_idx as int].damage_queue@ == old(healths)@[
                    target_idx as int].damage_queue@.push(amount)
                &&& final(healths)@[target_idx as int].healing_queue@ == old(healths)@[
                    target_idx as int].healing_queue@
                &&& final(healths)@[target_idx as int].current == old(healths)@[
                    target_idx as int].current
                &&& final(healths)@[target_idx as int].max == old(healths)@[target_idx as int].max
                &&& final(healths)@[target_idx as int].invulnerability_timer == old(healths)@[
                    target_idx as int].invulnerability_timer
                &&& final(healths)@[target_idx as int].invulnerability_duration == old(healths)@[
                    target_idx as int].invulnerability_duration
                &&& final(healths)@[target_idx as int].regeneration_rate == old(healths)@[
                    target_idx as int].regeneration_rate
                &&& final(healths)@[target_idx as int].regeneration_accumulator == old(healths)@[
                    target_idx as int].regeneration_accumulator
                &&& final(healths)@[target_idx as int].is_dead == old(healths)@[
                    target_idx as int].is_dead
                &&& forall|j: int|
                    0 <= j < old(healths).len() && j != target_idx
                        ==> #[trigger] final(healths)@[j] == old(healths)@[j]
            },
            target_idx >= old(healths).len() ==> final(healths)@ == old(healths)@,
    {
        if target_idx < healths.len() {
            let h = &mut healths[target_idx];
            h.damage_queue.push(amount);
        }
    }

    /// Queue `amount` points of healing for entity `target_idx`;
    /// an out-of-range index has no effect.
    pub fn heal(healths: &mut Vec<Health>, target_idx: usize, amount: u32)
        ensures
            final(healths).len() == old(healths).len(),
            target_idx < old(healths).len() ==> {
                &&& final(healths)@[target_idx as int].healing_queue@ == old(healths)@[
                    target_idx as int].healing_queue@.push(amount)
                &&& final(healths)@[target_idx as int].damage_queue@ == old(healths)@[
                    target_idx as int].damage_queue@
                &&& final(healths)@[target_idx as int].current == old(healths)@[
                    target_idx as int].current
                &&& final(healths)@[target_idx as int].max == old(healths)@[target_idx as int].max
                &&& final(healths)@[target_idx as int].invulnerability_timer == old(healths)@[
                    target_idx as int].invulnerability_timer
                &&& final(healths)@[target_idx as int].invulnerability_duration == old(healths)@[
                    target_idx as int].invulnerability_duration
                &&& final(healths)@[target_idx as int].regeneration_rate == old(healths)@[
                    target_idx as int].regeneration_rate
                &&& final(healths)@[target_idx as int].regeneration_accumulator == old(healths)@[
                    target_idx as int].regeneration_accumulator
                &&& final(healths)@[target_idx as int].is_dead == old(healths)@[
                    target_idx as int].is_dead
                &&& forall|j: int|
                    0 <= j < old(healths).len() && j != target_idx
                        ==> #[trigger] final(healths)@[j] == old(healths)@[j]
            },
            target_idx >= old(healths).len() ==> final(healths)@ == old(healths)@,
    {
        if target_idx < healths.len() {
            let h = &mut healths[target_idx];
            h.healing_queue.push(amount);
        }
    }
}

/// Law: a health resolver pass never leaves more points than the maximum,
/// whatever was queued.
pub proof fn lemma_health_current_bounded(pre: Health, post: Health, dt: int)
    requires
        pre.wf(),
        health_stepped(pre, post, dt),
    ensures
        post.current <= post.max,
        post.wf(),
{
}

/// Law: damage queued while the invulnerability window is open is neither
/// applied nor dropped; once a pass starts with the window closed, the
/// whole queue is applied in that pass as one saturating subtraction.
pub proof fn lemma_invulnerability_defers_damage(pre: Health, post: Health, dt: int)
    requires
        pre.wf(),
        health_stepped(pre, post, dt),
    ensures
        pre.invulnerability_timer > 0 ==> {
            &&& post.damage_queue@ == pre.damage_queue@
            &&& current_after_damage(pre) == pre.current
        },
        pre.invulnerability_timer == 0 ==> {
            &&& post.damage_queue@ == Seq::<u32>::empty()
            &&& current_after_damage(pre) == (if pre.current - seq_sum(pre.damage_queue@) >= 0 {
                pre.current - seq_sum(pre.damage_queue@)
            } else {
                0
            })
        },
{
}

/// Law: the death flag is set exactly on a pass that ends with zero points,
/// and once set it never reverts.
pub proof fn lemma_death_is_terminal(pre: Health, post: Health, dt: int)
    requires
        health_stepped(pre, post, dt),
    ensures
        post.is_dead == (pre.is_dead || post.current == 0),
        pre.is_dead ==> post.is_dead,
{
}

/// Law: a zero-duration pass on a record with empty queues is the identity,
/// unless the record is exactly at the time-independent death transition
/// (zero points with the flag not yet set).
pub proof fn lemma_zero_elapsed_pass_is_identity(pre: Health, post: Health)
    requires
        pre.wf(),
        health_stepped(pre, post, 0),
        pre.damage_queue@.len() == 0,
        pre.healing_queue@.len() == 0,
        pre.current > 0 || pre.is_dead,
    ensures
        post.current == pre.current,
        post.max == pre.max,
        post.damage_queue@ == pre.damage_queue@,
        post.healing_queue@ == pre.healing_queue@,
        post.invulnerability_timer == pre.invulnerability_timer,
        post.invulnerability_duration == pre.invulnerability_duration,
        post.regeneration_rate == pre.regeneration_rate,
        post.regeneration_accumulator == pre.regeneration_accumulator,
        post.is_dead == pre.is_dead,
{
}

} // verus!
