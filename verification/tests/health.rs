use tilecore::components::health::Health;
use tilecore::components::entity::Entity;
use tilecore::systems::health_system::HealthSystem;

fn one(h: Health, dt: u32) -> Health {
    let entities = vec![Entity(0)];
    let mut healths = vec![h];
    HealthSystem::update(&entities, &mut healths, dt);
    healths.pop().unwrap()
}

#[test]
fn damage_is_saturating_and_capped_by_max() {
    let mut h = Health::new(50, 100);
    h.damage_queue.push(30);
    h.damage_queue.push(40);
    let h = one(h, 16);
    assert_eq!(h.current, 0);
    assert!(h.is_dead);
    assert!(h.damage_queue.is_empty());
}

#[test]
fn current_never_exceeds_max_after_any_queue() {
    let mut h = Health::new(90, 100);
    h.healing_queue.push(50);
    h.healing_queue.push(50);
    h.damage_queue.push(5);
    let h = one(h, 16);
    // 90 - 5 damage, then healing clamps at max.
    assert_eq!(h.current, 100);
    assert_eq!(h.max, 100);
}

#[test]
fn first_hit_arms_invulnerability_window() {
    let mut h = Health::with_invulnerability(80, 100, 500);
    h.damage_queue.push(10);
    let h = one(h, 16);
    assert_eq!(h.current, 70);
    // Armed to 500 ms, then this frame's 16 ms already ticked off.
    assert_eq!(h.invulnerability_timer, 484);
    assert!(h.is_invulnerable());
}

#[test]
fn invulnerable_defers_damage_without_dropping_it() {
    let mut h = Health::with_invulnerability(80, 100, 500);
    h.invulnerability_timer = 100;
    h.damage_queue.push(10);
    h.damage_queue.push(20);
    let h2 = one(h, 16);
    // Queue untouched, points untouched, timer ticked down.
    assert_eq!(h2.current, 80);
    assert_eq!(h2.damage_queue, vec![10, 20]);
    assert_eq!(h2.invulnerability_timer, 84);
    // First pass after the window lapses applies the whole queue.
    let h3 = one(one(h2, 84), 16);
    assert_eq!(h3.current, 50);
    assert!(h3.damage_queue.is_empty());
}

#[test]
fn healing_is_never_blocked_by_invulnerability() {
    let mut h = Health::new(40, 100);
    h.invulnerability_timer = 400;
    h.healing_queue.push(25);
    let h = one(h, 16);
    assert_eq!(h.current, 65);
    assert!(h.healing_queue.is_empty());
}

#[test]
fn regeneration_carries_fractions_across_frames() {
    // 1500 milli-points per second; 500 ms banks 0.75 of a point.
    let mut h = Health::with_regeneration(10, 100, 1500);
    h = one(h, 500);
    assert_eq!(h.current, 10);
    assert_eq!(h.regeneration_accumulator, 750_000);
    // Another 500 ms reaches 1.5 points: one whole point paid out,
    // half a point carried.
    h = one(h, 500);
    assert_eq!(h.current, 11);
    assert_eq!(h.regeneration_accumulator, 500_000);
}

#[test]
fn regeneration_clamps_at_max_and_stops_when_full() {
    let mut h = Health::with_regeneration(99, 100, 10_000);
    h = one(h, 1000);
    assert_eq!(h.current, 100);
    let acc = h.regeneration_accumulator;
    // Full: no further accumulation.
    h = one(h, 1000);
    assert_eq!(h.current, 100);
    assert_eq!(h.regeneration_accumulator, acc);
}

#[test]
fn death_transition_fires_once_and_never_reverts() {
    let mut h = Health::new(5, 100);
    h.damage_queue.push(5);
    let mut h = one(h, 16);
    assert!(h.is_dead);
    // Healing raises points but does not undo death.
    h.healing_queue.push(50);
    let h = one(h, 16);
    assert_eq!(h.current, 50);
    assert!(h.is_dead);
}

#[test]
fn zero_elapsed_pass_with_empty_queues_changes_nothing() {
    let mut h = Health::with_regeneration(60, 100, 2500);
    h.invulnerability_timer = 123;
    h.regeneration_accumulator = 999_999;
    let before = h.clone();
    let h = one(h, 0);
    assert_eq!(h, before);
}

#[test]
fn deal_damage_and_heal_queue_to_the_right_entity() {
    let mut healths = vec![Health::new(10, 10), Health::new(20, 20)];
    HealthSystem::deal_damage(&mut healths, 1, 7);
    HealthSystem::heal(&mut healths, 0, 3);
    assert_eq!(healths[1].damage_queue, vec![7]);
    assert_eq!(healths[0].healing_queue, vec![3]);
    // Out-of-range indices have no effect.
    HealthSystem::deal_damage(&mut healths, 5, 7);
    HealthSystem::heal(&mut healths, 5, 7);
    assert_eq!(healths[0].damage_queue, Vec::<u32>::new());
    assert_eq!(healths[1].healing_queue, Vec::<u32>::new());
}

#[test]
fn is_flashing_follows_tenths_of_seconds() {
    let mut h = Health::new(10, 10);
    h.invulnerability_timer = 250;
    assert!(h.is_flashing()); // 250 / 100 == 2, even
    h.invulnerability_timer = 150;
    assert!(!h.is_flashing()); // 150 / 100 == 1, odd
    h.invulnerability_timer = 0;
    assert!(!h.is_flashing());
}
