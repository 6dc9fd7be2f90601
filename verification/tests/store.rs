use shooter_core::bullet::{Bullet, Moved, SpawnError, BULLET_LIFETIME_MS, SPEED};
use shooter_core::effects::{BulletEffects, EffectHandle};
use shooter_core::impact::{Hit, ImpactEffect, EFFECT_LIFETIME_MS};
use shooter_core::lifetime::Lifetime;
use shooter_core::vec2::Vec2;
use shooter_core::world::{despawn_after_lifetime, World};

const ASSETS: BulletEffects = BulletEffects { trail: EffectHandle(1), debris: EffectHandle(2) };

const UNIT: i64 = 1_000_000;

fn bullets(world: &World) -> Vec<Bullet> {
    (0..world.bullet_count()).map(|i| world.bullet(i).expect("in range")).collect()
}

fn effects(world: &World) -> Vec<ImpactEffect> {
    (0..world.effect_count()).map(|i| world.effect(i).expect("in range")).collect()
}

fn floor_hit(x: i64, y: i64) -> Option<Hit> {
    Hit::new(Vec2::new(x, y), Vec2::new(0, 1))
}

fn debris_aged(x: i64, age: u32) -> ImpactEffect {
    let fresh = ImpactEffect::spawn(
        floor_hit(x, 0).expect("a floor"),
        Vec2::new(0, -1),
        ASSETS.debris,
    );
    fresh.age(age).expect("still shown")
}

#[test]
fn timer_of_no_length_is_no_timer() {
    assert_eq!(Lifetime::new(0), None);
}

#[test]
fn timer_counts_down_and_runs_out() {
    let t = Lifetime::new(1_000).expect("positive");
    assert_eq!(t.remaining(), 1_000);
    let t = t.elapse(0).expect("no time has passed");
    assert_eq!(t.remaining(), 1_000);
    let t = t.elapse(400).expect("600 ms are left");
    assert_eq!(t.remaining(), 600);
    assert_eq!(t.elapse(599).map(|r| r.remaining()), Some(1));
    assert_eq!(t.elapse(600), None);
    assert_eq!(t.elapse(601), None);
}

#[test]
fn timer_holds_more_than_a_tick_can_take() {
    let t = Lifetime::new(u64::MAX).expect("positive");
    assert_eq!(t.elapse(u32::MAX).map(|r| r.remaining()), Some(u64::MAX - u32::MAX as u64));
}

#[test]
fn despawn_ages_all_and_removes_the_expired_in_order() {
    let mut shown = vec![
        debris_aged(1, 0),
        debris_aged(2, 4_000),
        debris_aged(3, 3_999),
        debris_aged(4, 4_999),
        debris_aged(5, 1_000),
    ];
    let kept = despawn_after_lifetime(&mut shown, 1_000);
    let left: Vec<(i64, u64)> = shown.iter().map(|e| (e.position().x, e.remaining())).collect();
    assert_eq!(left, vec![(1, 4_000), (3, 1), (5, 3_000)]);
    assert_eq!(kept, vec![true, false, true, false, true]);
}

#[test]
fn despawn_of_nothing_is_nothing() {
    let mut shown: Vec<ImpactEffect> = Vec::new();
    assert!(despawn_after_lifetime(&mut shown, 16).is_empty());
    assert!(shown.is_empty());
}

#[test]
fn despawn_after_no_time_keeps_all() {
    let mut shown = vec![debris_aged(1, 0), debris_aged(2, 4_999)];
    let before = shown.clone();
    assert_eq!(despawn_after_lifetime(&mut shown, 0), vec![true, true]);
    assert_eq!(shown, before);
}

#[test]
fn new_store_is_empty() {
    let world = World::new(ASSETS);
    assert_eq!(world.bullet_count(), 0);
    assert_eq!(world.effect_count(), 0);
    assert_eq!(world.bullet(0), None);
    assert_eq!(world.effect(0), None);
    assert!(world.sweeps(16).is_empty());
}

#[test]
fn fire_adds_a_projectile_with_the_trail() {
    let mut world = World::new(ASSETS);
    let first = world.fire(Vec2::new(0, 0), Vec2::new(1, 0)).expect("fired");
    let second = world.fire(Vec2::new(5, 5), Vec2::new(0, -2)).expect("fired");
    assert_eq!(bullets(&world), vec![first, second]);
    assert_eq!(first.trail(), ASSETS.trail);
    assert_eq!(second.velocity(), Vec2::new(0, -SPEED));
    assert_eq!(second.remaining(), BULLET_LIFETIME_MS);
    assert_eq!(world.bullet(2), None);
}

#[test]
fn fire_that_fails_changes_nothing() {
    let mut world = World::new(ASSETS);
    world.fire(Vec2::new(0, 0), Vec2::new(1, 0)).expect("fired");
    let before = bullets(&world);
    assert_eq!(world.fire(Vec2::new(0, 0), Vec2::new(0, 0)), Err(SpawnError::ZeroDirection));
    assert_eq!(bullets(&world), before);
    assert_eq!(world.effect_count(), 0);
}

#[test]
fn sweeps_come_in_the_order_of_the_projectiles() {
    let mut world = World::new(ASSETS);
    world.fire(Vec2::new(1, 2), Vec2::new(1, 0)).expect("fired");
    world.fire(Vec2::new(3, 4), Vec2::new(0, 1)).expect("fired");
    let queries = world.sweeps(16);
    assert_eq!(queries.len(), 2);
    let q0 = queries[0].expect("a sweep");
    let q1 = queries[1].expect("a sweep");
    assert_eq!((q0.origin, q0.direction, q0.max_toi, q0.solid), (Vec2::new(1, 2), Vec2::new(SPEED, 0), 16, true));
    assert_eq!((q1.origin, q1.direction, q1.max_toi, q1.solid), (Vec2::new(3, 4), Vec2::new(0, SPEED), 16, true));
    assert_eq!(world.sweeps(0), vec![None, None]);
}

#[test]
fn tick_without_hits_moves_every_projectile() {
    let mut world = World::new(ASSETS);
    world.fire(Vec2::new(0, 0), Vec2::new(1, 0)).expect("fired");
    world.fire(Vec2::new(0, 0), Vec2::new(0, -1)).expect("fired");
    world.tick(100, &vec![None, None]);
    let flying = bullets(&world);
    assert_eq!(flying.len(), 2);
    assert_eq!(flying[0].position(), Vec2::new(150 * UNIT, 0));
    assert_eq!(flying[1].position(), Vec2::new(0, -150 * UNIT));
    assert_eq!(flying[0].remaining(), 900);
    assert_eq!(flying[1].remaining(), 900);
    assert_eq!(world.effect_count(), 0);
}

#[test]
fn tick_counts_a_missing_answer_as_a_miss() {
    let mut world = World::new(ASSETS);
    world.fire(Vec2::new(0, 0), Vec2::new(1, 0)).expect("fired");
    world.fire(Vec2::new(0, 0), Vec2::new(0, 1)).expect("fired");
    world.tick(10, &vec![]);
    assert_eq!(world.bullet_count(), 2);
    assert_eq!(world.effect_count(), 0);
    // Answers beyond the last projectile are not looked at.
    world.tick(10, &vec![None, None, floor_hit(0, 0)]);
    assert_eq!(world.bullet_count(), 2);
    assert_eq!(world.effect_count(), 0);
}

#[test]
fn tick_turns_a_hit_into_one_fresh_debris_effect() {
    let mut world = World::new(ASSETS);
    world.fire(Vec2::new(0, 0), Vec2::new(1, 0)).expect("fired");
    let wall = Hit::new(Vec2::new(50 * UNIT, 0), Vec2::new(-1, 0));
    world.tick(100, &vec![wall]);
    assert_eq!(world.bullet_count(), 0);
    let shown = effects(&world);
    assert_eq!(shown.len(), 1);
    assert_eq!(shown[0].position(), Vec2::new(50 * UNIT, 0));
    assert_eq!(shown[0].remaining(), EFFECT_LIFETIME_MS);
    assert_eq!(shown[0].effect(), ASSETS.debris);
    assert_eq!(shown[0].up(), Vec2::new(-SPEED, 0));
}

#[test]
fn tick_handles_each_projectile_by_its_own_answer() {
    let mut world = World::new(ASSETS);
    world.fire(Vec2::new(0, 0), Vec2::new(1, 0)).expect("fired");
    world.fire(Vec2::new(0, 10), Vec2::new(1, -1)).expect("fired");
    world.fire(Vec2::new(0, 20), Vec2::new(-1, 0)).expect("fired");
    let before = bullets(&world);
    let report = world.tick(10, &vec![None, floor_hit(77, 0), None]);
    let flying = bullets(&world);
    assert_eq!(flying.len(), 2);
    assert_eq!(flying[0].position(), Vec2::new(10 * SPEED, 0));
    assert_eq!(flying[1].position(), Vec2::new(-10 * SPEED, 20));
    let shown = effects(&world);
    assert_eq!(shown.len(), 1);
    assert_eq!(shown[0].position(), Vec2::new(77, 0));
    assert_eq!(shown[0].up(), Vec2::new(1_060_660, 1_060_660));
    // The report tells the fate of each projectile that was there.
    assert_eq!(
        report.bullets,
        vec![Moved::Flying(flying[0]), Moved::Impact(shown[0]), Moved::Flying(flying[1])]
    );
    assert_eq!(report.bullets[0], before[0].move_bullet(10, None, ASSETS.debris));
    assert!(report.effects.is_empty());
}

#[test]
fn tick_removes_projectiles_when_their_time_is_up() {
    let mut world = World::new(ASSETS);
    world.fire(Vec2::new(0, 0), Vec2::new(1, 0)).expect("fired");
    for tick in 1..=9 {
        world.tick(100, &vec![None]);
        assert_eq!(world.bullet_count(), 1, "after tick {}", tick);
        assert_eq!(world.bullet(0).expect("flying").remaining(), 1_000 - 100 * tick);
    }
    let report = world.tick(100, &vec![None]);
    assert_eq!(report.bullets, vec![Moved::Expired]);
    assert_eq!(world.bullet_count(), 0);
    assert_eq!(world.effect_count(), 0);
    // It does not come back.
    world.tick(100, &vec![None]);
    assert_eq!(world.bullet_count(), 0);
}

#[test]
fn tick_ages_old_debris_but_not_what_it_creates() {
    let mut world = World::new(ASSETS);
    world.fire(Vec2::new(0, 0), Vec2::new(1, 0)).expect("fired");
    world.tick(100, &vec![floor_hit(1, 0)]);
    world.fire(Vec2::new(0, 0), Vec2::new(1, 0)).expect("fired");
    world.tick(250, &vec![floor_hit(2, 0)]);
    let shown: Vec<(i64, u64)> = effects(&world).iter().map(|e| (e.position().x, e.remaining())).collect();
    assert_eq!(shown, vec![(1, 4_750), (2, 5_000)]);
}

#[test]
fn tick_removes_debris_after_five_seconds() {
    let mut world = World::new(ASSETS);
    world.fire(Vec2::new(0, 0), Vec2::new(1, 0)).expect("fired");
    let report = world.tick(100, &vec![floor_hit(1, 0)]);
    assert!(report.effects.is_empty());
    let report = world.tick(4_999, &vec![]);
    assert_eq!(report.effects, vec![true]);
    assert!(report.bullets.is_empty());
    assert_eq!(effects(&world).iter().map(|e| e.remaining()).collect::<Vec<u64>>(), vec![1]);
    let report = world.tick(1, &vec![]);
    assert_eq!(report.effects, vec![false]);
    assert_eq!(world.effect_count(), 0);
}

#[test]
fn tick_of_no_length_changes_nothing() {
    let mut world = World::new(ASSETS);
    world.fire(Vec2::new(0, 0), Vec2::new(1, 0)).expect("fired");
    world.tick(100, &vec![floor_hit(1, 0)]);
    world.fire(Vec2::new(3, 4), Vec2::new(1, 0)).expect("fired");
    let (flying, shown) = (bullets(&world), effects(&world));
    world.tick(0, &vec![floor_hit(9, 9)]);
    assert_eq!(bullets(&world), flying);
    assert_eq!(effects(&world), shown);
}
