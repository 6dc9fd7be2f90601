use shooter_core::effects::EffectHandle;
use shooter_core::impact::{
    reflect, Hit, ImpactEffect, DIRECTION_MAX, EFFECT_LIFETIME_MS, NORMAL_MAX, REFLECTED_MAX,
};
use shooter_core::vec2::Vec2;

fn norm_sq(v: Vec2) -> i128 {
    (v.x as i128) * (v.x as i128) + (v.y as i128) * (v.y as i128)
}

fn dot(a: Vec2, b: Vec2) -> i128 {
    (a.x as i128) * (b.x as i128) + (a.y as i128) * (b.y as i128)
}

#[test]
fn reflection_off_a_floor_flips_the_vertical_part() {
    let d = Vec2::new(1, -1);
    let r = reflect(d, Vec2::new(0, 1));
    assert_eq!(r, Vec2::new(1, 1));
    assert_eq!(norm_sq(r), norm_sq(d));
}

#[test]
fn reflection_off_a_wall_flips_the_horizontal_part() {
    assert_eq!(reflect(Vec2::new(3, 4), Vec2::new(-1, 0)), Vec2::new(-3, 4));
    assert_eq!(reflect(Vec2::new(3, 4), Vec2::new(1, 0)), Vec2::new(-3, 4));
}

#[test]
fn reflection_along_the_surface_changes_nothing() {
    assert_eq!(reflect(Vec2::new(5, 0), Vec2::new(0, 1)), Vec2::new(5, 0));
}

#[test]
fn reflection_on_a_longer_normal_is_stretched_by_its_square() {
    // |n|^2 d - 2 (d . n) n with n = (0, 3): 9 (1, -1) + 6 (0, 3).
    assert_eq!(reflect(Vec2::new(1, -1), Vec2::new(0, 3)), Vec2::new(9, 9));
    // A slanted surface: n = (1, 1), d = (1, 0) gives 2 (1, 0) - 2 (1, 1).
    assert_eq!(reflect(Vec2::new(1, 0), Vec2::new(1, 1)), Vec2::new(0, -2));
}

#[test]
fn reflection_keeps_the_length_and_turns_the_normal_part() {
    let ds = [(1, -1), (1_500_000, 0), (-900_000, 1_200_000), (DIRECTION_MAX, -DIRECTION_MAX)];
    let ns = [(0, 1), (-1, 0), (3, 4), (-NORMAL_MAX, NORMAL_MAX), (1, NORMAL_MAX)];
    for (dx, dy) in ds {
        for (nx, ny) in ns {
            let d = Vec2::new(dx, dy);
            let n = Vec2::new(nx, ny);
            let r = reflect(d, n);
            let nn = norm_sq(n);
            assert_eq!(norm_sq(r), nn * nn * norm_sq(d));
            assert_eq!(dot(r, n), -nn * dot(d, n));
            assert!(r.fits(REFLECTED_MAX));
        }
    }
}

#[test]
fn hit_needs_a_normal_that_points_somewhere() {
    assert_eq!(Hit::new(Vec2::new(1, 2), Vec2::new(0, 0)), None);
}

#[test]
fn hit_needs_a_normal_in_range() {
    assert_eq!(Hit::new(Vec2::new(1, 2), Vec2::new(NORMAL_MAX + 1, 0)), None);
    assert_eq!(Hit::new(Vec2::new(1, 2), Vec2::new(0, -NORMAL_MAX - 1)), None);
    let hit = Hit::new(Vec2::new(i64::MAX, i64::MIN), Vec2::new(NORMAL_MAX, -NORMAL_MAX))
        .expect("the normal is in range");
    assert_eq!(hit.point(), Vec2::new(i64::MAX, i64::MIN));
    assert_eq!(hit.normal(), Vec2::new(NORMAL_MAX, -NORMAL_MAX));
}

#[test]
fn debris_stands_at_the_reported_point_along_the_reflection() {
    let hit = Hit::new(Vec2::new(12, 34), Vec2::new(0, 1)).expect("a floor");
    let e = ImpactEffect::spawn(hit, Vec2::new(1, -1), EffectHandle(9));
    assert_eq!(e.position(), Vec2::new(12, 34));
    assert_eq!(e.up(), Vec2::new(1, 1));
    // The horizontal axis is the vertical one turned clockwise by a right
    // angle: the effect is turned by the angle of (1, 1) less 90 degrees.
    assert_eq!(e.right(), Vec2::new(1, -1));
    assert_eq!(e.remaining(), EFFECT_LIFETIME_MS);
    assert_eq!(e.effect(), EffectHandle(9));
}

#[test]
fn debris_ages_and_goes() {
    let hit = Hit::new(Vec2::new(0, 0), Vec2::new(0, 1)).expect("a floor");
    let e = ImpactEffect::spawn(hit, Vec2::new(0, -5), EffectHandle(9));
    let older = e.age(1_234).expect("still shown");
    assert_eq!(older.remaining(), 3_766);
    assert_eq!(older.position(), e.position());
    assert_eq!(older.up(), e.up());
    assert_eq!(older.effect(), e.effect());
    assert_eq!(older.age(3_765).map(|x| x.remaining()), Some(1));
    assert_eq!(older.age(3_766), None);
    assert_eq!(older.age(u32::MAX), None);
    assert_eq!(e.age(0), Some(e));
}
