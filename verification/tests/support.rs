//! Tests of the supporting pieces: integer roots, distance, the seedable
//! generator, the initializer's bounds, and the visibility band.

use nbody::body::{visible, Body, Vec3};
use nbody::config::{
    ANCHOR_A_X, ANCHOR_A_Y, ANCHOR_A_Z, ANCHOR_B_X, ANCHOR_B_Y, ANCHOR_B_Z, ANCHOR_C_X,
    ANCHOR_C_Y, ANCHOR_C_Z, COUNT_A, COUNT_B, COUNT_C, DEPTH_MAX, DEPTH_MIN,
    INIT_POSITION_RANGE, INIT_VELOCITY_RANGE, MASS_MAX, MASS_MIN,
};
use nbody::init::initialize;
use nbody::math::{icbrt_u64, isqrt_u128};
use nbody::rng::Rng64;
use nbody::step::sq_distance_between;

#[test]
fn isqrt_exact_values() {
    assert_eq!(isqrt_u128(0), 0);
    assert_eq!(isqrt_u128(1), 1);
    assert_eq!(isqrt_u128(2), 1);
    assert_eq!(isqrt_u128(3), 1);
    assert_eq!(isqrt_u128(4), 2);
    assert_eq!(isqrt_u128(99), 9);
    assert_eq!(isqrt_u128(100), 10);
    assert_eq!(isqrt_u128(10_000_000_000), 100_000);
    assert_eq!(isqrt_u128(10_000_000_001), 100_000);
    assert_eq!(isqrt_u128(u128::MAX), u64::MAX);
}

#[test]
fn icbrt_exact_values() {
    assert_eq!(icbrt_u64(0), 0);
    assert_eq!(icbrt_u64(1), 1);
    assert_eq!(icbrt_u64(7), 1);
    assert_eq!(icbrt_u64(8), 2);
    assert_eq!(icbrt_u64(9_000_000), 208);
    assert_eq!(icbrt_u64(1_000_000_000_000), 10_000);
    assert_eq!(icbrt_u64(u64::MAX), 2_642_245);
}

#[test]
fn squared_distance_exact() {
    let p = Vec3 { x: 1, y: 2, z: 3 };
    let q = Vec3 { x: 4, y: -2, z: 3 };
    assert_eq!(sq_distance_between(&p, &q), 9 + 16);
    assert_eq!(sq_distance_between(&q, &p), 25);
    assert_eq!(sq_distance_between(&p, &p), 0);
}

#[test]
fn rng_is_deterministic_and_seeded() {
    let mut a = Rng64::new(42);
    let mut b = Rng64::new(42);
    for _ in 0..100 {
        assert_eq!(a.next_u64(), b.next_u64());
    }
    let mut c = Rng64::new(43);
    assert_ne!(a.next_u64(), c.next_u64());
}

#[test]
fn rng_zero_seed_still_works() {
    let mut r = Rng64::new(0);
    let mut seen_distinct = false;
    let mut prev: i64 = r.random_range(-10, 10);
    assert!((-10..=10).contains(&prev));
    for _ in 0..50 {
        let v = r.random_range(-10, 10);
        assert!((-10..=10).contains(&v));
        if v != prev {
            seen_distinct = true;
        }
        prev = v;
    }
    assert!(seen_distinct);
}

#[test]
fn rng_range_bounds_hold() {
    let mut r = Rng64::new(7);
    for _ in 0..200 {
        let v = r.random_range(MASS_MIN, MASS_MAX);
        assert!(v >= MASS_MIN && v <= MASS_MAX);
    }
    for _ in 0..200 {
        let v = r.random_range(5, 5);
        assert_eq!(v, 5);
    }
}

fn assert_in_cluster(b: &Body, ax: i64, ay: i64, az: i64) {
    assert!(b.position.x >= ax - INIT_POSITION_RANGE && b.position.x <= ax + INIT_POSITION_RANGE);
    assert!(b.position.y >= ay - INIT_POSITION_RANGE && b.position.y <= ay + INIT_POSITION_RANGE);
    assert!(b.position.z >= az - INIT_POSITION_RANGE && b.position.z <= az + INIT_POSITION_RANGE);
    assert!(b.velocity.x >= -INIT_VELOCITY_RANGE && b.velocity.x <= INIT_VELOCITY_RANGE);
    assert!(b.velocity.y >= -INIT_VELOCITY_RANGE && b.velocity.y <= INIT_VELOCITY_RANGE);
    assert!(b.velocity.z >= -INIT_VELOCITY_RANGE && b.velocity.z <= INIT_VELOCITY_RANGE);
    assert!(b.mass >= MASS_MIN && b.mass <= MASS_MAX);
}

/// Initializer bounds: every generated body lies inside its cluster's
/// cube, its velocity inside the symmetric range, and its mass inside the
/// common range; all bodies start active and the tick at zero.
#[test]
fn initializer_bounds() {
    let mut rng = Rng64::new(20_240_101);
    let s = initialize(&mut rng);
    assert_eq!(s.tick, 0);
    assert_eq!(s.bodies.len(), COUNT_A + COUNT_B + COUNT_C);
    for i in 0..COUNT_A {
        assert_in_cluster(&s.bodies[i], ANCHOR_A_X, ANCHOR_A_Y, ANCHOR_A_Z);
    }
    for i in COUNT_A..COUNT_A + COUNT_B {
        assert_in_cluster(&s.bodies[i], ANCHOR_B_X, ANCHOR_B_Y, ANCHOR_B_Z);
    }
    for i in COUNT_A + COUNT_B..COUNT_A + COUNT_B + COUNT_C {
        assert_in_cluster(&s.bodies[i], ANCHOR_C_X, ANCHOR_C_Y, ANCHOR_C_Z);
    }
    for b in &s.bodies {
        assert!(b.mass > 0);
    }
}

/// The same seed reproduces the same population.
#[test]
fn initializer_deterministic() {
    let mut r1 = Rng64::new(9);
    let mut r2 = Rng64::new(9);
    let s1 = initialize(&mut r1);
    let s2 = initialize(&mut r2);
    assert_eq!(s1.bodies.first(), s2.bodies.first());
    assert_eq!(s1.bodies.last(), s2.bodies.last());
    assert_eq!(s1.bodies[750], s2.bodies[750]);
}

#[test]
fn visibility_band_edges() {
    let mk = |z: i64| Body {
        position: Vec3 { x: 0, y: 0, z },
        velocity: Vec3 { x: 0, y: 0, z: 0 },
        mass: 9_000_000,
    };
    assert!(visible(&mk(0)));
    assert!(visible(&mk(DEPTH_MIN)));
    assert!(visible(&mk(DEPTH_MAX)));
    assert!(!visible(&mk(DEPTH_MIN - 1)));
    assert!(!visible(&mk(DEPTH_MAX + 1)));
}
