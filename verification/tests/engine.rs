//! Behavioural tests of the stepper: the documented two-body scenario,
//! the population-size and inactive-body invariants, the near-contact
//! cutoff, momentum symmetry, and the degenerate coincident case.

use nbody::body::{Body, SimulationState, Vec3};
use nbody::step::step;

fn v3(x: i64, y: i64, z: i64) -> Vec3 {
    Vec3 { x, y, z }
}

fn body(px: i64, py: i64, pz: i64, vx: i64, vy: i64, vz: i64, mass: i64) -> Body {
    Body::new(v3(px, py, pz), v3(vx, vy, vz), mass)
}

fn state(bodies: Vec<Body>) -> SimulationState {
    SimulationState::new(bodies)
}

/// Two bodies of mass 9000 units, 100 units apart on the x axis, at rest:
/// one step leaves both positions unchanged (the stored velocities were
/// zero) and gives equal and opposite velocities of exactly
/// `G * 9000 / 100^2 = 0.9` units per tick along the connecting axis.
#[test]
fn two_body_scenario() {
    let s = state(vec![
        body(0, 0, 0, 0, 0, 0, 9_000_000),
        body(100_000, 0, 0, 0, 0, 0, 9_000_000),
    ]);
    let next = step(&s);
    assert_eq!(next.len(), 2);
    assert_eq!(next.bodies[0].position, v3(0, 0, 0));
    assert_eq!(next.bodies[1].position, v3(100_000, 0, 0));
    assert!(next.bodies[0].velocity.x > 0);
    assert!(next.bodies[1].velocity.x < 0);
    assert_eq!(next.bodies[0].velocity, v3(900, 0, 0));
    assert_eq!(next.bodies[1].velocity, v3(-900, 0, 0));
    assert_eq!(next.bodies[0].mass, 9_000_000);
    assert_eq!(next.bodies[1].mass, 9_000_000);
    assert_eq!(next.tick, 1);
}

/// Stepping never changes the population size, however many bodies are
/// active, and the tick counter advances by one.
#[test]
fn population_size_invariant() {
    let s = state(vec![
        body(0, 0, 0, 100, 0, 0, 9_000_000),
        body(500_000, 0, 0, 0, 0, 0, 0),
        body(0, 700_000, 0, 0, -200, 0, 8_500_000),
        body(0, 0, -900_000, 0, 0, 0, 10_000_000),
    ]);
    let mut cur = s;
    for tick in 1..=4u64 {
        cur = step(&cur);
        assert_eq!(cur.bodies.len(), 4);
        assert_eq!(cur.tick, tick);
    }
}

/// An inactive body (mass zero) is left bit-for-bit untouched by every
/// step, whatever position and velocity it still stores.
#[test]
fn inactive_body_untouched() {
    let inert = body(5, 6, 7, 8, 9, 10, 0);
    let s = state(vec![
        body(0, 0, 0, 0, 0, 0, 9_000_000),
        inert,
        body(200_000, 0, 0, 0, 0, 0, 9_000_000),
    ]);
    let mut cur = s;
    for _ in 0..3 {
        cur = step(&cur);
        assert_eq!(cur.bodies[1], inert);
    }
    // The active bodies did interact meanwhile.
    assert!(cur.bodies[0].velocity.x != 0);
}

/// Cutoff idempotence: an isolated pair at rest closer than its combined
/// near-contact radius (about 6.24 units for two masses of 9000) gets no
/// velocity change from the pair, tick after tick — no drift at all.
#[test]
fn cutoff_pair_no_drift() {
    let b0 = body(0, 0, 0, 0, 0, 0, 9_000_000);
    let b1 = body(5_000, 0, 0, 0, 0, 0, 9_000_000);
    let s = state(vec![b0, b1]);
    let mut cur = s;
    for _ in 0..5 {
        cur = step(&cur);
        assert_eq!(cur.bodies[0], b0);
        assert_eq!(cur.bodies[1], b1);
    }
}

/// Just outside the cutoff the pair does interact: the same masses at a
/// separation of 6.25 units attract.
#[test]
fn just_outside_cutoff_attracts() {
    let s = state(vec![
        body(0, 0, 0, 0, 0, 0, 9_000_000),
        body(6_250, 0, 0, 0, 0, 0, 9_000_000),
    ]);
    let next = step(&s);
    assert!(next.bodies[0].velocity.x > 0);
    assert!(next.bodies[1].velocity.x < 0);
}

/// No-op step: a single active body at rest, beside inactive ones, stays
/// exactly where it is for any number of steps.
#[test]
fn single_body_stationary() {
    let lone = body(123_456, -789, 42, 0, 0, 0, 9_999_999);
    let inert = body(1, 2, 3, 4, 5, 6, 0);
    let s = state(vec![inert, lone]);
    let mut cur = s;
    for _ in 0..4 {
        cur = step(&cur);
        assert_eq!(cur.bodies[0], inert);
        assert_eq!(cur.bodies[1], lone);
    }
}

/// Exactly coincident active bodies are treated as already skipped: the
/// zero distance poisons nothing, and at rest the pair never moves.
#[test]
fn coincident_bodies_skip() {
    let b = body(77_000, -5, 12, 0, 0, 0, 9_000_000);
    let s = state(vec![b, b]);
    let next = step(&s);
    assert_eq!(next.bodies[0], b);
    assert_eq!(next.bodies[1], b);
}

/// Momentum symmetry within truncation tolerance: for two isolated active
/// bodies of unequal mass, the mass-weighted velocity changes cancel to
/// within one fixed-point unit per mass.
#[test]
fn momentum_symmetry_tolerance() {
    let m0: i64 = 9_000_000;
    let m1: i64 = 8_123_456;
    let s = state(vec![
        body(0, 0, 0, 0, 0, 0, m0),
        body(100_000, 40_000, -30_000, 0, 0, 0, m1),
    ]);
    let next = step(&s);
    let dv0 = next.bodies[0].velocity;
    let dv1 = next.bodies[1].velocity;
    assert!(dv0.x > 0 && dv1.x < 0);
    let tolerance = (m0 + m1) as i128;
    for (a, b) in [(dv0.x, dv1.x), (dv0.y, dv1.y), (dv0.z, dv1.z)] {
        let total = (m0 as i128) * (a as i128) + (m1 as i128) * (b as i128);
        assert!(total.abs() < tolerance);
    }
}

/// For equal masses the velocity changes are exactly opposite.
#[test]
fn equal_mass_exact_opposite() {
    let s = state(vec![
        body(0, 0, 0, 0, 0, 0, 9_000_000),
        body(90_000, -120_000, 56_000, 0, 0, 0, 9_000_000),
    ]);
    let next = step(&s);
    let dv0 = next.bodies[0].velocity;
    let dv1 = next.bodies[1].velocity;
    assert_eq!(dv0.x, -dv1.x);
    assert_eq!(dv0.y, -dv1.y);
    assert_eq!(dv0.z, -dv1.z);
}

/// Position integration uses the stored velocity over the fixed time step,
/// truncating toward zero, before any force is applied.
#[test]
fn position_integration_truncates_toward_zero() {
    let s = state(vec![body(1_000, 2_000, 3_000, 250, -250, 100_000, 9_000_000)]);
    let next = step(&s);
    assert_eq!(next.bodies[0].position, v3(1_002, 1_998, 4_000));
    // A lone body sees no force, so its velocity is kept.
    assert_eq!(next.bodies[0].velocity, v3(250, -250, 100_000));
}

/// A coordinate leaving the band saturates at the band's edge.
#[test]
fn position_saturates_at_band_edge() {
    let limit = nbody::config::COORD_LIMIT;
    let s = state(vec![body(limit, 0, 0, limit, 0, 0, 9_000_000)]);
    let next = step(&s);
    assert_eq!(next.bodies[0].position.x, limit);
}

/// The tick counter saturates at its machine limit instead of wrapping.
#[test]
fn tick_saturates() {
    let s = SimulationState { bodies: vec![], tick: u64::MAX };
    let next = step(&s);
    assert_eq!(next.tick, u64::MAX);
    assert_eq!(next.bodies.len(), 0);
}
