//! Proved statements relating the engine's operations: the symmetry of the
//! pairwise momentum exchange, the inertness of skipped pairs, and the
//! states that stepping leaves fixed.  (That a step keeps the population
//! size, every mass, and every inactive body is stated directly on
//! [`crate::step::step`].)

use vstd::prelude::*;

use crate::body::{Body, Vec3};
use crate::math::{
    clamp, lemma_sqrt_floor_bounds, lemma_tdiv_bounds, lemma_tdiv_neg, sqrt_floor, tdiv,
};
use crate::config::{G, SCALE_SQ};
use crate::step::{
    advance_body, advanced_seq, apply_pair, cutoff_dist, delta_axis, dist_sq, pair_delta,
    pair_skipped, step_bodies, stepped_body, steps, vel_prefix,
};

verus! {

/// Squared distance does not depend on the order of the pair.
pub proof fn lemma_dist_sq_symm(p: Vec3, q: Vec3)
    ensures
        dist_sq(p, q) == dist_sq(q, p),
{
    assert(((p.x - q.x) * (p.x - q.x) == (q.x - p.x) * (q.x - p.x)) && ((p.y - q.y) * (p.y - q.y)
        == (q.y - p.y) * (q.y - p.y)) && ((p.z - q.z) * (p.z - q.z) == (q.z - p.z) * (q.z
        - p.z))) by (nonlinear_arith);
}

/// Core of the momentum symmetry: two quotients of a common positive
/// denominator, whose numerators balance under the two weights, stay
/// within one unit of each weight of balancing themselves.
proof fn lemma_weighted_quotients_balance(
    p: int,
    q: int,
    mi: int,
    mj: int,
    den: int,
    qp: int,
    qq: int,
) by (nonlinear_arith)
    requires
        den >= 1,
        mi >= 1,
        mj >= 1,
        mi * p == mj * q,
        p - den < den * qp < p + den,
        q - den < den * qq < q + den,
    ensures
        -(mi + mj) < mj * qq - mi * qp < mi + mj,
{
}

/// Momentum symmetry along one axis: the pull of a source of mass `mj` on
/// a body of mass `mi` at displacement `d`, and the pull the other way at
/// displacement `-d`, are exactly opposite for equal masses, and their
/// mass-weighted sum vanishes to within the truncation tolerance
/// `mi + mj` in general.
pub proof fn lemma_axis_momentum(d: int, mi: int, mj: int, r: int, d2: int)
    requires
        mi >= 1,
        mj >= 1,
        r >= 1,
        d2 >= 1,
    ensures
        delta_axis(-d, mi, r, d2) == -delta_axis(d, mi, r, d2),
        -(mi + mj) < mi * delta_axis(d, mj, r, d2) + mj * delta_axis(-d, mi, r, d2) < mi + mj,
        mi == mj ==> delta_axis(-d, mi, r, d2) == -delta_axis(d, mj, r, d2),
{
    assert(r * d2 >= 1) by (nonlinear_arith)
        requires
            r >= 1 && d2 >= 1,
    ;
    let den = r * d2;
    let p = d * (G as int) * mj * (SCALE_SQ as int);
    let q = d * (G as int) * mi * (SCALE_SQ as int);
    assert((-d) * (G as int) * mi * (SCALE_SQ as int) == -(d * (G as int) * mi * (
    SCALE_SQ as int))) by (nonlinear_arith);
    lemma_tdiv_neg(q, den);
    assert(mi * (d * (G as int) * mj * (SCALE_SQ as int)) == mj * (d * (G as int) * mi * (
    SCALE_SQ as int))) by (nonlinear_arith);
    lemma_tdiv_bounds(p, den);
    lemma_tdiv_bounds(q, den);
    lemma_weighted_quotients_balance(p, q, mi, mj, den, tdiv(p, den), tdiv(q, den));
    assert(mj * (-tdiv(q, den)) == -(mj * tdiv(q, den))) by (nonlinear_arith);
}

/// Momentum symmetry of a pair (the near-contact cutoff aside): for two
/// active bodies at distinct positions, the velocity pulls the two compute
/// on each other are, per axis, exactly opposite when the masses are
/// equal, and in general their mass-weighted sum vanishes to within the
/// truncation tolerance of one unit per mass — equal and opposite momentum
/// exchange.
pub proof fn lemma_momentum_symmetry(bi: Body, bj: Body)
    requires
        bi.mass >= 1,
        bj.mass >= 1,
        dist_sq(bi.position, bj.position) != 0,
    ensures
        -(bi.mass + bj.mass) < bi.mass * pair_delta(bi, bj).0 + bj.mass * pair_delta(bj, bi).0
            < bi.mass + bj.mass,
        -(bi.mass + bj.mass) < bi.mass * pair_delta(bi, bj).1 + bj.mass * pair_delta(bj, bi).1
            < bi.mass + bj.mass,
        -(bi.mass + bj.mass) < bi.mass * pair_delta(bi, bj).2 + bj.mass * pair_delta(bj, bi).2
            < bi.mass + bj.mass,
        bi.mass == bj.mass ==> pair_delta(bj, bi).0 == -pair_delta(bi, bj).0
            && pair_delta(bj, bi).1 == -pair_delta(bi, bj).1 && pair_delta(bj, bi).2
            == -pair_delta(bi, bj).2,
{
    let d2 = dist_sq(bi.position, bj.position);
    lemma_dist_sq_symm(bi.position, bj.position);
    assert(d2 >= 1) by {
        assert((bi.position.x - bj.position.x) * (bi.position.x - bj.position.x) >= 0
            && (bi.position.y - bj.position.y) * (bi.position.y - bj.position.y) >= 0
            && (bi.position.z - bj.position.z) * (bi.position.z - bj.position.z) >= 0)
            by (nonlinear_arith);
    };
    let r = sqrt_floor(d2);
    lemma_sqrt_floor_bounds(d2);
    assert(r >= 1) by (nonlinear_arith)
        requires
            d2 >= 1 && r >= 0 && d2 < (r + 1) * (r + 1),
    ;
    lemma_axis_momentum(
        bi.position.x - bj.position.x,
        bi.mass as int,
        bj.mass as int,
        r,
        d2,
    );
    lemma_axis_momentum(
        bi.position.y - bj.position.y,
        bi.mass as int,
        bj.mass as int,
        r,
        d2,
    );
    lemma_axis_momentum(
        bi.position.z - bj.position.z,
        bi.mass as int,
        bj.mass as int,
        r,
        d2,
    );
}

/// A well-formed body that is inactive, or at rest, does not move under
/// position integration.
proof fn lemma_advance_at_rest(b: Body)
    requires
        b.wf(),
        b.mass == 0 || b.velocity == (Vec3 { x: 0i64, y: 0i64, z: 0i64 }),
    ensures
        advance_body(b) == b,
{
    if b.mass != 0 {
        assert(tdiv(0, 100) == 0);
        assert(advance_body(b) == b);
    }
}

/// What one step does to two isolated active bodies at rest: neither
/// position moves (the stored velocities were zero), and each body's
/// velocity is pulled by exactly the pair's delta, saturated at the
/// coordinate band — or not at all when the pair is skipped.  Together
/// with [`lemma_momentum_symmetry`] this is the equal-and-opposite
/// momentum exchange of an unclamped, uncut pair.
pub proof fn lemma_two_body_step(bodies: Seq<Body>)
    requires
        bodies.len() == 2,
        forall|i: int| 0 <= i < 2 ==> bodies[i].wf(),
        forall|i: int|
            0 <= i < 2 ==> bodies[i].velocity == (Vec3 { x: 0i64, y: 0i64, z: 0i64 }),
        bodies[0].mass != 0,
        bodies[1].mass != 0,
    ensures
        forall|i: int| 0 <= i < 2 ==> step_bodies(bodies)[i].position == bodies[i].position,
        !pair_skipped(bodies[0], bodies[1]) ==> step_bodies(bodies)[0].velocity == (Vec3 {
            x: clamp(-pair_delta(bodies[0], bodies[1]).0) as i64,
            y: clamp(-pair_delta(bodies[0], bodies[1]).1) as i64,
            z: clamp(-pair_delta(bodies[0], bodies[1]).2) as i64,
        }),
        !pair_skipped(bodies[1], bodies[0]) ==> step_bodies(bodies)[1].velocity == (Vec3 {
            x: clamp(-pair_delta(bodies[1], bodies[0]).0) as i64,
            y: clamp(-pair_delta(bodies[1], bodies[0]).1) as i64,
            z: clamp(-pair_delta(bodies[1], bodies[0]).2) as i64,
        }),
        pair_skipped(bodies[0], bodies[1]) ==> step_bodies(bodies)[0].velocity
            == bodies[0].velocity,
        pair_skipped(bodies[1], bodies[0]) ==> step_bodies(bodies)[1].velocity
            == bodies[1].velocity,
{
    lemma_advance_at_rest(bodies[0]);
    lemma_advance_at_rest(bodies[1]);
    assert(advanced_seq(bodies) =~= bodies);
    assert(vel_prefix(bodies, 0, 1) == vel_prefix(bodies, 0, 0));
    assert(vel_prefix(bodies, 0, 2) == apply_pair(
        vel_prefix(bodies, 0, 1),
        bodies[0],
        bodies[1],
    ));
    assert(vel_prefix(bodies, 1, 1) == apply_pair(
        vel_prefix(bodies, 1, 0),
        bodies[1],
        bodies[0],
    ));
    assert(vel_prefix(bodies, 1, 2) == vel_prefix(bodies, 1, 1));
    assert(step_bodies(bodies)[0] == stepped_body(bodies, 0));
    assert(step_bodies(bodies)[1] == stepped_body(bodies, 1));
}

/// A pair under its near-contact cutoff contributes no velocity change at
/// all: the interaction is skipped outright.
pub proof fn lemma_cutoff_skip(v: (int, int, int), bi: Body, bj: Body)
    requires
        sqrt_floor(dist_sq(bi.position, bj.position)) < cutoff_dist(
            bi.mass as int,
            bj.mass as int,
        ),
    ensures
        apply_pair(v, bi, bj) == v,
{
}

/// Exactly coincident bodies are treated as already skipped: a zero
/// distance contributes no velocity change (and no degenerate division).
pub proof fn lemma_coincident_skip(v: (int, int, int), bi: Body, bj: Body)
    requires
        dist_sq(bi.position, bj.position) == 0,
    ensures
        apply_pair(v, bi, bj) == v,
{
}

/// One step keeps the population: the size is unchanged, no body's mass
/// changes, and an inactive body is left untouched entirely.
pub proof fn lemma_step_preserves_population(bodies: Seq<Body>)
    ensures
        step_bodies(bodies).len() == bodies.len(),
        forall|i: int|
            0 <= i < bodies.len() ==> step_bodies(bodies)[i].mass == bodies[i].mass,
        forall|i: int|
            0 <= i < bodies.len() && bodies[i].mass == 0 ==> step_bodies(bodies)[i]
                == bodies[i],
{
    assert forall|i: int| 0 <= i < bodies.len() implies step_bodies(bodies)[i].mass
        == bodies[i].mass && (bodies[i].mass == 0 ==> step_bodies(bodies)[i] == bodies[i]) by {
        assert(step_bodies(bodies)[i] == stepped_body(advanced_seq(bodies), i));
    };
}

/// Over any number of ticks the population size never changes, a mass is
/// never altered, and a body inactive at any tick stays untouched from
/// then on: once destroyed, excluded forever.
pub proof fn lemma_population_stable_forever(bodies: Seq<Body>, n: nat)
    ensures
        steps(bodies, n).len() == bodies.len(),
        forall|i: int|
            0 <= i < bodies.len() ==> steps(bodies, n)[i].mass == bodies[i].mass,
        forall|i: int|
            0 <= i < bodies.len() && bodies[i].mass == 0 ==> steps(bodies, n)[i] == bodies[i],
    decreases n,
{
    if n > 0 {
        lemma_population_stable_forever(bodies, (n - 1) as nat);
        lemma_step_preserves_population(steps(bodies, (n - 1) as nat));
    }
}

/// A fixed point of one step is a fixed point of any number of steps.
pub proof fn lemma_fixed_point_steps(bodies: Seq<Body>, n: nat)
    requires
        step_bodies(bodies) == bodies,
    ensures
        steps(bodies, n) == bodies,
    decreases n,
{
    if n > 0 {
        lemma_fixed_point_steps(bodies, (n - 1) as nat);
    }
}

/// When every source an active body sees is skipped, its accumulated
/// velocity is its stored one, whatever the prefix length.
proof fn lemma_vel_prefix_all_skipped(adv: Seq<Body>, i: int, j: int)
    requires
        0 <= i < adv.len(),
        0 <= j <= adv.len(),
        forall|k: int| 0 <= k < adv.len() && k != i ==> pair_skipped(adv[i], adv[k]),
    ensures
        vel_prefix(adv, i, j) == (
            adv[i].velocity.x as int,
            adv[i].velocity.y as int,
            adv[i].velocity.z as int,
        ),
    decreases j,
{
    if j > 0 {
        lemma_vel_prefix_all_skipped(adv, i, j - 1);
    }
}

/// A quiescent population is a fixed point of the step: if every active
/// body is at rest and every interaction it would see is skipped, nothing
/// moves and nothing changes.
pub proof fn lemma_quiescent_fixed_point(bodies: Seq<Body>)
    requires
        forall|i: int| 0 <= i < bodies.len() ==> bodies[i].wf(),
        forall|i: int|
            0 <= i < bodies.len() && bodies[i].mass != 0 ==> bodies[i].velocity == (Vec3 {
                x: 0i64,
                y: 0i64,
                z: 0i64,
            }),
        forall|i: int, j: int|
            0 <= i < bodies.len() && 0 <= j < bodies.len() && i != j && bodies[i].mass != 0
                ==> pair_skipped(bodies[i], bodies[j]),
    ensures
        step_bodies(bodies) == bodies,
{
    assert forall|i: int| 0 <= i < bodies.len() implies advance_body(bodies[i]) == bodies[i] by {
        lemma_advance_at_rest(bodies[i]);
    };
    assert(advanced_seq(bodies) =~= bodies);
    assert forall|i: int| 0 <= i < bodies.len() implies stepped_body(bodies, i) == bodies[i] by {
        if bodies[i].mass != 0 {
            lemma_vel_prefix_all_skipped(bodies, i, bodies.len() as int);
            assert(stepped_body(bodies, i) == bodies[i]);
        }
    };
    assert(step_bodies(bodies) =~= bodies);
}

/// No-op step: with a single active body at rest (every other body
/// inactive), the whole state is left exactly as it is, after one step and
/// after any number of steps.
pub proof fn lemma_lone_body_stationary(bodies: Seq<Body>, a: int)
    requires
        0 <= a < bodies.len(),
        forall|i: int| 0 <= i < bodies.len() ==> bodies[i].wf(),
        forall|i: int| 0 <= i < bodies.len() && i != a ==> bodies[i].mass == 0,
        bodies[a].velocity == (Vec3 { x: 0i64, y: 0i64, z: 0i64 }),
    ensures
        step_bodies(bodies) == bodies,
        forall|n: nat| steps(bodies, n) == bodies,
{
    lemma_quiescent_fixed_point(bodies);
    assert forall|n: nat| steps(bodies, n) == bodies by {
        lemma_fixed_point_steps(bodies, n);
    };
}

/// Cutoff idempotence: an isolated pair at rest under its cutoff drifts
/// not at all — one step, and hence any number of steps, leaves the state
/// exactly as it is.
pub proof fn lemma_close_pair_fixed_point(bodies: Seq<Body>)
    requires
        bodies.len() == 2,
        forall|i: int| 0 <= i < bodies.len() ==> bodies[i].wf(),
        forall|i: int|
            0 <= i < bodies.len() && bodies[i].mass != 0 ==> bodies[i].velocity == (Vec3 {
                x: 0i64,
                y: 0i64,
                z: 0i64,
            }),
        sqrt_floor(dist_sq(bodies[0].position, bodies[1].position)) < cutoff_dist(
            bodies[0].mass as int,
            bodies[1].mass as int,
        ),
    ensures
        step_bodies(bodies) == bodies,
        forall|n: nat| steps(bodies, n) == bodies,
{
    lemma_dist_sq_symm(bodies[0].position, bodies[1].position);
    assert forall|i: int, j: int|
        0 <= i < bodies.len() && 0 <= j < bodies.len() && i != j && bodies[i].mass != 0
        implies pair_skipped(bodies[i], bodies[j]) by {
        if i == 0 {
            assert(pair_skipped(bodies[0], bodies[1]));
        } else {
            assert(pair_skipped(bodies[1], bodies[0]));
        }
    };
    lemma_quiescent_fixed_point(bodies);
    assert forall|n: nat| steps(bodies, n) == bodies by {
        lemma_fixed_point_steps(bodies, n);
    };
}

} // verus!
