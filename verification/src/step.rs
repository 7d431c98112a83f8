//! The per-tick stepper and its mathematical model.
//!
//! One tick works in two phases over the whole population.  First every
//! active body's position advances by its stored velocity over the fixed
//! time step (explicit Euler on the previous tick's velocity).  Then every
//! active body's velocity accumulates, in collection order, the pull of
//! every other active body, computed from the already fully advanced
//! position set; a pair closer than its near-contact cutoff, or at zero
//! distance, contributes nothing.  Advancing all positions before any
//! force is read makes the tick independent of iteration order.
//!
//! The model below mirrors the computation exactly over unbounded
//! integers; the executable stepper is proved to return precisely
//! [`step_bodies`] of its input.

use vstd::prelude::*;

use crate::body::{in_band, Body, SimulationState, Vec3};
use crate::config::{COORD_LIMIT, CUTOFF_FACTOR, DT_RECIP, G, SCALE_SQ};
use crate::math::{
    cbrt_floor, clamp, clamp_i128, isqrt_u128, icbrt_u64, lemma_clamp_in_band, lemma_tdiv_bounds,
    sqrt_floor, tdiv, tdiv_i128,
};

verus! {

/// One coordinate after position integration: the stored velocity scaled
/// by the time step, added and saturated at the coordinate band.
pub open spec fn advance_coord(p: int, v: int) -> int {
    clamp(p + tdiv(v, DT_RECIP as int))
}

/// A body after position integration.  An inactive body is left untouched;
/// an active one moves by its own pre-tick velocity.
pub open spec fn advance_body(b: Body) -> Body {
    if b.mass == 0 {
        b
    } else {
        Body {
            position: Vec3 {
                x: advance_coord(b.position.x as int, b.velocity.x as int) as i64,
                y: advance_coord(b.position.y as int, b.velocity.y as int) as i64,
                z: advance_coord(b.position.z as int, b.velocity.z as int) as i64,
            },
            velocity: b.velocity,
            mass: b.mass,
        }
    }
}

/// Squared Euclidean distance between two coordinate triples.
pub open spec fn dist_sq(p: Vec3, q: Vec3) -> int {
    let dx = p.x - q.x;
    let dy = p.y - q.y;
    let dz = p.z - q.z;
    dx * dx + dy * dy + dz * dz
}

/// The near-contact cutoff distance of a pair: the sum of both bodies'
/// effective radii, each the cube root of the mass times the collapsed
/// radius factor (see [`CUTOFF_FACTOR`]).
pub open spec fn cutoff_dist(mi: int, mj: int) -> int {
    (cbrt_floor(mi) + cbrt_floor(mj)) * (CUTOFF_FACTOR as int)
}

/// Whether the interaction of `bi` with source `bj` is skipped: an
/// inactive source, exact coincidence (zero distance is treated as already
/// skipped, so no degenerate division is attempted), or a separation under
/// the pair's cutoff.
pub open spec fn pair_skipped(bi: Body, bj: Body) -> bool {
    let d2 = dist_sq(bi.position, bj.position);
    bj.mass == 0 || d2 == 0 || sqrt_floor(d2) < cutoff_dist(bi.mass as int, bj.mass as int)
}

/// One axis of the velocity pull of a source of mass `mj` at displacement
/// `d` along the axis, separation `r` and squared separation `d2`: the
/// fixed-point form of `d / r * G * mj / r^2`.
pub open spec fn delta_axis(d: int, mj: int, r: int, d2: int) -> int {
    tdiv(d * (G as int) * mj * (SCALE_SQ as int), r * d2)
}

/// The velocity pull of source `bj` on `bi`, one component per axis.
pub open spec fn pair_delta(bi: Body, bj: Body) -> (int, int, int) {
    let d2 = dist_sq(bi.position, bj.position);
    let r = sqrt_floor(d2);
    (
        delta_axis(bi.position.x - bj.position.x, bj.mass as int, r, d2),
        delta_axis(bi.position.y - bj.position.y, bj.mass as int, r, d2),
        delta_axis(bi.position.z - bj.position.z, bj.mass as int, r, d2),
    )
}

/// A velocity triple after the interaction of `bi` with source `bj`:
/// unchanged for a skipped pair, else each axis pulled by the pair's
/// delta and saturated at the coordinate band.
pub open spec fn apply_pair(v: (int, int, int), bi: Body, bj: Body) -> (int, int, int) {
    if pair_skipped(bi, bj) {
        v
    } else {
        let dv = pair_delta(bi, bj);
        (clamp(v.0 - dv.0), clamp(v.1 - dv.1), clamp(v.2 - dv.2))
    }
}

/// The velocity of body `i` after accumulating the sources at indices
/// below `j`, in collection order, over the advanced position set `adv`.
pub open spec fn vel_prefix(adv: Seq<Body>, i: int, j: int) -> (int, int, int)
    decreases j,
{
    if j <= 0 {
        (adv[i].velocity.x as int, adv[i].velocity.y as int, adv[i].velocity.z as int)
    } else {
        let prev = vel_prefix(adv, i, j - 1);
        if j - 1 == i {
            prev
        } else {
            apply_pair(prev, adv[i], adv[j - 1])
        }
    }
}

/// The velocity of body `i` after accumulating every source.
pub open spec fn new_velocity(adv: Seq<Body>, i: int) -> (int, int, int) {
    vel_prefix(adv, i, adv.len() as int)
}

/// Body `i` at the end of the tick: an inactive body is untouched, an
/// active one keeps its advanced position and takes its accumulated
/// velocity.
pub open spec fn stepped_body(adv: Seq<Body>, i: int) -> Body {
    if adv[i].mass == 0 {
        adv[i]
    } else {
        let v = new_velocity(adv, i);
        Body {
            position: adv[i].position,
            velocity: Vec3 { x: v.0 as i64, y: v.1 as i64, z: v.2 as i64 },
            mass: adv[i].mass,
        }
    }
}

/// The whole population after position integration.
pub open spec fn advanced_seq(bodies: Seq<Body>) -> Seq<Body> {
    Seq::new(bodies.len(), |i: int| advance_body(bodies[i]))
}

/// The whole population after one tick.
pub open spec fn step_bodies(bodies: Seq<Body>) -> Seq<Body> {
    let adv = advanced_seq(bodies);
    Seq::new(bodies.len(), |i: int| stepped_body(adv, i))
}

/// The population after `n` ticks.
pub open spec fn steps(bodies: Seq<Body>, n: nat) -> Seq<Body>
    decreases n,
{
    if n == 0 {
        bodies
    } else {
        step_bodies(steps(bodies, (n - 1) as nat))
    }
}

/// One coordinate of position integration, executably.
fn advance_coord_exec(p: i64, v: i64) -> (r: i64)
    ensures
        r as int == advance_coord(p as int, v as int),
{
    let d: i128 = tdiv_i128(v as i128, DT_RECIP as i128);
    proof {
        lemma_tdiv_bounds(v as int, DT_RECIP as int);
    }
    clamp_i128((p as i128) + d)
}

/// A body after position integration, executably.
fn advance_exec(b: &Body) -> (r: Body)
    requires
        b.wf(),
    ensures
        r == advance_body(*b),
        r.wf(),
{
    if b.mass == 0 {
        *b
    } else {
        let r = Body {
            position: Vec3 {
                x: advance_coord_exec(b.position.x, b.velocity.x),
                y: advance_coord_exec(b.position.y, b.velocity.y),
                z: advance_coord_exec(b.position.z, b.velocity.z),
            },
            velocity: b.velocity,
            mass: b.mass,
        };
        proof {
            lemma_clamp_in_band(b.position.x + tdiv(b.velocity.x as int, DT_RECIP as int));
            lemma_clamp_in_band(b.position.y + tdiv(b.velocity.y as int, DT_RECIP as int));
            lemma_clamp_in_band(b.position.z + tdiv(b.velocity.z as int, DT_RECIP as int));
        }
        r
    }
}

/// Squared Euclidean distance between two well-formed coordinate triples.
pub fn sq_distance_between(p: &Vec3, q: &Vec3) -> (r: i128)
    requires
        p.wf(),
        q.wf(),
    ensures
        r as int == dist_sq(*p, *q),
        0 <= r <= 12_000_000_000_000_000_000_000_000,
{
    let dx: i128 = (p.x as i128) - (q.x as i128);
    let dy: i128 = (p.y as i128) - (q.y as i128);
    let dz: i128 = (p.z as i128) - (q.z as i128);
    proof {
        assert(0 <= (dx as int) * (dx as int) <= 4_000_000_000_000_000_000_000_000int)
            by (nonlinear_arith)
            requires
                -2_000_000_000_000 <= (dx as int) <= 2_000_000_000_000,
        ;
        assert(0 <= (dy as int) * (dy as int) <= 4_000_000_000_000_000_000_000_000int)
            by (nonlinear_arith)
            requires
                -2_000_000_000_000 <= (dy as int) <= 2_000_000_000_000,
        ;
        assert(0 <= (dz as int) * (dz as int) <= 4_000_000_000_000_000_000_000_000int)
            by (nonlinear_arith)
            requires
                -2_000_000_000_000 <= (dz as int) <= 2_000_000_000_000,
        ;
    }
    dx * dx + dy * dy + dz * dz
}

/// One axis of the velocity pull, executably: the delta numerator over the
/// common denominator `den`, truncated toward zero.
fn axis_delta(pi: i64, pj: i64, mj: i64, den: i128) -> (dv: i128)
    requires
        in_band(pi as int),
        in_band(pj as int),
        0 <= mj <= COORD_LIMIT,
        den >= 1,
    ensures
        dv as int == tdiv((pi - pj) * (G as int) * (mj as int) * (SCALE_SQ as int), den as int),
        -2_000_000_000_000_000_000_000_000_000_000 <= dv
            <= 2_000_000_000_000_000_000_000_000_000_000,
{
    let d: i128 = (pi as i128) - (pj as i128);
    proof {
        assert(-2_000_000_000_000_000_000_000_000int <= (d as int) * (mj as int)
            <= 2_000_000_000_000_000_000_000_000int) by (nonlinear_arith)
            requires
                -2_000_000_000_000 <= (d as int) <= 2_000_000_000_000 && 0 <= (mj as int)
                    <= 1_000_000_000_000,
        ;
    }
    let num: i128 = d * (G as i128) * (mj as i128) * (SCALE_SQ as i128);
    let dv = tdiv_i128(num, den);
    proof {
        lemma_tdiv_bounds(num as int, den as int);
    }
    dv
}

/// A velocity triple after the interaction of `bi` with source `bj`,
/// executably.
fn pair_update(cur: (i64, i64, i64), bi: &Body, bj: &Body) -> (r: (i64, i64, i64))
    requires
        bi.wf(),
        bj.wf(),
        in_band(cur.0 as int),
        in_band(cur.1 as int),
        in_band(cur.2 as int),
    ensures
        (r.0 as int, r.1 as int, r.2 as int) == apply_pair(
            (cur.0 as int, cur.1 as int, cur.2 as int),
            *bi,
            *bj,
        ),
        in_band(r.0 as int),
        in_band(r.1 as int),
        in_band(r.2 as int),
{
    if bj.mass == 0 {
        return cur;
    }
    let d2: i128 = sq_distance_between(&bi.position, &bj.position);
    if d2 == 0 {
        return cur;
    }
    let r_dist: u64 = isqrt_u128(d2 as u128);
    let ci: u64 = icbrt_u64(bi.mass as u64);
    let cj: u64 = icbrt_u64(bj.mass as u64);
    proof {
        assert((ci as int) <= 10_000) by (nonlinear_arith)
            requires
                (ci as int) >= 0 && (ci as int) * (ci as int) * (ci as int)
                    <= 1_000_000_000_000int,
        ;
        assert((cj as int) <= 10_000) by (nonlinear_arith)
            requires
                (cj as int) >= 0 && (cj as int) * (cj as int) * (cj as int)
                    <= 1_000_000_000_000int,
        ;
    }
    proof {
        assert((CUTOFF_FACTOR as u64) == 15u64);
        assert(ci + cj <= 20_000);
    }
    let cut: u64 = (ci + cj) * (CUTOFF_FACTOR as u64);
    if r_dist < cut {
        return cur;
    }
    proof {
        assert(d2 >= 1);
        assert((r_dist as int) >= 1) by (nonlinear_arith)
            requires
                (d2 as int) >= 1 && (d2 as int) < ((r_dist as int) + 1) * ((r_dist as int) + 1)
                    && (r_dist as int) >= 0,
        ;
        assert((r_dist as int) <= 4_000_000_000_000int) by (nonlinear_arith)
            requires
                (r_dist as int) >= 0 && (r_dist as int) * (r_dist as int) <= (d2 as int) && (
                d2 as int) <= 12_000_000_000_000_000_000_000_000int,
        ;
        assert(1 <= (r_dist as int) * (d2 as int)
            <= 48_000_000_000_000_000_000_000_000_000_000_000_000int) by (nonlinear_arith)
            requires
                1 <= (r_dist as int) <= 4_000_000_000_000int && 1 <= (d2 as int)
                    <= 12_000_000_000_000_000_000_000_000int,
        ;
    }
    let den: i128 = (r_dist as i128) * d2;
    let dvx: i128 = axis_delta(bi.position.x, bj.position.x, bj.mass, den);
    let dvy: i128 = axis_delta(bi.position.y, bj.position.y, bj.mass, den);
    let dvz: i128 = axis_delta(bi.position.z, bj.position.z, bj.mass, den);
    let nx: i64 = clamp_i128((cur.0 as i128) - dvx);
    let ny: i64 = clamp_i128((cur.1 as i128) - dvy);
    let nz: i64 = clamp_i128((cur.2 as i128) - dvz);
    proof {
        lemma_clamp_in_band(cur.0 - dvx as int);
        lemma_clamp_in_band(cur.1 - dvy as int);
        lemma_clamp_in_band(cur.2 - dvz as int);
    }
    (nx, ny, nz)
}

/// The accumulated velocity of body `i` over the advanced position set.
fn new_velocity_exec(adv: &Vec<Body>, i: usize) -> (v: (i64, i64, i64))
    requires
        i < adv@.len(),
        forall|k: int| 0 <= k < adv@.len() ==> adv@[k].wf(),
        adv@[i as int].mass != 0,
    ensures
        (v.0 as int, v.1 as int, v.2 as int) == new_velocity(adv@, i as int),
        in_band(v.0 as int),
        in_band(v.1 as int),
        in_band(v.2 as int),
{
    let b: Body = adv[i];
    let mut vx: i64 = b.velocity.x;
    let mut vy: i64 = b.velocity.y;
    let mut vz: i64 = b.velocity.z;
    let mut j: usize = 0;
    while j < adv.len()
        invariant
            i < adv@.len(),
            j <= adv@.len(),
            forall|k: int| 0 <= k < adv@.len() ==> adv@[k].wf(),
            b == adv@[i as int],
            (vx as int, vy as int, vz as int) == vel_prefix(adv@, i as int, j as int),
            in_band(vx as int),
            in_band(vy as int),
            in_band(vz as int),
        decreases adv@.len() - j,
    {
        if j != i {
            let bj: Body = adv[j];
            let next = pair_update((vx, vy, vz), &b, &bj);
            vx = next.0;
            vy = next.1;
            vz = next.2;
        }
        j += 1;
    }
    (vx, vy, vz)
}

/// One tick of the simulation.
///
/// The result is exactly the model [`step_bodies`] of the input population,
/// with the tick counter advanced (saturating at its machine limit).  In
/// particular the population size never changes, no body's mass changes,
/// and an inactive body is left bit-for-bit untouched.
pub fn step(state: &SimulationState) -> (next: SimulationState)
    requires
        state.wf(),
    ensures
        next.wf(),
        next.bodies@ == step_bodies(state.bodies@),
        next.bodies@.len() == state.bodies@.len(),
        state.tick < u64::MAX ==> next.tick == state.tick + 1,
        state.tick == u64::MAX ==> next.tick == u64::MAX,
        forall|i: int|
            0 <= i < state.bodies@.len() ==> next.bodies@[i].mass == state.bodies@[i].mass,
        forall|i: int|
            0 <= i < state.bodies@.len() && state.bodies@[i].mass == 0 ==> next.bodies@[i]
                == state.bodies@[i],
{
    let n: usize = state.bodies.len();
    let mut adv: Vec<Body> = Vec::new();
    let mut i: usize = 0;
    while i < n
        invariant
            state.wf(),
            i <= n,
            n == state.bodies@.len(),
            adv@.len() == i,
            forall|k: int| 0 <= k < i ==> adv@[k] == advance_body(state.bodies@[k]),
            forall|k: int| 0 <= k < i ==> adv@[k].wf(),
        decreases n - i,
    {
        let b: Body = state.bodies[i];
        let nb: Body = advance_exec(&b);
        adv.push(nb);
        i = i + 1;
    }
    proof {
        assert(adv@ =~= advanced_seq(state.bodies@));
    }
    let mut out: Vec<Body> = Vec::new();
    let mut i: usize = 0;
    while i < n
        invariant
            i <= n,
            n == state.bodies@.len(),
            adv@ == advanced_seq(state.bodies@),
            adv@.len() == n,
            forall|k: int| 0 <= k < n ==> adv@[k].wf(),
            out@.len() == i,
            forall|k: int| 0 <= k < i ==> out@[k] == stepped_body(adv@, k),
            forall|k: int| 0 <= k < i ==> out@[k].wf(),
        decreases n - i,
    {
        let b: Body = adv[i];
        if b.mass == 0 {
            out.push(b);
        } else {
            let v = new_velocity_exec(&adv, i);
            let nb: Body = Body {
                position: b.position,
                velocity: Vec3 { x: v.0, y: v.1, z: v.2 },
                mass: b.mass,
            };
            out.push(nb);
        }
        i = i + 1;
    }
    proof {
        assert(out@ =~= step_bodies(state.bodies@));
        assert forall|i: int|
            0 <= i < state.bodies@.len() implies out@[i].mass == state.bodies@[i].mass by {
            assert(out@[i] == stepped_body(advanced_seq(state.bodies@), i));
        };
        assert forall|i: int|
            0 <= i < state.bodies@.len() && state.bodies@[i].mass == 0 implies out@[i]
            == state.bodies@[i] by {
            assert(out@[i] == stepped_body(advanced_seq(state.bodies@), i));
        };
    }
    let tick: u64 = if state.tick < u64::MAX {
        state.tick + 1
    } else {
        u64::MAX
    };
    SimulationState { bodies: out, tick }
}

} // verus!
