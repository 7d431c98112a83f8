//! The population initializer: a fixed total of bodies, partitioned into
//! three clusters, each placed inside an axis-aligned cube of fixed
//! half-width around its anchor, with per-axis velocities in a fixed
//! symmetric range and masses drawn from a fixed range common to all
//! clusters.  The random source is passed in explicitly, so a run is
//! reproducible from its seed.

use vstd::prelude::*;

use crate::body::{Body, SimulationState, Vec3};
use crate::config::{
    ANCHOR_A_X, ANCHOR_A_Y, ANCHOR_A_Z, ANCHOR_B_X, ANCHOR_B_Y, ANCHOR_B_Z, ANCHOR_C_X,
    ANCHOR_C_Y, ANCHOR_C_Z, COUNT_A, COUNT_B, COUNT_C, INIT_POSITION_RANGE, INIT_VELOCITY_RANGE,
    MASS_MAX, MASS_MIN,
};
use crate::rng::Rng64;

verus! {

/// The initializer's promise for one body of the cluster anchored at
/// `(ax, ay, az)`: position inside the cluster cube, velocity components
/// inside the symmetric range, mass inside the common mass range.
pub open spec fn in_cluster(b: Body, ax: int, ay: int, az: int) -> bool {
    &&& ax - INIT_POSITION_RANGE <= b.position.x <= ax + INIT_POSITION_RANGE
    &&& ay - INIT_POSITION_RANGE <= b.position.y <= ay + INIT_POSITION_RANGE
    &&& az - INIT_POSITION_RANGE <= b.position.z <= az + INIT_POSITION_RANGE
    &&& -INIT_VELOCITY_RANGE <= b.velocity.x <= INIT_VELOCITY_RANGE
    &&& -INIT_VELOCITY_RANGE <= b.velocity.y <= INIT_VELOCITY_RANGE
    &&& -INIT_VELOCITY_RANGE <= b.velocity.z <= INIT_VELOCITY_RANGE
    &&& MASS_MIN <= b.mass <= MASS_MAX
}

/// Draws one body of the cluster anchored at `(ax, ay, az)`.
fn random_cluster_body(rng: &mut Rng64, ax: i64, ay: i64, az: i64) -> (b: Body)
    requires
        -2_000_000 <= ax <= 2_000_000,
        -2_000_000 <= ay <= 2_000_000,
        -2_000_000 <= az <= 2_000_000,
    ensures
        in_cluster(b, ax as int, ay as int, az as int),
        b.wf(),
        b.mass > 0,
{
    let mass: i64 = rng.random_range(MASS_MIN, MASS_MAX);
    let px: i64 = rng.random_range(ax - INIT_POSITION_RANGE, ax + INIT_POSITION_RANGE);
    let py: i64 = rng.random_range(ay - INIT_POSITION_RANGE, ay + INIT_POSITION_RANGE);
    let pz: i64 = rng.random_range(az - INIT_POSITION_RANGE, az + INIT_POSITION_RANGE);
    let vx: i64 = rng.random_range(-INIT_VELOCITY_RANGE, INIT_VELOCITY_RANGE);
    let vy: i64 = rng.random_range(-INIT_VELOCITY_RANGE, INIT_VELOCITY_RANGE);
    let vz: i64 = rng.random_range(-INIT_VELOCITY_RANGE, INIT_VELOCITY_RANGE);
    Body { position: Vec3 { x: px, y: py, z: pz }, velocity: Vec3 { x: vx, y: vy, z: vz }, mass }
}

/// Builds the initial state: the three clusters in order, at tick zero.
///
/// Initialization cannot fail, and every generated body starts active,
/// with its position inside its cluster's cube, its velocity inside the
/// symmetric range, and its mass inside the common mass range.
pub fn initialize(rng: &mut Rng64) -> (s: SimulationState)
    ensures
        s.wf(),
        s.tick == 0,
        s.bodies@.len() == COUNT_A + COUNT_B + COUNT_C,
        forall|i: int|
            0 <= i < COUNT_A ==> in_cluster(
                s.bodies@[i],
                ANCHOR_A_X as int,
                ANCHOR_A_Y as int,
                ANCHOR_A_Z as int,
            ),
        forall|i: int|
            COUNT_A <= i < COUNT_A + COUNT_B ==> in_cluster(
                s.bodies@[i],
                ANCHOR_B_X as int,
                ANCHOR_B_Y as int,
                ANCHOR_B_Z as int,
            ),
        forall|i: int|
            COUNT_A + COUNT_B <= i < COUNT_A + COUNT_B + COUNT_C ==> in_cluster(
                s.bodies@[i],
                ANCHOR_C_X as int,
                ANCHOR_C_Y as int,
                ANCHOR_C_Z as int,
            ),
        forall|i: int| 0 <= i < s.bodies@.len() ==> s.bodies@[i].mass > 0,
{
    let mut bodies: Vec<Body> = Vec::new();
    let mut i: usize = 0;
    while i < COUNT_A
        invariant
            i <= COUNT_A,
            bodies@.len() == i,
            forall|k: int|
                0 <= k < i ==> in_cluster(
                    bodies@[k],
                    ANCHOR_A_X as int,
                    ANCHOR_A_Y as int,
                    ANCHOR_A_Z as int,
                ),
            forall|k: int| 0 <= k < i ==> bodies@[k].wf() && bodies@[k].mass > 0,
        decreases COUNT_A - i,
    {
        let b: Body = random_cluster_body(rng, ANCHOR_A_X, ANCHOR_A_Y, ANCHOR_A_Z);
        bodies.push(b);
        i = i + 1;
    }
    let mut i: usize = 0;
    while i < COUNT_B
        invariant
            i <= COUNT_B,
            bodies@.len() == COUNT_A + i,
            forall|k: int|
                0 <= k < COUNT_A ==> in_cluster(
                    bodies@[k],
                    ANCHOR_A_X as int,
                    ANCHOR_A_Y as int,
                    ANCHOR_A_Z as int,
                ),
            forall|k: int|
                COUNT_A <= k < COUNT_A + i ==> in_cluster(
                    bodies@[k],
                    ANCHOR_B_X as int,
                    ANCHOR_B_Y as int,
                    ANCHOR_B_Z as int,
                ),
            forall|k: int| 0 <= k < bodies@.len() ==> bodies@[k].wf() && bodies@[k].mass > 0,
        decreases COUNT_B - i,
    {
        let b: Body = random_cluster_body(rng, ANCHOR_B_X, ANCHOR_B_Y, ANCHOR_B_Z);
        bodies.push(b);
        i = i + 1;
    }
    let mut i: usize = 0;
    while i < COUNT_C
        invariant
            i <= COUNT_C,
            bodies@.len() == COUNT_A + COUNT_B + i,
            forall|k: int|
                0 <= k < COUNT_A ==> in_cluster(
                    bodies@[k],
                    ANCHOR_A_X as int,
                    ANCHOR_A_Y as int,
                    ANCHOR_A_Z as int,
                ),
            forall|k: int|
                COUNT_A <= k < COUNT_A + COUNT_B ==> in_cluster(
                    bodies@[k],
                    ANCHOR_B_X as int,
                    ANCHOR_B_Y as int,
                    ANCHOR_B_Z as int,
                ),
            forall|k: int|
                COUNT_A + COUNT_B <= k < COUNT_A + COUNT_B + i ==> in_cluster(
                    bodies@[k],
                    ANCHOR_C_X as int,
                    ANCHOR_C_Y as int,
                    ANCHOR_C_Z as int,
                ),
            forall|k: int| 0 <= k < bodies@.len() ==> bodies@[k].wf() && bodies@[k].mass > 0,
        decreases COUNT_C - i,
    {
        let b: Body = random_cluster_body(rng, ANCHOR_C_X, ANCHOR_C_Y, ANCHOR_C_Z);
        bodies.push(b);
        i = i + 1;
    }
    SimulationState { bodies, tick: 0 }
}

} // verus!
