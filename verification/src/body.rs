//! The simulated data: a body (point mass) and the aggregate simulation
//! state, with their well-formedness invariants.

use vstd::prelude::*;

use crate::config::{COORD_LIMIT, DEPTH_MAX, DEPTH_MIN};

verus! {

/// A value lies in the coordinate band every stored component is kept in.
pub open spec fn in_band(v: int) -> bool {
    -(COORD_LIMIT as int) <= v <= COORD_LIMIT as int
}

/// A triple of fixed-point coordinates.
#[derive(Clone, Copy, PartialEq, Eq, Structural, Debug)]
pub struct Vec3 {
    pub x: i64,
    pub y: i64,
    pub z: i64,
}

impl Vec3 {
    /// All three components lie in the coordinate band.
    pub open spec fn wf(self) -> bool {
        in_band(self.x as int) && in_band(self.y as int) && in_band(self.z as int)
    }
}

/// A simulated point mass.  `mass == 0` is the sentinel for an inactive
/// (destroyed) body: it stays in storage, keeping indices stable, but is
/// excluded from every force interaction and from integration.
#[derive(Clone, Copy, PartialEq, Eq, Structural, Debug)]
pub struct Body {
    pub position: Vec3,
    pub velocity: Vec3,
    pub mass: i64,
}

impl Body {
    /// Components in the coordinate band and a non-negative mass.
    pub open spec fn wf(self) -> bool {
        self.position.wf() && self.velocity.wf() && 0 <= self.mass <= COORD_LIMIT
    }

    /// An active body takes part in integration and forces.
    pub open spec fn is_active(self) -> bool {
        self.mass != 0
    }

    /// Builds a body, checking that the components fit the invariant.
    pub fn new(position: Vec3, velocity: Vec3, mass: i64) -> (b: Body)
        requires
            position.wf(),
            velocity.wf(),
            0 <= mass <= COORD_LIMIT,
        ensures
            b == (Body { position, velocity, mass }),
            b.wf(),
    {
        Body { position, velocity, mass }
    }
}

/// The aggregate state: an ordered population of bodies, whose size never
/// changes after initialization, and a tick counter.
pub struct SimulationState {
    pub bodies: Vec<Body>,
    pub tick: u64,
}

impl SimulationState {
    /// Every stored body is well formed.
    pub open spec fn wf(self) -> bool {
        forall|i: int| 0 <= i < self.bodies@.len() ==> self.bodies@[i].wf()
    }

    /// Builds a state at tick zero from a population.
    pub fn new(bodies: Vec<Body>) -> (s: SimulationState)
        requires
            forall|i: int| 0 <= i < bodies@.len() ==> bodies@[i].wf(),
        ensures
            s.bodies@ == bodies@,
            s.tick == 0,
            s.wf(),
    {
        SimulationState { bodies, tick: 0 }
    }

    /// Number of stored bodies, active and inactive alike.
    pub fn len(&self) -> (n: usize)
        ensures
            n == self.bodies@.len(),
    {
        self.bodies.len()
    }
}

/// Whether a presentation layer is expected to show the body: its depth
/// axis lies within the fixed visible band.  (A fixed-point state holds no
/// non-finite component, so the band test is the whole filter.)
pub fn visible(b: &Body) -> (r: bool)
    ensures
        r == (DEPTH_MIN <= b.position.z && b.position.z <= DEPTH_MAX),
{
    DEPTH_MIN <= b.position.z && b.position.z <= DEPTH_MAX
}

} // verus!
