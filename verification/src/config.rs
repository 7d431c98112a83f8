//! Named constants of the simulation.
//!
//! Every quantity of the engine is held in fixed-point form: an integer
//! counting sub-units of [`SCALE`] per simulation unit.  With `SCALE = 1000`
//! a position of `1` stands for one thousandth of a simulation unit, and the
//! default configuration (anchors at `±1000`, masses in `[8000, 10000]`)
//! becomes the thousandfold-scaled integers below.

use vstd::prelude::*;

verus! {

/// Fixed-point sub-units per simulation unit.
pub const SCALE: i64 = 1000;

/// `SCALE * SCALE`, the factor that converts a ratio of fixed-point
/// quantities back into fixed-point velocity sub-units.
pub const SCALE_SQ: i64 = 1_000_000;

/// Every stored coordinate, velocity component and mass is kept within
/// `[-COORD_LIMIT, COORD_LIMIT]` (one billion simulation units): arithmetic
/// that would leave the band saturates at its edge.
pub const COORD_LIMIT: i64 = 1_000_000_000_000;

/// Reciprocal of the time step: `dt = 0.01` ticks, so a position advances
/// by `velocity / DT_RECIP` each tick.
pub const DT_RECIP: i64 = 100;

/// Gravitational constant.
pub const G: i64 = 1;

/// Bodies in the first cluster.
pub const COUNT_A: usize = 500;

/// Bodies in the second cluster.
pub const COUNT_B: usize = 500;

/// Bodies in the third cluster.
pub const COUNT_C: usize = 1000;

/// Anchor of the first cluster, `(1000, 1300, 1000)` simulation units.
pub const ANCHOR_A_X: i64 = 1_000_000;
/// See [`ANCHOR_A_X`].
pub const ANCHOR_A_Y: i64 = 1_300_000;
/// See [`ANCHOR_A_X`].
pub const ANCHOR_A_Z: i64 = 1_000_000;

/// Anchor of the second cluster, `(-1000, 1300, 1000)` simulation units.
pub const ANCHOR_B_X: i64 = -1_000_000;
/// See [`ANCHOR_B_X`].
pub const ANCHOR_B_Y: i64 = 1_300_000;
/// See [`ANCHOR_B_X`].
pub const ANCHOR_B_Z: i64 = 1_000_000;

/// Anchor of the third cluster, `(0, -1300, 0)` simulation units.
pub const ANCHOR_C_X: i64 = 0;
/// See [`ANCHOR_C_X`].
pub const ANCHOR_C_Y: i64 = -1_300_000;
/// See [`ANCHOR_C_X`].
pub const ANCHOR_C_Z: i64 = 0;

/// Half-width of each cluster's initial cube, 1000 simulation units.
pub const INIT_POSITION_RANGE: i64 = 1_000_000;

/// Half-width of the initial per-axis velocity range, 5 units per tick.
pub const INIT_VELOCITY_RANGE: i64 = 5_000;

/// Smallest initial mass, 8000 simulation units.
pub const MASS_MIN: i64 = 8_000_000;

/// Largest initial mass, 10000 simulation units.
pub const MASS_MAX: i64 = 10_000_000;

/// Near-contact cutoff scaling.  A body's effective radius is
/// `mass^(1/3) * 0.3 / 2` in simulation units; in fixed-point sub-units that
/// is `cbrt(mass_fixed) * 0.15 * SCALE / cbrt(SCALE)`, and with
/// `SCALE = 1000` (whose cube root is exactly 10) the whole factor collapses
/// to the integer 15.
pub const CUTOFF_FACTOR: i64 = 15;

/// Elastic collision factor: fixed at zero and deliberately unused, a
/// placeholder for a future collision response.
pub const ELASTIC_COLLISION_FACTOR: i64 = 0;

/// Lower edge of the depth band a presentation layer is expected to show.
pub const DEPTH_MIN: i64 = -4_500_000;

/// Upper edge of the depth band a presentation layer is expected to show.
pub const DEPTH_MAX: i64 = 5_000_000;

} // verus!
