//! A brute-force gravitational N-body simulator on fixed-point coordinates.
//!
//! A fixed population of point masses evolves under mutual Newtonian
//! attraction, advanced one fixed time step per tick.  All quantities are
//! held in fixed-point units of `config::SCALE` sub-units per simulation
//! unit, so that every computation of the engine is exact integer
//! arithmetic and carries a proved contract.
//!
//! Modules, in dependency order:
//! - [`config`]: the named constants of the engine (population, anchors,
//!   ranges, time step, cutoff scaling, coordinate bound).
//! - [`math`]: integer square and cube roots, truncating division and
//!   clamping, with their specification-level counterparts.
//! - [`rng`]: a small seedable generator, injected into the initializer so
//!   that runs are reproducible.
//! - [`body`]: the body and simulation-state types and their invariants.
//! - [`step`]: the per-tick stepper and its mathematical model.
//! - [`init`]: the population initializer.
//! - [`laws`]: proved statements relating the engine's operations.

pub mod body;
pub mod config;
pub mod init;
pub mod laws;
pub mod math;
pub mod rng;
pub mod step;
