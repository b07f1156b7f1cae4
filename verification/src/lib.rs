//! A tick-driven movement and direction-control core for a single
//! grid-bound entity, together with a randomized grid-aligned spawner
//! for secondary entities.
//!
//! The library is split into four parts:
//! - [`heading`]: the four travel directions and the anti-reversal
//!   arbitration that picks the next heading from the held keys;
//! - [`lattice`]: the sampler that snaps a uniform random draw to a
//!   grid-aligned coordinate inside the play field;
//! - [`motion`]: the moving entity and the tick accumulator that turns
//!   a per-tick speed into discrete one-cell displacements;
//! - [`spawn`]: the per-tick spawner that records one new secondary
//!   entity at a freshly sampled lattice coordinate.

pub mod heading;
pub mod lattice;
pub mod motion;
pub mod spawn;
