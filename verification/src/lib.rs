//! A discrete, tunneling-free 2D collision-and-movement core for
//! actor-versus-static-solid platformer physics.
//!
//! Geometry lives on an integer grid: positions and box extents are whole
//! units, while velocities and the per-axis remainder accumulator are kept in
//! fixed-point subunits (`SUBUNITS` subunits per unit). The movement
//! integrator advances an actor one unit at a time, testing for collision
//! before committing each step, which makes tunneling impossible at any
//! configured speed.

pub mod units;
pub mod cardinal;
pub mod aabb;
pub mod ray_cast;
pub mod custom_collider;
pub mod collider;
pub mod velocity;
pub mod solid;
pub mod actor;
pub mod separation_ray;
pub mod player;

use vstd::prelude::*;

verus! {

/// Number of fixed-point subunits in one world unit.
pub const SUBUNITS: i64 = 256;

/// Magnitude bound on geometry parameters: half-extents, probe lengths,
/// sub-shape offsets and solid positions.
pub const GEOM_LIMIT: i64 = 1_000_000_000;

/// Magnitude bound on the positions a collision query may be made at.
pub const POS_LIMIT: i64 = 4_000_000_000;

/// Magnitude bound on the velocity value the integrator accepts,
/// in subunits per second.
pub const VEL_LIMIT: i64 = 1_000_000_000;

} // verus!
