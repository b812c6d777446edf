//! Static solid obstacles.

use vstd::prelude::*;

use crate::aabb::{aabb_in_bounds, spec_aabb_at, Aabb, Box2, SpecBox};
use crate::units::{v2in, Vec2i};
use crate::GEOM_LIMIT;

verus! {

/// An immovable obstacle: an axis-aligned box at a position that is fixed
/// for the duration of a tick.
#[derive(Debug, Clone, Copy, PartialEq, Eq, Structural)]
pub struct Solid {
    pub aabb: Aabb,
    pub position: Vec2i,
}

/// The world-space box a solid occupies.
pub open spec fn spec_solid_box(s: Solid) -> SpecBox {
    spec_aabb_at(s.aabb.half_size@, s.position@)
}

/// The solid's geometry and position are within the geometry bound.
pub open spec fn solid_in_bounds(s: Solid) -> bool {
    aabb_in_bounds(s.aabb) && v2in(s.position@, GEOM_LIMIT as int)
}

/// Every solid in the sequence is within the geometry bound.
pub open spec fn solids_in_bounds(solids: Seq<Solid>) -> bool {
    forall|i: int| 0 <= i < solids.len() ==> solid_in_bounds(#[trigger] solids[i])
}

impl Solid {
    /// Build a solid from its centre position and half-extent.
    pub fn new(position: Vec2i, half_size: Vec2i) -> (r: Solid)
        ensures
            r == (Solid { aabb: Aabb { half_size }, position }),
    {
        Solid { aabb: Aabb::new(half_size), position }
    }

    /// The world-space box this solid occupies.
    pub fn box2(&self) -> (r: Box2)
        requires
            solid_in_bounds(*self),
        ensures
            r@ == spec_solid_box(*self),
    {
        self.aabb.aabb(self.position)
    }
}

} // verus!
