//! Directional ray probes: a cardinal direction and a length, not a volume.

use vstd::prelude::*;

use crate::aabb::{box_ok, boxes_intersect, Box2, SpecBox};
use crate::cardinal::{spec_unit_vec, Cardinal};
use crate::units::{v2add, v2in, v2scale, SpecVec2, Vec2i};
use crate::{GEOM_LIMIT, POS_LIMIT};

verus! {

/// Rejected construction parameters for a shape.
#[derive(Debug, Clone, Copy, PartialEq, Eq, Structural)]
pub enum ShapeError {
    /// A ray probe was given a length below one unit.
    InvalidRayLength,
}

/// The bounding box of the segment from `origin` to
/// `origin + len * unit(dir)`; for an axis-aligned segment, hitting a
/// closed box is the same as this box intersecting it.
pub open spec fn spec_segment_box(origin: SpecVec2, dir: Cardinal, len: int) -> SpecBox {
    let end = v2add(origin, v2scale(len, spec_unit_vec(dir)));
    SpecBox {
        min: SpecVec2 {
            x: if origin.x <= end.x {
                origin.x
            } else {
                end.x
            },
            y: if origin.y <= end.y {
                origin.y
            } else {
                end.y
            },
        },
        max: SpecVec2 {
            x: if origin.x <= end.x {
                end.x
            } else {
                origin.x
            },
            y: if origin.y <= end.y {
                end.y
            } else {
                origin.y
            },
        },
    }
}

/// Whether the ray of length `len` from `origin` in direction `dir`
/// touches the closed box `target`.
pub open spec fn spec_ray_hits(origin: SpecVec2, dir: Cardinal, len: int, target: SpecBox) -> bool {
    boxes_intersect(spec_segment_box(origin, dir, len), target)
}

/// A ray probe: a fixed cardinal direction and a length in whole units.
#[derive(Debug, Clone, Copy, PartialEq, Eq, Structural)]
pub struct RayCast {
    pub direction: Cardinal,
    pub length: i64,
}

/// The probe's parameters are valid and within the geometry bound.
pub open spec fn ray_in_bounds(r: RayCast) -> bool {
    1 <= r.length <= GEOM_LIMIT
}

/// Overlap test of a ray probe: the probe is shortened by one unit, so it
/// does not report contact one tick before actually reaching the surface.
pub open spec fn spec_ray_collides(r: RayCast, position: SpecVec2, target: SpecBox) -> bool {
    spec_ray_hits(position, r.direction, r.length - 1, target)
}

/// Side classification of a ray probe: its own fixed direction whenever
/// the full-length ray touches the box, `None` otherwise.
pub open spec fn spec_ray_side(r: RayCast, position: SpecVec2, target: SpecBox) -> Option<
    Cardinal,
> {
    if spec_ray_hits(position, r.direction, r.length as int, target) {
        Some(r.direction)
    } else {
        None
    }
}

/// A ray probe placed at a world position.
#[derive(Debug, Clone, Copy, PartialEq, Eq, Structural)]
pub struct Ray2 {
    pub origin: Vec2i,
    pub direction: Cardinal,
    pub length: i64,
}

impl Ray2 {
    /// Whether this placed ray touches the closed box `aabb`.
    pub fn intersects(&self, aabb: &Box2) -> (r: bool)
        requires
            v2in(self.origin@, POS_LIMIT + GEOM_LIMIT),
            0 <= self.length <= GEOM_LIMIT,
            box_ok(aabb@),
        ensures
            r == spec_ray_hits(self.origin@, self.direction, self.length as int, aabb@),
    {
        let (min_x, min_y, max_x, max_y): (i64, i64, i64, i64) = match self.direction {
            Cardinal::West => (self.origin.x - self.length, self.origin.y, self.origin.x, self.origin.y),
            Cardinal::North => (self.origin.x, self.origin.y, self.origin.x, self.origin.y + self.length),
            Cardinal::East => (self.origin.x, self.origin.y, self.origin.x + self.length, self.origin.y),
            Cardinal::South => (self.origin.x, self.origin.y - self.length, self.origin.x, self.origin.y),
        };
        min_x <= aabb.max.x && max_x >= aabb.min.x && min_y <= aabb.max.y && max_y >= aabb.min.y
    }
}

impl RayCast {
    /// Build a ray probe. A length below one unit is a construction error,
    /// never silently clamped.
    pub fn new(direction: Cardinal, length: i64) -> (r: Result<RayCast, ShapeError>)
        ensures
            r is Ok <==> length >= 1,
            r matches Ok(rc) ==> rc == (RayCast { direction, length }),
            r matches Err(e) ==> e == ShapeError::InvalidRayLength,
    {
        if length >= 1 {
            Ok(RayCast { direction, length })
        } else {
            Err(ShapeError::InvalidRayLength)
        }
    }

    /// This shape as a variant of the closed shape union.
    pub fn as_typed_shape(&self) -> (r: crate::collider::TypedShape)
        ensures
            r == crate::collider::TypedShape::Ray(*self),
    {
        crate::collider::TypedShape::Ray(*self)
    }

    /// This probe placed at `position`.
    pub fn ray_cast(&self, position: Vec2i) -> (r: Ray2)
        ensures
            r == (Ray2 { origin: position, direction: self.direction, length: self.length }),
    {
        Ray2 { origin: position, direction: self.direction, length: self.length }
    }

    /// Overlap test with the probe shortened by one unit.
    pub fn collides(&self, position: Vec2i, aabb: &Box2) -> (r: bool)
        requires
            ray_in_bounds(*self),
            v2in(position@, POS_LIMIT + GEOM_LIMIT),
            box_ok(aabb@),
        ensures
            r == spec_ray_collides(*self, position@, aabb@),
    {
        let shortened = Ray2 {
            origin: position,
            direction: self.direction,
            length: self.length - 1,
        };
        shortened.intersects(aabb)
    }

    /// The probe's own direction whenever its full length touches `aabb`.
    pub fn get_collision_side(&self, position: Vec2i, aabb: &Box2) -> (r: Option<Cardinal>)
        requires
            ray_in_bounds(*self),
            v2in(position@, POS_LIMIT + GEOM_LIMIT),
            box_ok(aabb@),
        ensures
            r == spec_ray_side(*self, position@, aabb@),
    {
        if !self.ray_cast(position).intersects(aabb) {
            return None;
        }
        Some(self.direction)
    }
}

} // verus!
