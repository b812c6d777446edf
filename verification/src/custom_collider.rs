//! Composite shapes: an ordered list of primitive sub-shapes, each with a
//! local offset, modelling irregular hulls such as a multi-probe character
//! silhouette.

use vstd::prelude::*;

use crate::aabb::{aabb_in_bounds, box_ok, spec_aabb_collides, spec_aabb_side, Aabb, Box2, SpecBox};
use crate::cardinal::Cardinal;
use crate::ray_cast::{ray_in_bounds, spec_ray_collides, spec_ray_side, RayCast};
use crate::units::{v2add, v2in, SpecVec2, Vec2i};
use crate::{GEOM_LIMIT, POS_LIMIT};

verus! {

/// A primitive (non-composite) shape: an axis-aligned box or a ray probe.
#[derive(Debug, Clone, Copy, PartialEq, Eq, Structural)]
pub enum BasicShape {
    Aabb(Aabb),
    Ray(RayCast),
}

/// One member of a composite: a primitive shape tested at a fixed offset
/// from the composite's own position.
#[derive(Debug, Clone, Copy, PartialEq, Eq, Structural)]
pub struct SubShape {
    pub shape: BasicShape,
    pub offset: Vec2i,
}

/// Overlap test of a primitive shape.
pub open spec fn spec_basic_collides(s: BasicShape, position: SpecVec2, target: SpecBox) -> bool {
    match s {
        BasicShape::Aabb(a) => spec_aabb_collides(a.half_size@, position, target),
        BasicShape::Ray(r) => spec_ray_collides(r, position, target),
    }
}

/// Side classification of a primitive shape.
pub open spec fn spec_basic_side(s: BasicShape, position: SpecVec2, target: SpecBox) -> Option<
    Cardinal,
> {
    match s {
        BasicShape::Aabb(a) => spec_aabb_side(a.half_size@, position, target),
        BasicShape::Ray(r) => spec_ray_side(r, position, target),
    }
}

/// Overlap test of one composite member, at its declared offset.
pub open spec fn spec_sub_collides(ss: SubShape, position: SpecVec2, target: SpecBox) -> bool {
    spec_basic_collides(ss.shape, v2add(position, ss.offset@), target)
}

/// Side classification of one composite member, at its declared offset.
pub open spec fn spec_sub_side(ss: SubShape, position: SpecVec2, target: SpecBox) -> Option<
    Cardinal,
> {
    spec_basic_side(ss.shape, v2add(position, ss.offset@), target)
}

/// The world-space bounding box of a primitive shape at `position`: the
/// box itself for an AABB, the full-length segment's box for a ray.
pub open spec fn spec_basic_bounds(s: BasicShape, position: SpecVec2) -> SpecBox {
    match s {
        BasicShape::Aabb(a) => crate::aabb::spec_aabb_at(a.half_size@, position),
        BasicShape::Ray(r) => crate::ray_cast::spec_segment_box(
            position,
            r.direction,
            r.length as int,
        ),
    }
}

/// The bounding box of one composite member at its declared offset.
pub open spec fn spec_sub_bounds(ss: SubShape, position: SpecVec2) -> SpecBox {
    spec_basic_bounds(ss.shape, v2add(position, ss.offset@))
}

/// The bounding box of the members from index `i` on.
pub open spec fn spec_parts_bounds(parts: Seq<SubShape>, i: int, position: SpecVec2) -> SpecBox
    decreases parts.len() - i,
{
    if i < 0 || i >= parts.len() {
        SpecBox { min: position, max: position }
    } else if i == parts.len() - 1 {
        spec_sub_bounds(parts[i], position)
    } else {
        crate::aabb::spec_box_union(
            spec_sub_bounds(parts[i], position),
            spec_parts_bounds(parts, i + 1, position),
        )
    }
}

/// The primitive's parameters are within the geometry bound.
pub open spec fn basic_in_bounds(s: BasicShape) -> bool {
    match s {
        BasicShape::Aabb(a) => aabb_in_bounds(a),
        BasicShape::Ray(r) => ray_in_bounds(r),
    }
}

/// A composite member's shape and offset are within the geometry bound.
pub open spec fn sub_in_bounds(ss: SubShape) -> bool {
    basic_in_bounds(ss.shape) && v2in(ss.offset@, GEOM_LIMIT as int)
}

impl BasicShape {
    /// Overlap test of this primitive at `position` against `aabb`.
    pub fn collides(&self, position: Vec2i, aabb: &Box2) -> (r: bool)
        requires
            basic_in_bounds(*self),
            v2in(position@, POS_LIMIT + GEOM_LIMIT),
            box_ok(aabb@),
        ensures
            r == spec_basic_collides(*self, position@, aabb@),
    {
        match self {
            BasicShape::Aabb(a) => a.collides(position, aabb),
            BasicShape::Ray(rc) => rc.collides(position, aabb),
        }
    }

    /// Side classification of this primitive at `position` against `aabb`.
    pub fn get_collision_side(&self, position: Vec2i, aabb: &Box2) -> (r: Option<Cardinal>)
        requires
            basic_in_bounds(*self),
            v2in(position@, POS_LIMIT + GEOM_LIMIT),
            box_ok(aabb@),
        ensures
            r == spec_basic_side(*self, position@, aabb@),
    {
        match self {
            BasicShape::Aabb(a) => a.get_collision_side(position, aabb),
            BasicShape::Ray(rc) => rc.get_collision_side(position, aabb),
        }
    }

    /// The world-space bounding box of this primitive at `position`.
    pub fn bounds(&self, position: Vec2i) -> (r: Box2)
        requires
            basic_in_bounds(*self),
            v2in(position@, POS_LIMIT + GEOM_LIMIT),
        ensures
            r@ == spec_basic_bounds(*self, position@),
    {
        match self {
            BasicShape::Aabb(a) => a.aabb(position),
            BasicShape::Ray(rc) => {
                match rc.direction {
                    Cardinal::West => Box2 {
                        min: Vec2i { x: position.x - rc.length, y: position.y },
                        max: position,
                    },
                    Cardinal::North => Box2 {
                        min: position,
                        max: Vec2i { x: position.x, y: position.y + rc.length },
                    },
                    Cardinal::East => Box2 {
                        min: position,
                        max: Vec2i { x: position.x + rc.length, y: position.y },
                    },
                    Cardinal::South => Box2 {
                        min: Vec2i { x: position.x, y: position.y - rc.length },
                        max: position,
                    },
                }
            },
        }
    }
}

/// A composite shape: its members in fixed declaration order.
#[derive(Debug)]
pub struct CustomCollider {
    pub parts: Vec<SubShape>,
}

/// Overlap test of a member list: the logical OR over its members.
pub open spec fn spec_parts_collides(
    parts: Seq<SubShape>,
    position: SpecVec2,
    target: SpecBox,
) -> bool {
    exists|i: int| 0 <= i < parts.len() && spec_sub_collides(#[trigger] parts[i], position, target)
}

/// Overlap test of a composite: the logical OR over its members.
pub open spec fn spec_custom_collides(
    c: CustomCollider,
    position: SpecVec2,
    target: SpecBox,
) -> bool {
    spec_parts_collides(c.parts@, position, target)
}

/// Side classification of the members of a composite from index `i` on:
/// the first member reporting a side wins.
pub open spec fn spec_custom_side_from(
    parts: Seq<SubShape>,
    i: int,
    position: SpecVec2,
    target: SpecBox,
) -> Option<Cardinal>
    decreases parts.len() - i,
{
    if i < 0 || i >= parts.len() {
        None
    } else if spec_sub_side(parts[i], position, target) is Some {
        spec_sub_side(parts[i], position, target)
    } else {
        spec_custom_side_from(parts, i + 1, position, target)
    }
}

/// Side classification of a composite: the first member (in declaration
/// order) reporting an overlap determines the side; no weighting.
pub open spec fn spec_custom_side(c: CustomCollider, position: SpecVec2, target: SpecBox) -> Option<
    Cardinal,
> {
    spec_custom_side_from(c.parts@, 0, position, target)
}

/// Every member of the composite is within the geometry bound.
pub open spec fn custom_in_bounds(c: CustomCollider) -> bool {
    forall|i: int| 0 <= i < c.parts@.len() ==> sub_in_bounds(#[trigger] c.parts@[i])
}

impl Clone for CustomCollider {
    /// Duplicate the composite, member for member.
    fn clone(&self) -> (r: CustomCollider)
        ensures
            r.parts@ == self.parts@,
    {
        let n = self.parts.len();
        let mut parts: Vec<SubShape> = Vec::new();
        let mut i: usize = 0;
        while i < n
            invariant
                n == self.parts@.len(),
                0 <= i <= n,
                parts@ == self.parts@.subrange(0, i as int),
            decreases n - i,
        {
            parts.push(self.parts[i]);
            proof {
                assert(parts@ =~= self.parts@.subrange(0, i + 1));
            }
            i = i + 1;
        }
        proof {
            assert(parts@ =~= self.parts@);
        }
        CustomCollider { parts }
    }
}

impl CustomCollider {
    /// Build a composite from its members, kept in declaration order.
    pub fn new(parts: Vec<SubShape>) -> (r: CustomCollider)
        ensures
            r.parts@ == parts@,
    {
        CustomCollider { parts }
    }

    /// This shape as a variant of the closed shape union; the members are
    /// copied, the geometry is unchanged.
    pub fn as_typed_shape(&self) -> (r: crate::collider::TypedShape)
        ensures
            r matches crate::collider::TypedShape::Custom(c) && c.parts@ == self.parts@,
    {
        crate::collider::TypedShape::Custom(self.clone())
    }

    /// Overlap test: true if any member collides at its declared offset.
    pub fn collides(&self, position: Vec2i, aabb: &Box2) -> (r: bool)
        requires
            custom_in_bounds(*self),
            v2in(position@, POS_LIMIT as int),
            box_ok(aabb@),
        ensures
            r == spec_custom_collides(*self, position@, aabb@),
    {
        let n = self.parts.len();
        let mut i: usize = 0;
        while i < n
            invariant
                n == self.parts@.len(),
                0 <= i <= n,
                custom_in_bounds(*self),
                v2in(position@, POS_LIMIT as int),
                box_ok(aabb@),
                forall|j: int|
                    0 <= j < i ==> !spec_sub_collides(#[trigger] self.parts@[j], position@, aabb@),
            decreases n - i,
        {
            let part = self.parts[i];
            let sub_position = Vec2i {
                x: position.x + part.offset.x,
                y: position.y + part.offset.y,
            };
            if part.shape.collides(sub_position, aabb) {
                return true;
            }
            i = i + 1;
        }
        false
    }

    /// Side classification: the first member reporting an overlap (in
    /// declaration order) determines the side.
    pub fn get_collision_side(&self, position: Vec2i, aabb: &Box2) -> (r: Option<Cardinal>)
        requires
            custom_in_bounds(*self),
            v2in(position@, POS_LIMIT as int),
            box_ok(aabb@),
        ensures
            r == spec_custom_side(*self, position@, aabb@),
    {
        let n = self.parts.len();
        let mut i: usize = 0;
        while i < n
            invariant
                n == self.parts@.len(),
                0 <= i <= n,
                custom_in_bounds(*self),
                v2in(position@, POS_LIMIT as int),
                box_ok(aabb@),
                spec_custom_side_from(self.parts@, 0, position@, aabb@)
                    == spec_custom_side_from(self.parts@, i as int, position@, aabb@),
            decreases n - i,
        {
            let part = self.parts[i];
            let sub_position = Vec2i {
                x: position.x + part.offset.x,
                y: position.y + part.offset.y,
            };
            let side = part.shape.get_collision_side(sub_position, aabb);
            if side.is_some() {
                return side;
            }
            i = i + 1;
        }
        None
    }

    /// The world-space bounding box of the composite at `position`: the
    /// union of the members' boxes, or the degenerate box at `position`
    /// when there are no members.
    pub fn bounds(&self, position: Vec2i) -> (r: Box2)
        requires
            custom_in_bounds(*self),
            v2in(position@, POS_LIMIT as int),
        ensures
            r@ == spec_parts_bounds(self.parts@, 0, position@),
    {
        let n = self.parts.len();
        if n == 0 {
            return Box2 { min: position, max: position };
        }
        let mut i: usize = n - 1;
        let last = self.parts[i];
        let mut acc = last.shape.bounds(
            Vec2i { x: position.x + last.offset.x, y: position.y + last.offset.y },
        );
        while i > 0
            invariant
                n == self.parts@.len(),
                0 <= i < n,
                custom_in_bounds(*self),
                v2in(position@, POS_LIMIT as int),
                acc@ == spec_parts_bounds(self.parts@, i as int, position@),
            decreases i,
        {
            i = i - 1;
            let part = self.parts[i];
            let sub = part.shape.bounds(
                Vec2i { x: position.x + part.offset.x, y: position.y + part.offset.y },
            );
            acc = Box2 {
                min: Vec2i {
                    x: if sub.min.x <= acc.min.x {
                        sub.min.x
                    } else {
                        acc.min.x
                    },
                    y: if sub.min.y <= acc.min.y {
                        sub.min.y
                    } else {
                        acc.min.y
                    },
                },
                max: Vec2i {
                    x: if sub.max.x >= acc.max.x {
                        sub.max.x
                    } else {
                        acc.max.x
                    },
                    y: if sub.max.y >= acc.max.y {
                        sub.max.y
                    } else {
                        acc.max.y
                    },
                },
            };
        }
        acc
    }
}

} // verus!
