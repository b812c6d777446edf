//! Colliders: the closed shape union, the shared read-only geometry handle,
//! and the collision event emitted by the movement integrator.

use vstd::prelude::*;

use std::sync::Arc;

use crate::aabb::{aabb_in_bounds, box_ok, spec_aabb_collides, spec_aabb_side, Aabb, Box2, SpecBox};
use crate::cardinal::Cardinal;
use crate::custom_collider::{
    custom_in_bounds, spec_custom_side_from, spec_parts_collides, BasicShape, CustomCollider,
    SubShape,
};
use crate::ray_cast::{ray_in_bounds, spec_ray_collides, spec_ray_side, RayCast, ShapeError};
use crate::units::{v2in, SpecVec2, Vec2i};
use crate::POS_LIMIT;

verus! {

/// One collision found by the movement integrator: which actor hit, from
/// which direction it was moving, and the solid's box at the moment of
/// contact. Tick-scoped; consumed by external response logic.
#[derive(Debug, Clone, Copy, PartialEq, Eq, Structural)]
pub struct CollisionEvent {
    pub entity: u64,
    pub direction: Cardinal,
    pub solid: Box2,
}

/// The closed union of shape variants.
#[derive(Debug)]
pub enum TypedShape {
    Aabb(Aabb),
    Ray(RayCast),
    Custom(CustomCollider),
}

/// Overlap test of any shape variant.
pub open spec fn spec_shape_collides(s: TypedShape, position: SpecVec2, target: SpecBox) -> bool {
    match s {
        TypedShape::Aabb(a) => spec_aabb_collides(a.half_size@, position, target),
        TypedShape::Ray(r) => spec_ray_collides(r, position, target),
        TypedShape::Custom(c) => spec_parts_collides(c.parts@, position, target),
    }
}

/// Side classification of any shape variant.
pub open spec fn spec_shape_side(s: TypedShape, position: SpecVec2, target: SpecBox) -> Option<
    Cardinal,
> {
    match s {
        TypedShape::Aabb(a) => spec_aabb_side(a.half_size@, position, target),
        TypedShape::Ray(r) => spec_ray_side(r, position, target),
        TypedShape::Custom(c) => spec_custom_side_from(c.parts@, 0, position, target),
    }
}

/// The world-space bounding box of any shape variant at `position`.
pub open spec fn spec_shape_bounds(s: TypedShape, position: SpecVec2) -> SpecBox {
    match s {
        TypedShape::Aabb(a) => crate::aabb::spec_aabb_at(a.half_size@, position),
        TypedShape::Ray(r) => crate::ray_cast::spec_segment_box(
            position,
            r.direction,
            r.length as int,
        ),
        TypedShape::Custom(c) => crate::custom_collider::spec_parts_bounds(c.parts@, 0, position),
    }
}

/// The shape's parameters are within the geometry bound.
pub open spec fn shape_in_bounds(s: TypedShape) -> bool {
    match s {
        TypedShape::Aabb(a) => aabb_in_bounds(a),
        TypedShape::Ray(r) => ray_in_bounds(r),
        TypedShape::Custom(c) => custom_in_bounds(c),
    }
}

/// Two shapes describe the same geometry, member for member.
pub open spec fn spec_shape_eq(a: TypedShape, b: TypedShape) -> bool {
    match (a, b) {
        (TypedShape::Aabb(x), TypedShape::Aabb(y)) => x == y,
        (TypedShape::Ray(x), TypedShape::Ray(y)) => x == y,
        (TypedShape::Custom(x), TypedShape::Custom(y)) => x.parts@ == y.parts@,
        _ => false,
    }
}

impl Clone for TypedShape {
    /// Duplicate the shape; composites are copied member for member.
    fn clone(&self) -> (r: TypedShape)
        ensures
            spec_shape_eq(r, *self),
    {
        match self {
            TypedShape::Aabb(a) => TypedShape::Aabb(*a),
            TypedShape::Ray(rc) => TypedShape::Ray(*rc),
            TypedShape::Custom(c) => TypedShape::Custom(c.clone()),
        }
    }
}

impl TypedShape {
    /// Overlap test of this shape at `position` against `aabb`.
    pub fn collides(&self, position: Vec2i, aabb: &Box2) -> (r: bool)
        requires
            shape_in_bounds(*self),
            v2in(position@, POS_LIMIT as int),
            box_ok(aabb@),
        ensures
            r == spec_shape_collides(*self, position@, aabb@),
    {
        match self {
            TypedShape::Aabb(a) => a.collides(position, aabb),
            TypedShape::Ray(rc) => rc.collides(position, aabb),
            TypedShape::Custom(c) => c.collides(position, aabb),
        }
    }

    /// Side classification of this shape at `position` against `aabb`.
    pub fn get_collision_side(&self, position: Vec2i, aabb: &Box2) -> (r: Option<Cardinal>)
        requires
            shape_in_bounds(*self),
            v2in(position@, POS_LIMIT as int),
            box_ok(aabb@),
        ensures
            r == spec_shape_side(*self, position@, aabb@),
    {
        match self {
            TypedShape::Aabb(a) => a.get_collision_side(position, aabb),
            TypedShape::Ray(rc) => rc.get_collision_side(position, aabb),
            TypedShape::Custom(c) => c.get_collision_side(position, aabb),
        }
    }

    /// The world-space bounding box of this shape at `position`.
    pub fn bounds(&self, position: Vec2i) -> (r: Box2)
        requires
            shape_in_bounds(*self),
            v2in(position@, POS_LIMIT as int),
        ensures
            r@ == spec_shape_bounds(*self, position@),
    {
        match self {
            TypedShape::Aabb(a) => a.aabb(position),
            TypedShape::Ray(rc) => BasicShape::Ray(*rc).bounds(position),
            TypedShape::Custom(c) => c.bounds(position),
        }
    }
}

/// Relies on `Arc::clone`: the result is a new handle to the same
/// allocation, so it carries the very same shape value; the geometry is
/// never duplicated.
#[verifier::external_body]
fn arc_clone_shape(a: &Arc<TypedShape>) -> (r: Arc<TypedShape>)
    ensures
        r == *a,
{
    Arc::clone(a)
}

/// An immutable, reference-counted geometry handle: many colliders may
/// share one shape instance, and cloning duplicates the reference, never
/// the geometry.
#[derive(Debug)]
pub struct SharedShape(pub Arc<TypedShape>);

impl SharedShape {
    /// The shape this handle points at.
    pub open spec fn spec_shape(&self) -> TypedShape {
        *self.0
    }

    /// Wrap a shape in a shared, read-only handle.
    pub fn new(shape: TypedShape) -> (r: SharedShape)
        ensures
            r.spec_shape() == shape,
    {
        SharedShape(Arc::new(shape))
    }

    /// A shared AABB shape with the given half-extent.
    pub fn aabb(half_size: Vec2i) -> (r: SharedShape)
        ensures
            r.spec_shape() == TypedShape::Aabb(Aabb { half_size }),
    {
        SharedShape::new(TypedShape::Aabb(Aabb::new(half_size)))
    }

    /// A shared ray probe; a length below one unit is a construction error.
    pub fn ray_cast(direction: Cardinal, length: i64) -> (r: Result<SharedShape, ShapeError>)
        ensures
            r is Ok <==> length >= 1,
            r matches Ok(s) ==> s.spec_shape() == TypedShape::Ray(RayCast { direction, length }),
            r matches Err(e) ==> e == ShapeError::InvalidRayLength,
    {
        match RayCast::new(direction, length) {
            Ok(rc) => Ok(SharedShape::new(TypedShape::Ray(rc))),
            Err(e) => Err(e),
        }
    }

    /// A shared composite shape with the given members.
    pub fn custom(parts: Vec<SubShape>) -> (r: SharedShape)
        ensures
            r.spec_shape() matches TypedShape::Custom(c) && c.parts@ == parts@,
    {
        SharedShape::new(TypedShape::Custom(CustomCollider::new(parts)))
    }

    /// Overlap test of the shared shape at `position` against `aabb`.
    pub fn collides(&self, position: Vec2i, aabb: &Box2) -> (r: bool)
        requires
            shape_in_bounds(self.spec_shape()),
            v2in(position@, POS_LIMIT as int),
            box_ok(aabb@),
        ensures
            r == spec_shape_collides(self.spec_shape(), position@, aabb@),
    {
        (&*self.0).collides(position, aabb)
    }

    /// Side classification of the shared shape at `position` against `aabb`.
    pub fn get_collision_side(&self, position: Vec2i, aabb: &Box2) -> (r: Option<Cardinal>)
        requires
            shape_in_bounds(self.spec_shape()),
            v2in(position@, POS_LIMIT as int),
            box_ok(aabb@),
        ensures
            r == spec_shape_side(self.spec_shape(), position@, aabb@),
    {
        (&*self.0).get_collision_side(position, aabb)
    }
}

impl Clone for SharedShape {
    /// Duplicate the handle: both handles point at the very same shape.
    fn clone(&self) -> (r: SharedShape)
        ensures
            r == *self,
    {
        SharedShape(arc_clone_shape(&self.0))
    }
}

/// The collision component: a shared shape handle. The entity's current
/// position is supplied externally on every query.
#[derive(Debug)]
pub struct Collider(pub SharedShape);

impl Collider {
    /// The geometry this collider queries with.
    pub open spec fn spec_shape(&self) -> TypedShape {
        self.0.spec_shape()
    }

    /// Wrap a shared shape handle as a collider.
    pub fn new(shape: SharedShape) -> (r: Collider)
        ensures
            r.spec_shape() == shape.spec_shape(),
    {
        Collider(shape)
    }

    /// A collider with a fresh AABB shape.
    pub fn aabb(half_size: Vec2i) -> (r: Collider)
        ensures
            r.spec_shape() == TypedShape::Aabb(Aabb { half_size }),
    {
        Collider::new(SharedShape::aabb(half_size))
    }

    /// A collider with a fresh ray probe; a length below one unit is a
    /// construction error.
    pub fn ray_cast(direction: Cardinal, length: i64) -> (r: Result<Collider, ShapeError>)
        ensures
            r is Ok <==> length >= 1,
            r matches Ok(c) ==> c.spec_shape() == TypedShape::Ray(RayCast { direction, length }),
            r matches Err(e) ==> e == ShapeError::InvalidRayLength,
    {
        match SharedShape::ray_cast(direction, length) {
            Ok(s) => Ok(Collider::new(s)),
            Err(e) => Err(e),
        }
    }

    /// A collider with a fresh composite shape.
    pub fn custom(parts: Vec<SubShape>) -> (r: Collider)
        ensures
            r.spec_shape() matches TypedShape::Custom(c) && c.parts@ == parts@,
    {
        Collider::new(SharedShape::custom(parts))
    }

    /// Overlap test of this collider at `position` against `aabb`.
    pub fn collides(&self, position: Vec2i, aabb: &Box2) -> (r: bool)
        requires
            shape_in_bounds(self.spec_shape()),
            v2in(position@, POS_LIMIT as int),
            box_ok(aabb@),
        ensures
            r == spec_shape_collides(self.spec_shape(), position@, aabb@),
    {
        self.0.collides(position, aabb)
    }

    /// Side classification of this collider at `position` against `aabb`.
    pub fn get_collision_side(&self, position: Vec2i, aabb: &Box2) -> (r: Option<Cardinal>)
        requires
            shape_in_bounds(self.spec_shape()),
            v2in(position@, POS_LIMIT as int),
            box_ok(aabb@),
        ensures
            r == spec_shape_side(self.spec_shape(), position@, aabb@),
    {
        self.0.get_collision_side(position, aabb)
    }

    /// The world-space bounding box of this collider's shape at `position`.
    pub fn bounds(&self, position: Vec2i) -> (r: Box2)
        requires
            shape_in_bounds(self.spec_shape()),
            v2in(position@, POS_LIMIT as int),
        ensures
            r@ == spec_shape_bounds(self.spec_shape(), position@),
    {
        (&*self.0.0).bounds(position)
    }
}

impl Clone for Collider {
    /// Duplicate the collider by duplicating its shape handle.
    fn clone(&self) -> (r: Collider)
        ensures
            r == *self,
    {
        Collider(self.0.clone())
    }
}

impl Default for Collider {
    /// A collider with a one-unit-half-extent AABB shape.
    fn default() -> (r: Collider)
        ensures
            r.spec_shape() == TypedShape::Aabb(Aabb { half_size: Vec2i { x: 1, y: 1 } }),
    {
        Collider::aabb(Vec2i::new(1, 1))
    }
}

/// Collision results depend on geometry alone: two shapes that describe
/// the same geometry — whether they share one handle or were constructed
/// independently — give identical overlap and side answers at every
/// position and against every target box.
pub proof fn lemma_shared_geometry_independence(
    a: TypedShape,
    b: TypedShape,
    position: SpecVec2,
    target: SpecBox,
)
    requires
        spec_shape_eq(a, b),
    ensures
        spec_shape_collides(a, position, target) == spec_shape_collides(b, position, target),
        spec_shape_side(a, position, target) == spec_shape_side(b, position, target),
{
}

} // verus!
