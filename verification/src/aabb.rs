//! Axis-aligned boxes: the world-space box type and the AABB shape variant.

use vstd::prelude::*;

use crate::cardinal::Cardinal;
use crate::units::{spec_abs, v2in, SpecVec2, Vec2i};
use crate::{GEOM_LIMIT, POS_LIMIT};

verus! {

/// A world-space axis-aligned box model with unbounded coordinates.
pub struct SpecBox {
    pub min: SpecVec2,
    pub max: SpecVec2,
}

/// A world-space axis-aligned box, given by its two corners.
#[derive(Clone, Copy, Debug, PartialEq, Eq, Structural)]
pub struct Box2 {
    pub min: Vec2i,
    pub max: Vec2i,
}

impl View for Box2 {
    type V = SpecBox;

    open spec fn view(&self) -> SpecBox {
        SpecBox { min: self.min@, max: self.max@ }
    }
}

/// Both corners of `b` have coordinates of magnitude at most
/// `2 * GEOM_LIMIT`, which holds of every box built from in-bound geometry.
pub open spec fn box_ok(b: SpecBox) -> bool {
    v2in(b.min, 2 * GEOM_LIMIT) && v2in(b.max, 2 * GEOM_LIMIT)
}

/// Closed-box intersection: the boxes share at least one point, edge
/// contact included.
pub open spec fn boxes_intersect(a: SpecBox, b: SpecBox) -> bool {
    a.min.x <= b.max.x && a.max.x >= b.min.x && a.min.y <= b.max.y && a.max.y >= b.min.y
}

/// The box `b` eroded by `amount` units on every side.
pub open spec fn spec_shrink(b: SpecBox, amount: int) -> SpecBox {
    SpecBox {
        min: SpecVec2 { x: b.min.x + amount, y: b.min.y + amount },
        max: SpecVec2 { x: b.max.x - amount, y: b.max.y - amount },
    }
}

/// The point of `b` closest to `p`: each coordinate of `p` clamped to the
/// box's range.
pub open spec fn spec_closest_point(b: SpecBox, p: SpecVec2) -> SpecVec2 {
    SpecVec2 {
        x: if p.x < b.min.x {
            b.min.x
        } else if p.x > b.max.x {
            b.max.x
        } else {
            p.x
        },
        y: if p.y < b.min.y {
            b.min.y
        } else if p.y > b.max.y {
            b.max.y
        } else {
            p.y
        },
    }
}

/// The smallest box containing both `a` and `b`.
pub open spec fn spec_box_union(a: SpecBox, b: SpecBox) -> SpecBox {
    SpecBox {
        min: SpecVec2 {
            x: if a.min.x <= b.min.x {
                a.min.x
            } else {
                b.min.x
            },
            y: if a.min.y <= b.min.y {
                a.min.y
            } else {
                b.min.y
            },
        },
        max: SpecVec2 {
            x: if a.max.x >= b.max.x {
                a.max.x
            } else {
                b.max.x
            },
            y: if a.max.y >= b.max.y {
                a.max.y
            } else {
                b.max.y
            },
        },
    }
}

/// The box of half-extent `half` centred at `position`.
pub open spec fn spec_aabb_at(half: SpecVec2, position: SpecVec2) -> SpecBox {
    SpecBox {
        min: SpecVec2 { x: position.x - half.x, y: position.y - half.y },
        max: SpecVec2 { x: position.x + half.x, y: position.y + half.y },
    }
}

/// Which face of `target` a probe at `position` is taken to have hit,
/// from the offset between `position` and the closest point of the box:
/// the vertical axis wins only when its offset magnitude is strictly
/// larger, and a non-negative horizontal offset resolves East. This
/// exact ordering keeps resolution deterministic and reproducible.
pub open spec fn spec_box_side(position: SpecVec2, target: SpecBox) -> Cardinal {
    let offset = {
        let c = spec_closest_point(target, position);
        SpecVec2 { x: c.x - position.x, y: c.y - position.y }
    };
    if spec_abs(offset.y) > spec_abs(offset.x) {
        if offset.y > 0 {
            Cardinal::North
        } else {
            Cardinal::South
        }
    } else if offset.x < 0 {
        Cardinal::West
    } else {
        Cardinal::East
    }
}

/// Overlap test of an AABB of half-extent `half` at `position` against
/// `target` eroded by one unit: boxes that merely touch do not collide.
pub open spec fn spec_aabb_collides(half: SpecVec2, position: SpecVec2, target: SpecBox) -> bool {
    boxes_intersect(spec_aabb_at(half, position), spec_shrink(target, 1))
}

/// Side classification of an AABB of half-extent `half` at `position`
/// against the full (uneroded) `target`: `None` when they do not touch.
pub open spec fn spec_aabb_side(half: SpecVec2, position: SpecVec2, target: SpecBox) -> Option<
    Cardinal,
> {
    if !boxes_intersect(spec_aabb_at(half, position), target) {
        None
    } else {
        Some(spec_box_side(position, target))
    }
}

/// The axis-aligned box shape: a half-extent vector, independent of any
/// position.
#[derive(Debug, Clone, Copy, PartialEq, Eq, Structural)]
pub struct Aabb {
    pub half_size: Vec2i,
}

/// The shape's own parameters are within the geometry bound.
pub open spec fn aabb_in_bounds(a: Aabb) -> bool {
    v2in(a.half_size@, GEOM_LIMIT as int)
}

impl Aabb {
    /// Build an AABB shape from its half-extent vector.
    pub fn new(half_size: Vec2i) -> (r: Aabb)
        ensures
            r == (Aabb { half_size }),
    {
        Aabb { half_size }
    }

    /// This shape as a variant of the closed shape union.
    pub fn as_typed_shape(&self) -> (r: crate::collider::TypedShape)
        ensures
            r == crate::collider::TypedShape::Aabb(*self),
    {
        crate::collider::TypedShape::Aabb(*self)
    }

    /// The world-space box of this shape placed at `position`.
    pub fn aabb(&self, position: Vec2i) -> (r: Box2)
        requires
            aabb_in_bounds(*self),
            v2in(position@, POS_LIMIT + GEOM_LIMIT),
        ensures
            r@ == spec_aabb_at(self.half_size@, position@),
    {
        Box2 {
            min: Vec2i { x: position.x - self.half_size.x, y: position.y - self.half_size.y },
            max: Vec2i { x: position.x + self.half_size.x, y: position.y + self.half_size.y },
        }
    }

    /// Overlap test against `aabb` eroded by one unit on each axis, so a
    /// resting contact along an edge does not count as a collision.
    pub fn collides(&self, position: Vec2i, aabb: &Box2) -> (r: bool)
        requires
            aabb_in_bounds(*self),
            v2in(position@, POS_LIMIT + GEOM_LIMIT),
            box_ok(aabb@),
        ensures
            r == spec_aabb_collides(self.half_size@, position@, aabb@),
    {
        let own = self.aabb(position);
        own.min.x <= aabb.max.x - 1 && own.max.x >= aabb.min.x + 1 && own.min.y <= aabb.max.y - 1
            && own.max.y >= aabb.min.y + 1
    }

    /// The face of `aabb` hit by this shape at `position`, or `None` when
    /// the two boxes do not even touch. The vertical-dominant offset test
    /// fixes the answer deterministically.
    pub fn get_collision_side(&self, position: Vec2i, aabb: &Box2) -> (r: Option<Cardinal>)
        requires
            aabb_in_bounds(*self),
            v2in(position@, POS_LIMIT + GEOM_LIMIT),
            box_ok(aabb@),
        ensures
            r == spec_aabb_side(self.half_size@, position@, aabb@),
    {
        let own = self.aabb(position);
        if !(own.min.x <= aabb.max.x && own.max.x >= aabb.min.x && own.min.y <= aabb.max.y
            && own.max.y >= aabb.min.y) {
            return None;
        }
        let cx = if position.x < aabb.min.x {
            aabb.min.x
        } else if position.x > aabb.max.x {
            aabb.max.x
        } else {
            position.x
        };
        let cy = if position.y < aabb.min.y {
            aabb.min.y
        } else if position.y > aabb.max.y {
            aabb.max.y
        } else {
            position.y
        };
        let off_x = cx - position.x;
        let off_y = cy - position.y;
        let abs_x = if off_x >= 0 {
            off_x
        } else {
            -off_x
        };
        let abs_y = if off_y >= 0 {
            off_y
        } else {
            -off_y
        };
        Some(
            if abs_y > abs_x {
                if off_y > 0 {
                    Cardinal::North
                } else {
                    Cardinal::South
                }
            } else if off_x < 0 {
                Cardinal::West
            } else {
                Cardinal::East
            },
        )
    }
}

} // verus!
