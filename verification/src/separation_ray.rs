//! A snap probe: a directional ray whose endpoint is tested strictly
//! inside a solid's box, used to snap an actor to a standoff position
//! ahead of the unit-stepping backstop.

use vstd::prelude::*;

use crate::cardinal::{spec_unit_vec, Cardinal};
use crate::ray_cast::ShapeError;
use crate::solid::{solid_in_bounds, spec_solid_box, Solid};
use crate::units::{v2add, v2in, v2scale, SpecVec2, Vec2i};
use crate::{GEOM_LIMIT, POS_LIMIT};

verus! {

/// A fixed-direction probe of a whole-unit length.
#[derive(Debug, Clone, Copy, PartialEq, Eq, Structural)]
pub struct SeparationRay {
    pub direction: Cardinal,
    pub length: i64,
}

/// Whether the probe's endpoint, cast from `position`, lies strictly
/// inside the solid's box: grazing an edge does not count.
pub open spec fn spec_separation_hit(r: SeparationRay, position: SpecVec2, s: Solid) -> bool {
    let end = v2add(position, v2scale(r.length as int, spec_unit_vec(r.direction)));
    let sb = spec_solid_box(s);
    end.x > sb.min.x && end.x < sb.max.x && end.y > sb.min.y && end.y < sb.max.y
}

impl SeparationRay {
    /// Build a snap probe. A length below one unit is a construction
    /// error, never silently clamped.
    pub fn new(direction: Cardinal, length: i64) -> (r: Result<SeparationRay, ShapeError>)
        ensures
            r is Ok <==> length >= 1,
            r matches Ok(sr) ==> sr == (SeparationRay { direction, length }),
            r matches Err(e) ==> e == ShapeError::InvalidRayLength,
    {
        if length >= 1 {
            Ok(SeparationRay { direction, length })
        } else {
            Err(ShapeError::InvalidRayLength)
        }
    }

    /// Whether the probe cast from `position` ends strictly inside the
    /// solid's box.
    pub fn collides(&self, position: Vec2i, solid: &Solid) -> (r: bool)
        requires
            0 <= self.length <= GEOM_LIMIT,
            v2in(position@, POS_LIMIT as int),
            solid_in_bounds(*solid),
        ensures
            r == spec_separation_hit(*self, position@, *solid),
    {
        let u = self.direction.as_vec2();
        let end = Vec2i {
            x: position.x + self.length * u.x,
            y: position.y + self.length * u.y,
        };
        proof {
            assert(self.length * u@.x == (self.length as int) * u@.x);
            assert(self.length * u@.y == (self.length as int) * u@.y);
            assert(-(GEOM_LIMIT as int) <= (self.length as int) * u@.x <= GEOM_LIMIT as int)
                by (nonlinear_arith)
                requires
                    0 <= self.length <= GEOM_LIMIT as int,
                    -1 <= u@.x <= 1,
            ;
            assert(-(GEOM_LIMIT as int) <= (self.length as int) * u@.y <= GEOM_LIMIT as int)
                by (nonlinear_arith)
                requires
                    0 <= self.length <= GEOM_LIMIT as int,
                    -1 <= u@.y <= 1,
            ;
        }
        let solid_box = solid.box2();
        end.x > solid_box.min.x && end.x < solid_box.max.x && end.y > solid_box.min.y && end.y
            < solid_box.max.y
    }
}

} // verus!
