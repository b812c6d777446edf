//! The four axis-aligned directions.

use vstd::prelude::*;

use crate::units::{SpecVec2, Vec2i};

verus! {

/// One of the four axis-aligned unit directions.
#[derive(Debug, Copy, Clone, PartialEq, Eq, Structural)]
pub enum Cardinal {
    West,
    North,
    East,
    South,
}

/// The unit vector of a cardinal direction, as a spec-level point.
pub open spec fn spec_unit_vec(c: Cardinal) -> SpecVec2 {
    match c {
        Cardinal::West => SpecVec2 { x: -1, y: 0 },
        Cardinal::North => SpecVec2 { x: 0, y: 1 },
        Cardinal::East => SpecVec2 { x: 1, y: 0 },
        Cardinal::South => SpecVec2 { x: 0, y: -1 },
    }
}

/// The cardinal direction of a vector, if it lies on one axis:
/// horizontal movement wins over vertical, and the zero vector has none.
pub open spec fn spec_cardinal_of(v: SpecVec2) -> Option<Cardinal> {
    if v.x < 0 {
        Some(Cardinal::West)
    } else if v.x > 0 {
        Some(Cardinal::East)
    } else if v.y > 0 {
        Some(Cardinal::North)
    } else if v.y < 0 {
        Some(Cardinal::South)
    } else {
        None
    }
}

impl Cardinal {
    /// The unit vector pointing in this direction.
    pub fn as_vec2(&self) -> (r: Vec2i)
        ensures
            r@ == spec_unit_vec(*self),
    {
        match self {
            Cardinal::West => Vec2i { x: -1, y: 0 },
            Cardinal::North => Vec2i { x: 0, y: 1 },
            Cardinal::East => Vec2i { x: 1, y: 0 },
            Cardinal::South => Vec2i { x: 0, y: -1 },
        }
    }

    /// The horizontal component of the unit vector.
    pub fn x(&self) -> (r: i64)
        ensures
            r == spec_unit_vec(*self).x,
    {
        match self {
            Cardinal::West => -1,
            Cardinal::North => 0,
            Cardinal::East => 1,
            Cardinal::South => 0,
        }
    }

    /// The vertical component of the unit vector.
    pub fn y(&self) -> (r: i64)
        ensures
            r == spec_unit_vec(*self).y,
    {
        match self {
            Cardinal::West => 0,
            Cardinal::North => 1,
            Cardinal::East => 0,
            Cardinal::South => -1,
        }
    }

    /// Whether this direction lies on the horizontal axis.
    #[allow(non_snake_case)]
    pub fn isHorizontal(&self) -> (r: bool)
        ensures
            r == (*self == Cardinal::West || *self == Cardinal::East),
    {
        *self == Cardinal::West || *self == Cardinal::East
    }

    /// Whether this direction lies on the vertical axis.
    #[allow(non_snake_case)]
    pub fn isVertical(&self) -> (r: bool)
        ensures
            r == (*self == Cardinal::North || *self == Cardinal::South),
    {
        *self == Cardinal::North || *self == Cardinal::South
    }

    /// Classify a vector as a cardinal direction; the zero vector is
    /// rejected. A vector with a nonzero horizontal component classifies as
    /// West or East regardless of its vertical component.
    pub fn from_vec2(vec: Vec2i) -> (r: Result<Cardinal, ()>)
        ensures
            r matches Ok(c) ==> spec_cardinal_of(vec@) == Some(c),
            r is Err <==> vec@ == (SpecVec2 { x: 0, y: 0 }),
    {
        if vec.x < 0 {
            Ok(Cardinal::West)
        } else if vec.x > 0 {
            Ok(Cardinal::East)
        } else if vec.y > 0 {
            Ok(Cardinal::North)
        } else if vec.y < 0 {
            Ok(Cardinal::South)
        } else {
            Err(())
        }
    }
}

} // verus!
