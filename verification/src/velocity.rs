//! Velocity with a fixed-point remainder accumulator.

use vstd::prelude::*;

use crate::units::{spec_abs, spec_sign, v2in, SpecVec2, Vec2i};
use crate::{SUBUNITS, VEL_LIMIT};

verus! {

/// An actor's velocity: the target speed in subunits per second, and the
/// per-axis sub-unit carry that persists across ticks.
#[derive(Debug, Clone, Copy, PartialEq, Eq, Structural)]
pub struct Velocity {
    pub value: Vec2i,
    pub remainder: Vec2i,
}

/// The remainder invariant: strictly below one unit in magnitude on each
/// axis. The integrator re-establishes this after every tick.
pub open spec fn remainder_ok(v: Velocity) -> bool {
    spec_abs(v.remainder@.x) < SUBUNITS && spec_abs(v.remainder@.y) < SUBUNITS
}

/// The speed is within the bound the integrator accepts.
pub open spec fn velocity_in_bounds(v: Velocity) -> bool {
    v2in(v.value@, VEL_LIMIT as int)
}

impl Velocity {
    /// Build a velocity from its target speed, with an empty carry.
    pub fn new(value: Vec2i) -> (r: Velocity)
        ensures
            r == (Velocity { value, remainder: Vec2i { x: 0, y: 0 } }),
    {
        Velocity { value, remainder: Vec2i { x: 0, y: 0 } }
    }

    /// The per-axis sign of the target speed: -1, 0 or 1 on each axis.
    pub fn get_direction(&self) -> (r: Vec2i)
        ensures
            r@.x == spec_sign(self.value@.x),
            r@.y == spec_sign(self.value@.y),
    {
        let x: i64 = if self.value.x > 0 {
            1
        } else if self.value.x < 0 {
            -1
        } else {
            0
        };
        let y: i64 = if self.value.y > 0 {
            1
        } else if self.value.y < 0 {
            -1
        } else {
            0
        };
        Vec2i { x, y }
    }

    /// Zero the horizontal speed and its carry; the vertical axis is
    /// untouched.
    pub fn reset_x(&mut self)
        ensures
            final(self).value@ == (SpecVec2 { x: 0, y: old(self).value@.y }),
            final(self).remainder@ == (SpecVec2 { x: 0, y: old(self).remainder@.y }),
    {
        self.value.x = 0;
        self.remainder.x = 0;
    }

    /// Zero the vertical speed and its carry; the horizontal axis is
    /// untouched.
    pub fn reset_y(&mut self)
        ensures
            final(self).value@ == (SpecVec2 { x: old(self).value@.x, y: 0 }),
            final(self).remainder@ == (SpecVec2 { x: old(self).remainder@.x, y: 0 }),
    {
        self.value.y = 0;
        self.remainder.y = 0;
    }
}

impl Default for Velocity {
    /// A velocity at rest, with an empty carry.
    fn default() -> (r: Velocity)
        ensures
            r == (Velocity {
                value: Vec2i { x: 0, y: 0 },
                remainder: Vec2i { x: 0, y: 0 },
            }),
    {
        Velocity::new(Vec2i::zero())
    }
}

} // verus!
