//! Integer 2D vectors and their mathematical model.
//!
//! Executable geometry works on `Vec2i`, a pair of `i64` coordinates.
//! Specifications work on `SpecVec2`, the same point with unbounded `int`
//! coordinates, reached through the view operator `@`.

use vstd::prelude::*;

verus! {

/// A 2D vector model with unbounded integer coordinates, used in
/// specifications.
pub struct SpecVec2 {
    pub x: int,
    pub y: int,
}

/// A 2D vector of whole world units.
#[derive(Clone, Copy, Debug, PartialEq, Eq, Structural)]
pub struct Vec2i {
    pub x: i64,
    pub y: i64,
}

impl View for Vec2i {
    type V = SpecVec2;

    open spec fn view(&self) -> SpecVec2 {
        SpecVec2 { x: self.x as int, y: self.y as int }
    }
}

/// Component-wise vector sum.
pub open spec fn v2add(a: SpecVec2, b: SpecVec2) -> SpecVec2 {
    SpecVec2 { x: a.x + b.x, y: a.y + b.y }
}

/// The vector `a` scaled by the integer `c`.
pub open spec fn v2scale(c: int, a: SpecVec2) -> SpecVec2 {
    SpecVec2 { x: c * a.x, y: c * a.y }
}

/// Absolute value of an integer.
pub open spec fn spec_abs(a: int) -> int {
    if a >= 0 {
        a
    } else {
        -a
    }
}

/// Both coordinates of `v` have magnitude at most `bound`.
pub open spec fn v2in(v: SpecVec2, bound: int) -> bool {
    spec_abs(v.x) <= bound && spec_abs(v.y) <= bound
}

/// The sign of an integer: -1, 0 or 1.
pub open spec fn spec_sign(a: int) -> int {
    if a > 0 {
        1
    } else if a < 0 {
        -1
    } else {
        0
    }
}

/// Integer division truncated toward zero, as the executable `/` computes
/// it on signed integers.
pub open spec fn trunc_div(a: int, b: int) -> int {
    if a >= 0 {
        a / b
    } else {
        -((-a) / b)
    }
}

/// The remainder matching `trunc_div`: it carries the sign of `a` and has
/// magnitude below `b`.
pub open spec fn trunc_rem(a: int, b: int) -> int {
    a - b * trunc_div(a, b)
}

/// The basic algebra of truncating division: quotient and remainder
/// recompose the dividend, the remainder is smaller than the divisor and
/// carries the dividend's sign, and a dividend smaller than the divisor
/// leaves quotient zero.
pub proof fn lemma_trunc_div_facts(a: int, b: int)
    requires
        b > 0,
    ensures
        b * trunc_div(a, b) + trunc_rem(a, b) == a,
        spec_abs(trunc_rem(a, b)) < b,
        a >= 0 ==> trunc_div(a, b) >= 0 && trunc_rem(a, b) >= 0,
        a <= 0 ==> trunc_div(a, b) <= 0 && trunc_rem(a, b) <= 0,
        spec_abs(a) < b ==> trunc_div(a, b) == 0,
{
    if a >= 0 {
        vstd::arithmetic::div_mod::lemma_fundamental_div_mod(a, b);
        vstd::arithmetic::div_mod::lemma_mod_division_less_than_divisor(a, b);
        vstd::arithmetic::div_mod::lemma_div_pos_is_pos(a, b);
        if a < b {
            vstd::arithmetic::div_mod::lemma_basic_div(a, b);
        }
    } else {
        vstd::arithmetic::div_mod::lemma_fundamental_div_mod(-a, b);
        vstd::arithmetic::div_mod::lemma_mod_division_less_than_divisor(-a, b);
        vstd::arithmetic::div_mod::lemma_div_pos_is_pos(-a, b);
        if -a < b {
            vstd::arithmetic::div_mod::lemma_basic_div(-a, b);
        }
        let q = (-a) / b;
        assert(trunc_div(a, b) == -q);
        assert(b * (-q) == -(b * q)) by (nonlinear_arith);
        assert(trunc_rem(a, b) == a + b * q);
        assert((-a) - b * q == (-a) % b);
    }
}

/// Truncating division and remainder are odd functions of the dividend.
pub proof fn lemma_trunc_neg(a: int, b: int)
    requires
        b > 0,
    ensures
        trunc_div(-a, b) == -trunc_div(a, b),
        trunc_rem(-a, b) == -trunc_rem(a, b),
{
    assert(b * (-trunc_div(a, b)) == -(b * trunc_div(a, b))) by (nonlinear_arith);
}

/// Accumulating one more displacement into a truncated carry agrees with
/// truncating the whole sum, as long as carry and displacement share a
/// sign: quotients add up and the remainder is the remainder of the sum.
pub proof fn lemma_trunc_step(m: int, d: int, b: int)
    requires
        b > 0,
        (m >= 0 && d >= 0) || (m <= 0 && d <= 0),
    ensures
        trunc_div(m, b) + trunc_div(trunc_rem(m, b) + d, b) == trunc_div(m + d, b),
        trunc_rem(trunc_rem(m, b) + d, b) == trunc_rem(m + d, b),
    decreases (if m >= 0 && d >= 0 {
        0int
    } else {
        1int
    }),
{
    if m >= 0 && d >= 0 {
        lemma_trunc_div_facts(m, b);
        vstd::arithmetic::div_mod::lemma_fundamental_div_mod(m, b);
        vstd::arithmetic::div_mod::lemma_mod_division_less_than_divisor(m, b);
        let q = m / b;
        let r = m % b;
        assert(trunc_div(m, b) == q && trunc_rem(m, b) == r);
        vstd::arithmetic::div_mod::lemma_hoist_over_denominator(r + d, q, b as nat);
        assert(q * b == b * q) by (nonlinear_arith);
        assert((r + d) / b + q == (m + d) / b);
        vstd::arithmetic::div_mod::lemma_mod_multiples_vanish(q, r + d, b);
        assert((m + d) % b == (r + d) % b);
        vstd::arithmetic::div_mod::lemma_fundamental_div_mod(r + d, b);
        vstd::arithmetic::div_mod::lemma_fundamental_div_mod(m + d, b);
        assert(b * ((r + d) / b) + (r + d) % b == r + d);
        lemma_trunc_div_facts(r + d, b);
        lemma_trunc_div_facts(m + d, b);
        assert(b * (q + (r + d) / b) == b * q + b * ((r + d) / b)) by (nonlinear_arith);
    } else {
        lemma_trunc_step(-m, -d, b);
        lemma_trunc_neg(m, b);
        lemma_trunc_neg(m + d, b);
        lemma_trunc_neg(trunc_rem(m, b) + d, b);
        assert(-(trunc_rem(m, b)) + -d == -(trunc_rem(m, b) + d));
    }
}

/// A bound on the dividend bounds the truncating quotient.
pub proof fn lemma_trunc_div_mag(a: int, m: int, b: int)
    requires
        b > 0,
        spec_abs(a) <= m,
    ensures
        spec_abs(trunc_div(a, b)) <= m / b,
{
    if a >= 0 {
        vstd::arithmetic::div_mod::lemma_div_pos_is_pos(a, b);
        vstd::arithmetic::div_mod::lemma_div_is_ordered(a, m, b);
    } else {
        vstd::arithmetic::div_mod::lemma_div_pos_is_pos(-a, b);
        vstd::arithmetic::div_mod::lemma_div_is_ordered(-a, m, b);
    }
}

impl Vec2i {
    /// Build a vector from its two coordinates.
    pub fn new(x: i64, y: i64) -> (r: Vec2i)
        ensures
            r@ == (SpecVec2 { x: x as int, y: y as int }),
    {
        Vec2i { x, y }
    }

    /// The zero vector.
    pub fn zero() -> (r: Vec2i)
        ensures
            r@ == (SpecVec2 { x: 0, y: 0 }),
    {
        Vec2i { x: 0, y: 0 }
    }
}

} // verus!
