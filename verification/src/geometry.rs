//! Integer plane vectors and the scalar helpers the physics core builds on.

use vstd::prelude::*;

verus! {

/// A point, size or displacement in the plane, in integer world units.
///
/// A position names the center of an entity; a size holds its full width and
/// height.
#[derive(Clone, Copy, Debug, PartialEq, Eq, Structural)]
pub struct Vec2i {
    pub x: i32,
    pub y: i32,
}

impl Vec2i {
    pub fn new(x: i32, y: i32) -> (v: Vec2i)
        ensures
            v == (Vec2i { x, y }),
    {
        Vec2i { x, y }
    }
}

/// `v` limited to the closed interval `[lo, hi]`.
pub open spec fn clamp(v: int, lo: int, hi: int) -> int {
    if v < lo {
        lo
    } else if v > hi {
        hi
    } else {
        v
    }
}

/// Quotient of `a` by `b` rounded toward zero, the direction in which the
/// integrator truncates sub-unit motion.
pub open spec fn div_trunc(a: int, b: int) -> int
    recommends
        b > 0,
{
    if a >= 0 {
        a / b
    } else {
        -((-a) / b)
    }
}

/// Truncating division on machine integers.
pub fn div_trunc_i64(a: i64, b: i64) -> (r: i64)
    requires
        b > 0,
        a != i64::MIN,
    ensures
        r == div_trunc(a as int, b as int),
{
    if a >= 0 {
        let q: u64 = (a as u64) / (b as u64);
        proof {
            vstd::arithmetic::div_mod::lemma_div_nonincreasing(a as int, b as int);
            vstd::arithmetic::div_mod::lemma_div_pos_is_pos(a as int, b as int);
        }
        q as i64
    } else {
        let m: i64 = -a;
        let q: u64 = (m as u64) / (b as u64);
        proof {
            vstd::arithmetic::div_mod::lemma_div_nonincreasing(m as int, b as int);
            vstd::arithmetic::div_mod::lemma_div_pos_is_pos(m as int, b as int);
        }
        -(q as i64)
    }
}

/// `v` limited to `[lo, hi]`, on machine integers.
pub fn clamp_i64(v: i64, lo: i64, hi: i64) -> (r: i64)
    requires
        lo <= hi,
    ensures
        r == clamp(v as int, lo as int, hi as int),
{
    if v < lo {
        lo
    } else if v > hi {
        hi
    } else {
        v
    }
}

} // verus!
