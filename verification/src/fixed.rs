//! Fixed-point scalars and 2D vectors.
//!
//! A scalar holds a length-like quantity in milli-units: `FP` scalar steps
//! make one arena unit. Every stored scalar is kept inside
//! `[-SCALAR_LIMIT, SCALAR_LIMIT]`; the arithmetic below saturates at that
//! bound, so all operations are total and every intermediate product of two
//! in-range scalars fits an `i64`.

use vstd::prelude::*;

verus! {

/// Scalar steps per arena unit.
pub const FP: i64 = 1000;

/// Largest magnitude a stored scalar may take.
pub const SCALAR_LIMIT: i64 = 2_000_000_000;

/// A scalar that the arithmetic of this crate accepts.
pub open spec fn in_range(x: int) -> bool {
    -(SCALAR_LIMIT as int) <= x <= SCALAR_LIMIT as int
}

/// Saturation to the scalar range.
pub open spec fn clamp_spec(x: int) -> int {
    if x > SCALAR_LIMIT as int {
        SCALAR_LIMIT as int
    } else if x < -(SCALAR_LIMIT as int) {
        -(SCALAR_LIMIT as int)
    } else {
        x
    }
}

/// Division by `FP` rounding toward zero: the scaling step of a
/// fixed-point product.
pub open spec fn div_unit(x: int) -> int {
    if x >= 0 {
        x / (FP as int)
    } else {
        -((-x) / (FP as int))
    }
}

/// Saturating fixed-point product: `a * b` scaled back by `FP`.
pub open spec fn mul_fp_spec(a: int, b: int) -> int {
    clamp_spec(div_unit(a * b))
}

/// Saturating sum.
pub open spec fn add_sat_spec(a: int, b: int) -> int {
    clamp_spec(a + b)
}

/// Saturating difference.
pub open spec fn sub_sat_spec(a: int, b: int) -> int {
    clamp_spec(a - b)
}

pub fn clamp(x: i64) -> (r: i64)
    ensures
        r == clamp_spec(x as int),
        in_range(r as int),
{
    if x > SCALAR_LIMIT {
        SCALAR_LIMIT
    } else if x < -SCALAR_LIMIT {
        -SCALAR_LIMIT
    } else {
        x
    }
}

pub fn add_sat(a: i64, b: i64) -> (r: i64)
    requires
        in_range(a as int),
        in_range(b as int),
    ensures
        r == add_sat_spec(a as int, b as int),
        in_range(r as int),
{
    clamp(a + b)
}

pub fn sub_sat(a: i64, b: i64) -> (r: i64)
    requires
        in_range(a as int),
        in_range(b as int),
    ensures
        r == sub_sat_spec(a as int, b as int),
        in_range(r as int),
{
    clamp(a - b)
}

pub fn mul_fp(a: i64, b: i64) -> (r: i64)
    requires
        in_range(a as int),
        in_range(b as int),
    ensures
        r == mul_fp_spec(a as int, b as int),
        in_range(r as int),
{
    proof {
        assert((a as int) * (b as int) <= 4_000_000_000_000_000_000
            && -4_000_000_000_000_000_000 <= (a as int) * (b as int)) by (nonlinear_arith)
            requires
                in_range(a as int),
                in_range(b as int),
        ;
    }
    let p: i64 = a * b;
    let q: i64 = if p >= 0 {
        ((p as u64) / (FP as u64)) as i64
    } else {
        -((((-p) as u64) / (FP as u64)) as i64)
    };
    clamp(q)
}

/// A 2D point or vector in fixed-point scalars.
#[derive(Clone, Copy, PartialEq, Eq, Structural, Debug)]
pub struct Vec2 {
    pub x: i64,
    pub y: i64,
}

/// Both components of the vector are in scalar range.
pub open spec fn vec2_in_range(v: Vec2) -> bool {
    in_range(v.x as int) && in_range(v.y as int)
}

impl Vec2 {
    pub fn new(x: i64, y: i64) -> (r: Vec2)
        ensures
            r.x == x,
            r.y == y,
    {
        Vec2 { x, y }
    }
}

} // verus!
