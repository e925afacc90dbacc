//! Arena anchor points derived from the bounds.

use vstd::prelude::*;
use crate::fixed::FP;
use crate::fixed::in_range;
use crate::fixed::mul_fp;
use crate::fixed::mul_fp_spec;
use crate::fixed::sub_sat;
use crate::fixed::sub_sat_spec;

verus! {

/// The horizontal anchor for centered text: the arena's middle, pulled
/// 60 units left so a title sits visually centered.
pub fn get_center_x(width: i64) -> (r: i64)
    requires
        in_range(width as int),
    ensures
        r == sub_sat_spec(mul_fp_spec(width as int, 500), 60 * FP),
        in_range(r as int),
{
    sub_sat(mul_fp(width, 500), 60 * FP)
}

/// The vertical middle of the arena.
pub fn get_center_y(height: i64) -> (r: i64)
    requires
        in_range(height as int),
    ensures
        r == mul_fp_spec(height as int, 500),
        in_range(r as int),
{
    mul_fp(height, 500)
}

} // verus!
