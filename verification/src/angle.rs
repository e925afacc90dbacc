//! Angles and integer trigonometry.
//!
//! A rotation is held in tenth-degree steps: `TURN` steps make one full
//! turn, and a normalized rotation lies in `[0, TURN)`. Sine and cosine are
//! computed by Bhaskara's rational approximation, scaled to the fixed-point
//! unit `FP`, so a heading vector is exact integer data.

use vstd::prelude::*;
use vstd::arithmetic::div_mod::lemma_fundamental_div_mod;
use vstd::arithmetic::div_mod::lemma_fundamental_div_mod_converse;
use crate::fixed::FP;

verus! {

/// Angle steps in a full turn.
pub const TURN: i64 = 3600;

/// Angle steps in half a turn.
pub const HALF_TURN: i64 = 1800;

/// Angle steps in a quarter turn.
pub const QUARTER_TURN: i64 = 900;

/// Largest rotation delta a single call may apply.
pub const MAX_ROTATION_DELTA: i64 = 1_000_000_000;

/// The rotation is normalized.
pub open spec fn angle_ok(r: int) -> bool {
    0 <= r < TURN as int
}

/// Adding a delta to a rotation, wrapped into `[0, TURN)` by a true
/// (Euclidean) modulo, so negative deltas land in range as well.
pub open spec fn rotate_spec(r: int, d: int) -> int {
    (r + d) % (TURN as int)
}

/// Wrap an angle sum into `[0, TURN)`.
///
/// The result is the Euclidean remainder of `r + d`, never the truncating
/// one: `-100` wrapped lands at `TURN - 100`.
pub fn rotate_angle(r: i64, d: i64) -> (res: i64)
    requires
        angle_ok(r as int),
        -MAX_ROTATION_DELTA <= d <= MAX_ROTATION_DELTA,
    ensures
        res == rotate_spec(r as int, d as int),
        angle_ok(res as int),
{
    let s: i64 = r + d;
    if s >= 0 {
        let m: u64 = (s as u64) % (TURN as u64);
        m as i64
    } else {
        let t: i64 = -s;
        let m: u64 = (t as u64) % (TURN as u64);
        proof {
            let ti = t as int;
            let k = ti / (TURN as int);
            lemma_fundamental_div_mod(ti, TURN as int);
            if m == 0 {
                lemma_fundamental_div_mod_converse(s as int, TURN as int, -k, 0);
            } else {
                lemma_fundamental_div_mod_converse(
                    s as int,
                    TURN as int,
                    -k - 1,
                    TURN as int - m,
                );
            }
        }
        if m == 0 {
            0
        } else {
            TURN - (m as i64)
        }
    }
}

/// Bhaskara's sine on the first half turn, scaled by `FP`: for
/// `t` in `[0, HALF_TURN]` the value is `4 t (1800 - t) FP` over
/// `4050000 - t (1800 - t)`, which lies in `[0, FP]`.
pub open spec fn sin_half_spec(t: int) -> int {
    (4 * t * (1800 - t) * (FP as int)) / (4050000 - t * (1800 - t))
}

/// Sine of a normalized angle, scaled by `FP`: the second half turn mirrors
/// the first with opposite sign.
pub open spec fn sin_spec(t: int) -> int {
    if t <= HALF_TURN as int {
        sin_half_spec(t)
    } else {
        -sin_half_spec(t - HALF_TURN as int)
    }
}

/// Cosine of a normalized angle, scaled by `FP`: sine a quarter turn ahead.
pub open spec fn cos_spec(t: int) -> int {
    sin_spec((t + QUARTER_TURN as int) % (TURN as int))
}

proof fn lemma_sin_half_bounds(t: int)
    requires
        0 <= t <= HALF_TURN as int,
    ensures
        0 <= sin_half_spec(t) <= FP as int,
{
    let u = t * (1800 - t);
    assert(0 <= u <= 810000) by (nonlinear_arith)
        requires
            0 <= t <= 1800,
            u == t * (1800 - t),
    ;
    let num = 4 * t * (1800 - t) * (FP as int);
    let den = 4050000 - u;
    assert(num == 4000 * u) by (nonlinear_arith)
        requires
            num == 4 * t * (1800 - t) * 1000,
            u == t * (1800 - t),
    ;
    assert(den >= 3240000);
    assert(num >= 0);
    vstd::arithmetic::div_mod::lemma_div_pos_is_pos(num, den);
    assert(num <= 1000 * den);
    vstd::arithmetic::div_mod::lemma_div_is_ordered(num, 1000 * den, den);
    vstd::arithmetic::div_mod::lemma_div_multiples_vanish(1000, den);
}

/// Sine of the first half turn on execution integers.
fn sin_half(t: i64) -> (r: i64)
    requires
        0 <= t <= HALF_TURN,
    ensures
        r == sin_half_spec(t as int),
        0 <= r <= FP,
{
    let tu: u64 = t as u64;
    proof {
        assert((tu as int) * (1800 - tu as int) <= 810000) by (nonlinear_arith)
            requires
                0 <= tu <= 1800,
        ;
    }
    let u: u64 = tu * (1800 - tu);
    let num: u64 = 4000 * u;
    let den: u64 = 4050000 - u;
    proof {
        assert(num as int == 4 * (t as int) * (1800 - t as int) * (FP as int))
            by (nonlinear_arith)
            requires
                num == 4000 * u,
                u as int == (t as int) * (1800 - t as int),
                tu == t,
        ;
        lemma_sin_half_bounds(t as int);
    }
    let q: u64 = num / den;
    q as i64
}

/// Sine of a normalized angle, scaled by `FP`.
pub fn sin_fp(t: i64) -> (r: i64)
    requires
        angle_ok(t as int),
    ensures
        r == sin_spec(t as int),
        -FP <= r <= FP,
{
    if t <= HALF_TURN {
        sin_half(t)
    } else {
        proof {
            lemma_sin_half_bounds(t as int - HALF_TURN as int);
        }
        -sin_half(t - HALF_TURN)
    }
}

/// Cosine of a normalized angle, scaled by `FP`.
pub fn cos_fp(t: i64) -> (r: i64)
    requires
        angle_ok(t as int),
    ensures
        r == cos_spec(t as int),
        -FP <= r <= FP,
{
    let shifted: u64 = ((t + QUARTER_TURN) as u64) % (TURN as u64);
    sin_fp(shifted as i64)
}

/// The sine value always fits the fixed-point unit.
pub proof fn lemma_sin_bounds(t: int)
    requires
        angle_ok(t),
    ensures
        -(FP as int) <= sin_spec(t) <= FP as int,
{
    if t <= HALF_TURN as int {
        lemma_sin_half_bounds(t);
    } else {
        lemma_sin_half_bounds(t - HALF_TURN as int);
    }
}

/// The cosine value always fits the fixed-point unit.
pub proof fn lemma_cos_bounds(t: int)
    requires
        angle_ok(t),
    ensures
        -(FP as int) <= cos_spec(t) <= FP as int,
{
    let s = (t + QUARTER_TURN as int) % (TURN as int);
    vstd::arithmetic::div_mod::lemma_mod_bound(t + QUARTER_TURN as int, TURN as int);
    lemma_sin_bounds(s);
}

} // verus!
