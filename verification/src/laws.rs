//! The simulation's stated guarantees, proved over the same spec
//! functions the executable contracts use.

use vstd::prelude::*;
use vstd::arithmetic::div_mod::lemma_div_is_ordered;
use vstd::arithmetic::div_mod::lemma_div_multiples_vanish;
use vstd::arithmetic::div_mod::lemma_div_pos_is_pos;
use vstd::arithmetic::div_mod::lemma_mod_bound;
use crate::fixed::FP;
use crate::fixed::SCALAR_LIMIT;
use crate::fixed::div_unit;
use crate::fixed::in_range;
use crate::fixed::mul_fp_spec;
use crate::angle::TURN;
use crate::angle::rotate_spec;
use crate::body::Body;
use crate::body::body_wf;
use crate::body::bound_ok;
use crate::body::integrate_spec;
use crate::body::outside_arena;
use crate::body::update_spec;

verus! {

/// Whatever delta is added to whatever starting rotation, the wrapped
/// result lies in `[0, TURN)`.
pub proof fn lemma_rotation_normalized(r: int, d: int)
    ensures
        0 <= rotate_spec(r, d) < TURN as int,
{
    lemma_mod_bound(r + d, TURN as int);
}

/// The wrap policy teleports: a coordinate past the bound after
/// integration lands at 0, one below 0 lands at the bound, and one inside
/// the bounds stays where integration put it.
pub proof fn lemma_wrap_policy(b: Body, dt: int, w: int, h: int)
    requires
        b.screen_edge_behavior is Wrap,
        bound_ok(w),
        bound_ok(h),
    ensures
        integrate_spec(b, dt).position.x > w ==> update_spec(b, dt, w, h).position.x == 0,
        integrate_spec(b, dt).position.x < 0 ==> update_spec(b, dt, w, h).position.x == w,
        integrate_spec(b, dt).position.y > h ==> update_spec(b, dt, w, h).position.y == 0,
        integrate_spec(b, dt).position.y < 0 ==> update_spec(b, dt, w, h).position.y == h,
        0 <= integrate_spec(b, dt).position.x <= w ==> update_spec(b, dt, w, h).position.x
            == integrate_spec(b, dt).position.x,
        0 <= integrate_spec(b, dt).position.y <= h ==> update_spec(b, dt, w, h).position.y
            == integrate_spec(b, dt).position.y,
{
}

/// The destroy policy latches exactly on leaving the arena: after an
/// update the flag is set if and only if it already was or the integrated
/// position lies outside `[0, w] x [0, h]`; a body that stays inside is
/// never flagged, and the position is not clamped.
pub proof fn lemma_destroy_policy(b: Body, dt: int, w: int, h: int)
    requires
        b.screen_edge_behavior is Destroy,
    ensures
        update_spec(b, dt, w, h).destroyed == (b.destroyed || outside_arena(
            integrate_spec(b, dt).position,
            w,
            h,
        )),
        update_spec(b, dt, w, h).position == integrate_spec(b, dt).position,
        !b.destroyed && !outside_arena(integrate_spec(b, dt).position, w, h) ==> !update_spec(
            b,
            dt,
            w,
            h,
        ).destroyed,
{
}

/// Damping by a drag coefficient never saturates: the fixed-point product
/// of a coefficient in `[0, FP]` with an in-range scalar is the plain
/// scaled product.
pub proof fn lemma_drag_never_saturates(c: int, v: int)
    requires
        0 <= c <= FP as int,
        in_range(v),
    ensures
        mul_fp_spec(c, v) == div_unit(c * v),
        in_range(div_unit(c * v)),
{
    let lim = SCALAR_LIMIT as int;
    if v >= 0 {
        assert(0 <= c * v <= 1000 * lim) by (nonlinear_arith)
            requires
                0 <= c <= 1000,
                0 <= v <= lim,
        ;
        lemma_div_pos_is_pos(c * v, 1000);
        lemma_div_is_ordered(c * v, 1000 * lim, 1000);
        lemma_div_multiples_vanish(lim, 1000);
    } else {
        assert(0 <= c * (-v) <= 1000 * lim) by (nonlinear_arith)
            requires
                0 <= c <= 1000,
                0 < -v <= lim,
        ;
        assert(-(c * v) == c * (-v)) by (nonlinear_arith);
        lemma_div_pos_is_pos(c * (-v), 1000);
        lemma_div_is_ordered(c * (-v), 1000 * lim, 1000);
        lemma_div_multiples_vanish(lim, 1000);
    }
}

/// Drag is an exact per-update multiplicative decay: after one update
/// with zero acceleration, the new velocity is exactly the drag
/// coefficient times the old one, scaled by the fixed-point unit. The
/// bounce policy is left aside here, since it additionally flips a
/// component's sign when the body leaves the arena;
/// `lemma_drag_exact_bounce` states that case.
pub proof fn lemma_drag_exact(b: Body, dt: int, w: int, h: int)
    requires
        body_wf(b),
        b.acceleration.x == 0,
        b.acceleration.y == 0,
        !(b.screen_edge_behavior is Bounce),
    ensures
        update_spec(b, dt, w, h).velocity.x == mul_fp_spec(
            b.drag_coefficient as int,
            b.velocity.x as int,
        ),
        update_spec(b, dt, w, h).velocity.y == mul_fp_spec(
            b.drag_coefficient as int,
            b.velocity.y as int,
        ),
        update_spec(b, dt, w, h).velocity.x == div_unit(
            b.drag_coefficient as int * b.velocity.x as int,
        ),
        update_spec(b, dt, w, h).velocity.y == div_unit(
            b.drag_coefficient as int * b.velocity.y as int,
        ),
{
    lemma_drag_never_saturates(b.drag_coefficient as int, b.velocity.x as int);
    lemma_drag_never_saturates(b.drag_coefficient as int, b.velocity.y as int);
}

/// On a bounce body the same damping holds, except that a component's
/// sign flips exactly when its integrated coordinate left the arena:
/// after one update with zero acceleration, each velocity component is
/// the drag coefficient times the old one, negated on a crossed bound.
pub proof fn lemma_drag_exact_bounce(b: Body, dt: int, w: int, h: int)
    requires
        body_wf(b),
        b.acceleration.x == 0,
        b.acceleration.y == 0,
        b.screen_edge_behavior is Bounce,
    ensures
        update_spec(b, dt, w, h).velocity.x as int == (if integrate_spec(b, dt).position.x > w
            || (integrate_spec(b, dt).position.x as int) < 0 {
            -mul_fp_spec(b.drag_coefficient as int, b.velocity.x as int)
        } else {
            mul_fp_spec(b.drag_coefficient as int, b.velocity.x as int)
        }),
        update_spec(b, dt, w, h).velocity.y as int == (if integrate_spec(b, dt).position.y > h
            || (integrate_spec(b, dt).position.y as int) < 0 {
            -mul_fp_spec(b.drag_coefficient as int, b.velocity.y as int)
        } else {
            mul_fp_spec(b.drag_coefficient as int, b.velocity.y as int)
        }),
{
    lemma_drag_never_saturates(b.drag_coefficient as int, b.velocity.x as int);
    lemma_drag_never_saturates(b.drag_coefficient as int, b.velocity.y as int);
}

} // verus!
