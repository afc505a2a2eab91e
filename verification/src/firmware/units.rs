//! Integer helpers shared by the modules: division rounded toward zero,
//! absolute values and saturation. In the calibration a quantity `q` stands
//! for `q / 1_000_000` SI units.

use vstd::prelude::*;

verus! {

/// One whole unit (1.0) in millionths.
pub const MICRO: i64 = 1_000_000;

/// Quotient of `a` by `b` rounded toward zero, as the machine division rounds.
pub open spec fn quot(a: int, b: int) -> int
    recommends
        b != 0,
{
    if b > 0 {
        if a >= 0 {
            a / b
        } else {
            -((-a) / b)
        }
    } else {
        if a >= 0 {
            -(a / (-b))
        } else {
            (-a) / (-b)
        }
    }
}

/// Absolute value.
pub open spec fn magnitude(x: int) -> int {
    if x < 0 {
        -x
    } else {
        x
    }
}

/// `x` limited to the range of `i64`.
pub open spec fn clamp_i64(x: int) -> int {
    if x < i64::MIN {
        i64::MIN as int
    } else if x > i64::MAX {
        i64::MAX as int
    } else {
        x
    }
}

/// The quotient never exceeds the dividend in magnitude.
pub proof fn lemma_quot_bound(a: int, b: int)
    requires
        b != 0,
    ensures
        magnitude(quot(a, b)) <= magnitude(a),
        a >= 0 && b > 0 ==> 0 <= quot(a, b) <= a,
{
    let ma = magnitude(a);
    let mb = magnitude(b);
    assert(0 <= ma / mb <= ma) by (nonlinear_arith)
        requires
            ma >= 0,
            mb >= 1,
    ;
}

/// Division rounded toward zero.
pub fn div_toward_zero(a: i128, b: i128) -> (q: i128)
    requires
        b != 0,
        a > i128::MIN,
        b > i128::MIN,
    ensures
        q == quot(a as int, b as int),
{
    proof {
        lemma_quot_bound(a as int, b as int);
    }
    if b > 0 {
        a / b
    } else if a >= 0 {
        -(a / (-b))
    } else {
        (-a) / (-b)
    }
}

/// Saturating conversion to `i64`.
pub fn saturate_i64(x: i128) -> (r: i64)
    ensures
        r == clamp_i64(x as int),
{
    if x < i64::MIN as i128 {
        i64::MIN
    } else if x > i64::MAX as i128 {
        i64::MAX
    } else {
        x as i64
    }
}

} // verus!
