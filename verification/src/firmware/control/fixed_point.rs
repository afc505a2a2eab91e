//! Q16.16 fixed-point arithmetic on raw bits: a number `x` is held as the
//! 32-bit integer `x * 65536`, rounded down.

use vstd::prelude::*;

verus! {

/// 1.0 in Q16.16.
pub const ONE: i32 = 65_536;

/// Whether `x` is the raw value of a Q16.16 number.
pub open spec fn fits(x: int) -> bool {
    i32::MIN <= x <= i32::MAX
}

/// Raw value of the product of two Q16.16 numbers, rounded down.
pub open spec fn product(a: int, b: int) -> int {
    (a * b) / 65_536
}

/// `x` limited to the interval from `-limit` to `limit`; the upper bound is
/// tested first.
pub open spec fn limited(x: int, limit: int) -> int {
    if x > limit {
        limit
    } else if x < -limit {
        -limit
    } else {
        x
    }
}

/// The product of two Q16.16 numbers, rounded down, if it is one.
pub fn checked_product(a: i32, b: i32) -> (p: Option<i32>)
    ensures
        p == if fits(product(a as int, b as int)) {
            Some(product(a as int, b as int) as i32)
        } else {
            None
        },
{
    assert(-0x4000_0000_0000_0000 <= a * b <= 0x4000_0000_0000_0000) by (nonlinear_arith)
        requires
            -0x8000_0000 <= a <= 0x7fff_ffff,
            -0x8000_0000 <= b <= 0x7fff_ffff,
    ;
    let wide: i64 = a as i64 * b as i64;
    // Rounding down, also of negative products.
    let floor: i64 = if wide >= 0 {
        wide / 65_536
    } else {
        -((-wide + 65_535) / 65_536)
    };
    if floor < -0x8000_0000 || floor > 0x7fff_ffff {
        None
    } else {
        Some(floor as i32)
    }
}

/// The sum of two Q16.16 numbers, if it is one.
pub fn checked_sum(a: i32, b: i32) -> (s: Option<i32>)
    ensures
        s == if fits(a + b) {
            Some((a + b) as i32)
        } else {
            None
        },
{
    let wide: i64 = a as i64 + b as i64;
    if wide < -0x8000_0000 || wide > 0x7fff_ffff {
        None
    } else {
        Some(wide as i32)
    }
}

/// The difference of two Q16.16 numbers, if it is one.
pub fn checked_difference(a: i32, b: i32) -> (d: Option<i32>)
    ensures
        d == if fits(a - b) {
            Some((a - b) as i32)
        } else {
            None
        },
{
    let wide: i64 = a as i64 - b as i64;
    if wide < -0x8000_0000 || wide > 0x7fff_ffff {
        None
    } else {
        Some(wide as i32)
    }
}

/// `x` limited to the interval from `-limit` to `limit`.
pub fn limit_to(x: i32, limit: i32) -> (r: i32)
    requires
        limit > i32::MIN,
    ensures
        r == limited(x as int, limit as int),
{
    if x > limit {
        limit
    } else if x < -limit {
        -limit
    } else {
        x
    }
}

} // verus!
