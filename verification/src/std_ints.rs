use vstd::prelude::*;

verus! {

/// Specification of std's `i64::saturating_sub`: the difference, clamped to the range
/// of `i64`, as the standard library documents.
pub assume_specification[<i64>::saturating_sub](x: i64, y: i64) -> (r: i64)
    ensures
        r == clamp_i64(x - y),
;

/// Specification of std's `u64::saturating_mul`: the product, clamped to `u64::MAX`, as
/// the standard library documents.
pub assume_specification[<u64>::saturating_mul](x: u64, y: u64) -> (r: u64)
    ensures
        r == (if x * y > u64::MAX {
            u64::MAX as int
        } else {
            x * y
        }),
;

/// Specification of std's `i64::rem_euclid`: the nonnegative remainder of Euclidean
/// division, as the standard library documents; it panics on a zero divisor and on
/// `i64::MIN` divided by -1.
pub assume_specification[<i64>::rem_euclid](x: i64, rhs: i64) -> (r: i64)
    requires
        rhs != 0,
        !(x == i64::MIN && rhs == -1),
    ensures
        r == x % rhs,
;

/// An integer clamped to the range of `i64`.
pub open spec fn clamp_i64(v: int) -> int {
    if v > i64::MAX {
        i64::MAX as int
    } else if v < i64::MIN {
        i64::MIN as int
    } else {
        v
    }
}

/// The `u64` with the same two's complement bits as an `i64`.
pub open spec fn i64_bits_as_u64(v: int) -> int {
    if v >= 0 {
        v
    } else {
        v + 0x1_0000_0000_0000_0000
    }
}

/// `a - b`, or 0 when `b > a`, as `u64::saturating_sub` computes.
pub open spec fn sat_sub(a: int, b: int) -> int {
    if a >= b {
        a - b
    } else {
        0
    }
}

/// `a * b`, or `u64::MAX` when the product does not fit, as `u64::saturating_mul` computes.
pub open spec fn sat_mul(a: int, b: int) -> int {
    if a * b > u64::MAX {
        u64::MAX as int
    } else {
        a * b
    }
}

/// The smaller of two integers.
pub open spec fn min_int(a: int, b: int) -> int {
    if a <= b {
        a
    } else {
        b
    }
}

/// The remainder of Rust's `%` on signed integers, which takes the sign of the dividend.
pub open spec fn trunc_rem(a: int, b: int) -> int {
    if a >= 0 {
        a % b
    } else {
        -((-a) % b)
    }
}

/// The quotient of Rust's `/` on signed integers, which rounds towards zero.
pub open spec fn trunc_div(a: int, b: int) -> int {
    if a >= 0 {
        a / b
    } else {
        -((-a) / b)
    }
}

} // verus!
