//! Rounding a quotient of two integers to the nearest integer.

use vstd::prelude::*;

verus! {

/// The size of an integer without its sign.
pub open spec fn magnitude(n: int) -> int {
    if n < 0 {
        -n
    } else {
        n
    }
}

/// The integer nearest to `a / b`; where two are equally near, the one
/// farther from zero. `b` is not zero.
pub open spec fn rounded_quotient(a: int, b: int) -> int
    recommends
        b != 0,
{
    let size = (2 * magnitude(a) + magnitude(b)) / (2 * magnitude(b));
    if (a < 0) != (b < 0) {
        -size
    } else {
        size
    }
}

/// The rounded quotient differs from the exact one by at most a half, and
/// where it differs by exactly a half it is the farther from zero.
pub proof fn lemma_rounded_quotient_is_nearest(a: int, b: int)
    requires
        b != 0,
    ensures
        2 * magnitude(rounded_quotient(a, b) * b - a) <= magnitude(b),
        2 * magnitude(rounded_quotient(a, b) * b - a) == magnitude(b) ==> magnitude(
            rounded_quotient(a, b) * b,
        ) > magnitude(a),
        (a < 0) != (b < 0) ==> rounded_quotient(a, b) <= 0,
        (a < 0) == (b < 0) ==> rounded_quotient(a, b) >= 0,
{
    let m = magnitude(a);
    let d = magnitude(b);
    let size = (2 * m + d) / (2 * d);
    let rest = (2 * m + d) % (2 * d);
    assert(2 * m + d == size * (2 * d) + rest && 0 <= rest < 2 * d) by (nonlinear_arith)
        requires
            size == (2 * m + d) / (2 * d),
            rest == (2 * m + d) % (2 * d),
            d > 0,
    ;
    assert(size >= 0) by (nonlinear_arith)
        requires
            size == (2 * m + d) / (2 * d),
            d > 0,
            m >= 0,
    ;
    // 2 * (size * d - m) == d - rest, which lies in (-d, d].
    assert(2 * (size * d - m) == d - rest) by (nonlinear_arith)
        requires
            2 * m + d == size * (2 * d) + rest,
    ;
    let q = rounded_quotient(a, b);
    assert(magnitude(q * b - a) == magnitude(size * d - m)) by (nonlinear_arith)
        requires
            q == if (a < 0) != (b < 0) {
                -size
            } else {
                size
            },
            m == magnitude(a),
            d == magnitude(b),
            b != 0,
    ;
    assert(magnitude(q * b) == size * d) by (nonlinear_arith)
        requires
            q == if (a < 0) != (b < 0) {
                -size
            } else {
                size
            },
            d == magnitude(b),
            size >= 0,
            b != 0,
    ;
}

/// The integer nearest to `a / b`, halves rounded away from zero.
pub fn round_div(a: i128, b: i128) -> (q: i128)
    requires
        b != 0,
        -0x1_0000_0000_0000_0000_0000_0000 < a < 0x1_0000_0000_0000_0000_0000_0000,
        -0x1_0000_0000_0000_0000_0000_0000 < b < 0x1_0000_0000_0000_0000_0000_0000,
    ensures
        q == rounded_quotient(a as int, b as int),
        magnitude(q as int) <= magnitude(a as int) + 1,
{
    let m: i128 = if a < 0 {
        -a
    } else {
        a
    };
    let d: i128 = if b < 0 {
        -b
    } else {
        b
    };
    let size: i128 = (2 * m + d) / (2 * d);
    assert(0 <= size <= m + 1) by (nonlinear_arith)
        requires
            size == (2 * m + d) / (2 * d),
            m >= 0,
            d >= 1,
    ;
    if (a < 0) != (b < 0) {
        -size
    } else {
        size
    }
}

} // verus!
