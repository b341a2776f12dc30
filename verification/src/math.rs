//! Integer arithmetic helpers: absolute value, truncating division and
//! integer square root, with the spec-level functions the contracts of the
//! physics are written in.

use vstd::prelude::*;
use vstd::arithmetic::div_mod::lemma_div_is_ordered;
use vstd::arithmetic::div_mod::lemma_fundamental_div_mod;

verus! {

/// Mathematical absolute value.
pub open spec fn abs_i(x: int) -> int {
    if x < 0 {
        -x
    } else {
        x
    }
}

/// Division truncated toward zero, for a positive divisor.  This matches
/// hardware division of signed integers, and unlike Euclidean (flooring)
/// division it satisfies `div_t(-a, b) == -div_t(a, b)`, which the force
/// model relies on for Newton's third law.
pub open spec fn div_t(a: int, b: int) -> int
    recommends
        b > 0,
{
    if a >= 0 {
        a / b
    } else {
        -((-a) / b)
    }
}

/// `r` is the integer square root of `n`.
pub open spec fn is_sqrt(n: int, r: int) -> bool {
    &&& 0 <= r
    &&& r * r <= n
    &&& n < (r + 1) * (r + 1)
}

/// The integer square root (rounded down) of a nonnegative integer.
pub open spec fn sqrt_i(n: int) -> int {
    choose|r: int| is_sqrt(n, r)
}

/// At most one integer satisfies `is_sqrt`, so any witness equals `sqrt_i`.
pub proof fn lemma_sqrt_unique(n: int, r: int)
    requires
        is_sqrt(n, r),
    ensures
        sqrt_i(n) == r,
{
    let w = choose|q: int| is_sqrt(n, q);
    assert(is_sqrt(n, w));
    assert forall|r1: int, r2: int| is_sqrt(n, r1) && is_sqrt(n, r2) implies r1 == r2 by {
        assert(r1 == r2) by (nonlinear_arith)
            requires
                0 <= r1,
                0 <= r2,
                r1 * r1 <= n,
                n < (r1 + 1) * (r1 + 1),
                r2 * r2 <= n,
                n < (r2 + 1) * (r2 + 1),
        ;
    }
}

/// Every nonnegative integer has an integer square root, so `sqrt_i`
/// satisfies `is_sqrt`.
pub proof fn lemma_sqrt_exists(n: int)
    requires
        n >= 0,
    ensures
        is_sqrt(n, sqrt_i(n)),
    decreases n,
{
    if n == 0 {
        assert(is_sqrt(0, 0));
    } else {
        lemma_sqrt_exists(n - 1);
        let r = sqrt_i(n - 1);
        if n < (r + 1) * (r + 1) {
            assert(is_sqrt(n, r));
        } else {
            assert(is_sqrt(n, r + 1)) by (nonlinear_arith)
                requires
                    0 <= r,
                    r * r <= n - 1,
                    n - 1 < (r + 1) * (r + 1),
                    n >= (r + 1) * (r + 1),
            ;
        }
        lemma_sqrt_unique(n, choose|q: int| is_sqrt(n, q));
    }
}

/// Truncating division negates with its numerator.
pub proof fn lemma_div_t_neg(a: int, b: int)
    requires
        b > 0,
    ensures
        div_t(-a, b) == -div_t(a, b),
{
}

/// For a divisor that divides exactly, truncating division is exact:
/// multiplying back recovers the numerator.
pub proof fn lemma_div_t_exact(a: int, b: int)
    requires
        b > 0,
        a % b == 0,
    ensures
        b * div_t(a, b) == a,
        div_t(a, b) == a / b,
{
    lemma_fundamental_div_mod(a, b);
    if a < 0 {
        let qa = a / b;
        let q2 = (-a) / b;
        assert(q2 == -qa && b * qa == a) by (nonlinear_arith)
            requires
                b > 0,
                a % b == 0,
                qa == a / b,
                q2 == (-a) / b,
        ;
        assert(div_t(a, b) == -q2);
    }
}

/// The magnitude of a truncated quotient is the quotient of the magnitudes.
pub proof fn lemma_div_t_abs(a: int, b: int)
    requires
        b > 0,
    ensures
        abs_i(div_t(a, b)) == abs_i(a) / b,
{
    if a >= 0 {
        vstd::arithmetic::div_mod::lemma_div_pos_is_pos(a, b);
    } else {
        vstd::arithmetic::div_mod::lemma_div_pos_is_pos(-a, b);
    }
}

/// Division by a positive divisor never grows a magnitude bound of the
/// numerator: `|a| <= m` gives `|div_t(a, b)| <= m`.
pub proof fn lemma_div_t_bound(a: int, b: int, m: int)
    requires
        b > 0,
        abs_i(a) <= m,
    ensures
        abs_i(div_t(a, b)) <= m,
{
    lemma_div_t_abs(a, b);
    lemma_div_is_ordered(abs_i(a), m, b);
    vstd::arithmetic::div_mod::lemma_div_nonincreasing(m, b);
}

/// A numerator no larger than `c * b` in magnitude yields a truncated
/// quotient no larger than `c` in magnitude.
pub proof fn lemma_div_t_quotient_bound(a: int, b: int, c: int)
    requires
        b > 0,
        c >= 0,
        abs_i(a) <= c * b,
    ensures
        abs_i(div_t(a, b)) <= c,
{
    lemma_div_t_abs(a, b);
    lemma_div_is_ordered(abs_i(a), c * b, b);
    vstd::arithmetic::div_mod::lemma_div_by_multiple(c, b);
}

/// Truncating division of signed 128-bit values, for a positive divisor.
pub fn div_trunc(a: i128, b: i128) -> (r: i128)
    requires
        b > 0,
        a > i128::MIN,
    ensures
        r == div_t(a as int, b as int),
{
    if a >= 0 {
        let q: u128 = (a as u128) / (b as u128);
        proof {
            vstd::arithmetic::div_mod::lemma_div_nonincreasing(a as int, b as int);
            vstd::arithmetic::div_mod::lemma_div_pos_is_pos(a as int, b as int);
        }
        q as i128
    } else {
        let n: i128 = -a;
        let q: u128 = (n as u128) / (b as u128);
        proof {
            vstd::arithmetic::div_mod::lemma_div_nonincreasing(n as int, b as int);
            vstd::arithmetic::div_mod::lemma_div_pos_is_pos(n as int, b as int);
        }
        -(q as i128)
    }
}

/// Integer square root of a 128-bit value, by binary search on the result.
pub fn isqrt(n: u128) -> (r: u128)
    ensures
        is_sqrt(n as int, r as int),
        r == sqrt_i(n as int),
{
    if n == 0 {
        proof {
            lemma_sqrt_unique(0, 0);
        }
        return 0;
    }
    let mut lo: u128 = 0;
    let mut hi: u128 = 0x1_0000_0000_0000_0000;  // 2^64, so hi * hi == 2^128 > n
    while lo + 1 < hi
        invariant
            lo < hi,
            hi <= 0x1_0000_0000_0000_0000,
            (lo as int) * (lo as int) <= n as int,
            (n as int) < (hi as int) * (hi as int),
        decreases hi - lo,
    {
        let mid: u128 = lo + (hi - lo) / 2;
        assert(lo < mid < hi);
        assert((mid as int) * (mid as int) <= u128::MAX as int) by (nonlinear_arith)
            requires
                (mid as int) < 0x1_0000_0000_0000_0000,
        ;
        let sq: u128 = mid * mid;
        if sq <= n {
            lo = mid;
        } else {
            hi = mid;
        }
    }
    proof {
        assert(hi == lo + 1);
        lemma_sqrt_unique(n as int, lo as int);
    }
    lo
}

} // verus!
