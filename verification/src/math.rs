//! Integer square root, and the facts about integer division and products
//! that the proofs of the engine rest on.

use vstd::prelude::*;

verus! {

/// `r` is the integer square root of `n`: the largest integer whose square
/// does not exceed `n`.
pub open spec fn is_sqrt_floor(n: int, r: int) -> bool {
    0 <= r && r * r <= n && n < (r + 1) * (r + 1)
}

/// The integer square root of `n`, rounded down.
pub open spec fn sqrt_floor(n: int) -> int {
    choose|r: int| is_sqrt_floor(n, r)
}

/// Squaring keeps the order of non-negative integers.
pub proof fn lemma_square_monotonic(a: int, b: int)
    by (nonlinear_arith)
    requires
        0 <= a <= b,
    ensures
        a * a <= b * b,
{
}

/// At most one integer is the square root of `n`, so any that qualifies is
/// `sqrt_floor(n)`.
pub proof fn lemma_sqrt_floor_unique(n: int, r: int)
    requires
        is_sqrt_floor(n, r),
    ensures
        sqrt_floor(n) == r,
{
    let s = sqrt_floor(n);
    assert(is_sqrt_floor(n, s));
    if s < r {
        lemma_square_monotonic(s + 1, r);
    } else if r < s {
        lemma_square_monotonic(r + 1, s);
    }
}

/// Every non-negative integer has a square root.
pub proof fn lemma_sqrt_floor_exists(n: int)
    requires
        0 <= n,
    ensures
        is_sqrt_floor(n, sqrt_floor(n)),
    decreases n,
{
    if n == 0 {
        assert(is_sqrt_floor(0, 0));
    } else {
        lemma_sqrt_floor_exists(n - 1);
        let r = sqrt_floor(n - 1);
        if (r + 1) * (r + 1) <= n {
            assert((r + 2) * (r + 2) > (r + 1) * (r + 1)) by (nonlinear_arith)
                requires
                    0 <= r,
            ;
            assert(is_sqrt_floor(n, r + 1));
        } else {
            assert(is_sqrt_floor(n, r));
        }
    }
}

/// Division rounded down: the quotient times the divisor is the largest
/// multiple of the divisor that does not exceed the dividend.
pub proof fn lemma_floor_div(n: int, d: int)
    requires
        0 < d,
    ensures
        (n / d) * d <= n < (n / d) * d + d,
        0 <= n ==> 0 <= n / d,
{
    vstd::arithmetic::div_mod::lemma_fundamental_div_mod(n, d);
    vstd::arithmetic::div_mod::lemma_mod_bound(n, d);
    vstd::arithmetic::mul::lemma_mul_is_commutative(n / d, d);
    if 0 <= n {
        vstd::arithmetic::div_mod::lemma_div_pos_is_pos(n, d);
    }
}

/// Division rounded up, written as `(n + d - 1) / d`: the quotient times the
/// divisor is the smallest multiple of the divisor that reaches the dividend.
pub proof fn lemma_ceil_div(n: int, d: int)
    requires
        0 < d,
    ensures
        n <= ((n + (d - 1)) / d) * d < n + d,
        0 <= n ==> 0 <= (n + (d - 1)) / d,
        0 < n ==> 0 < (n + (d - 1)) / d,
{
    lemma_floor_div(n + (d - 1), d);
    let q = (n + (d - 1)) / d;
    if 0 < n && q <= 0 {
        assert(q * d <= 0) by (nonlinear_arith)
            requires
                q <= 0,
                0 < d,
        ;
    }
}

/// The product of two 64-bit amounts leaves room below the 128-bit limit for
/// one more 64-bit amount and a rounding term.
pub proof fn lemma_u64_product_fits(a: u64, b: u64)
    by (nonlinear_arith)
    ensures
        0 <= a * b <= 0xFFFF_FFFF_FFFF_FFFE_0000_0000_0000_0001,
{
}

/// Integer square root, rounded down, by bisection.
pub fn isqrt(n: u128) -> (r: u64)
    ensures
        r == sqrt_floor(n as int),
        is_sqrt_floor(n as int, r as int),
{
    let mut lo: u128 = 0;
    let mut hi: u128 = 0x1_0000_0000_0000_0000;
    assert(0x1_0000_0000_0000_0000int * 0x1_0000_0000_0000_0000int > u128::MAX);
    while hi - lo > 1
        invariant
            lo < hi <= 0x1_0000_0000_0000_0000,
            lo * lo <= n,
            n < hi * hi,
        decreases hi - lo,
    {
        let mid = lo + (hi - lo) / 2;
        assert(mid * mid <= u128::MAX) by (nonlinear_arith)
            requires
                mid <= 0xFFFF_FFFF_FFFF_FFFF,
        ;
        if mid * mid <= n {
            lo = mid;
        } else {
            hi = mid;
        }
    }
    proof {
        lemma_sqrt_floor_unique(n as int, lo as int);
    }
    lo as u64
}

} // verus!
