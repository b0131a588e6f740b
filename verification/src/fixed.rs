//! Fixed-point scale and the integer square root used by the seed-mode
//! radial-growth law.

use vstd::prelude::*;

verus! {

/// Number of micro-units per unit; also the number of micro-turns per full
/// revolution.
pub const SCALE: u64 = 1_000_000;

/// `SCALE * SCALE`, the argument scaling that turns `sqrt` over units into a
/// square root over micro-units: `sqrt_floor(i * SCALE_SQUARED)` is
/// `sqrt(i)` expressed in micro-units, rounded down.
pub const SCALE_SQUARED: u64 = 1_000_000_000_000;

/// The mathematical floor of the square root of `n`, defined as the unique
/// nonnegative `r` with `r * r <= n < (r + 1) * (r + 1)`.
pub open spec fn sqrt_floor(n: int) -> int {
    choose|r: int| is_sqrt_floor(n, r)
}

/// `r` is the rounded-down square root of `n`.
pub open spec fn is_sqrt_floor(n: int, r: int) -> bool {
    0 <= r && r * r <= n && n < (r + 1) * (r + 1)
}

/// No two integers both satisfy `is_sqrt_floor` for the same `n`.
pub proof fn lemma_sqrt_floor_unique(n: int, r1: int, r2: int)
    by (nonlinear_arith)
    requires
        is_sqrt_floor(n, r1),
        is_sqrt_floor(n, r2),
    ensures
        r1 == r2,
{
}

/// A witness pins `sqrt_floor` down: whatever satisfies the defining
/// predicate is the value of `sqrt_floor`.
pub proof fn lemma_sqrt_floor_of_witness(n: int, r: int)
    requires
        is_sqrt_floor(n, r),
    ensures
        sqrt_floor(n) == r,
{
    assert(is_sqrt_floor(n, sqrt_floor(n)));
    lemma_sqrt_floor_unique(n, r, sqrt_floor(n));
}

/// Rounded-down integer square root by binary search.
///
/// The bound on `n` keeps every intermediate square inside `u64`; it is far
/// above anything the synthesizer asks for (at most `6000 * SCALE_SQUARED`).
pub fn isqrt(n: u64) -> (r: u64)
    requires
        n <= 10_000_000_000_000_000,
    ensures
        r * r <= n < (r + 1) * (r + 1),
        r == sqrt_floor(n as int),
        r <= 100_000_000,
{
    let mut lo: u64 = 0;
    let mut hi: u64 = 100_000_000;
    assert((hi + 1) * (hi + 1) > n) by (nonlinear_arith)
        requires
            n <= 10_000_000_000_000_000,
            hi == 100_000_000,
    ;
    while lo < hi
        invariant
            lo <= hi,
            hi <= 100_000_000,
            lo * lo <= n,
            n < (hi + 1) * (hi + 1),
        decreases hi - lo,
    {
        let mid: u64 = lo + (hi - lo + 1) / 2;
        assert(lo < mid <= hi);
        assert(mid * mid <= 10_000_000_000_000_001) by (nonlinear_arith)
            requires
                mid <= 100_000_000,
        ;
        if mid * mid <= n {
            lo = mid;
        } else {
            hi = mid - 1;
            assert(n < (hi + 1) * (hi + 1));
        }
    }
    proof {
        lemma_sqrt_floor_of_witness(n as int, lo as int);
    }
    lo
}

} // verus!
