//! Integer square and cube roots, rounded down.
//!
//! The cone sampler turns uniform draws into height and radius fractions
//! through these roots, and a firing direction is brought to the muzzle
//! speed through the square root of a ratio.
use vstd::prelude::*;

verus! {

/// `v` is the square root of `num / den`, rounded down.
pub open spec fn is_sqrt_floor(v: int, num: int, den: int) -> bool {
    &&& 0 <= v
    &&& v * v * den <= num
    &&& num < (v + 1) * (v + 1) * den
}

/// `v` is the cube root of `n`, rounded down.
pub open spec fn is_cbrt_floor(v: int, n: int) -> bool {
    &&& 0 <= v
    &&& v * v * v <= n
    &&& n < (v + 1) * (v + 1) * (v + 1)
}

/// Squares grow with their base, also when scaled by a positive factor.
pub proof fn lemma_square_monotone(a: int, b: int, den: int)
    requires
        0 <= a <= b,
        0 < den,
    ensures
        a * a <= b * b,
        a * a * den <= b * b * den,
        b * b <= b * b * den,
{
    assert(a * a <= b * b) by (nonlinear_arith)
        requires
            0 <= a <= b,
    ;
    assert(a * a * den <= b * b * den) by (nonlinear_arith)
        requires
            a * a <= b * b,
            0 < den,
    ;
    assert(b * b <= b * b * den) by (nonlinear_arith)
        requires
            0 <= b * b,
            1 <= den,
    ;
}

/// Cubes grow with their base.
pub proof fn lemma_cube_monotone(a: int, b: int)
    requires
        0 <= a <= b,
    ensures
        a * a * a <= b * b * b,
{
    assert(a * a <= b * b) by (nonlinear_arith)
        requires
            0 <= a <= b,
    ;
    assert(a * a * a <= b * b * a) by (nonlinear_arith)
        requires
            a * a <= b * b,
            0 <= a,
    ;
    assert(b * b * a <= b * b * b) by (nonlinear_arith)
        requires
            0 <= a <= b,
            0 <= b * b,
    ;
}

/// A ratio has one rounded-down square root: the root lies below a bound
/// exactly when the ratio lies below the bound's square.
pub proof fn lemma_sqrt_floor_below(v: int, num: int, den: int, x: int)
    requires
        is_sqrt_floor(v, num, den),
        0 < den,
        0 <= x,
    ensures
        v < x <==> num < x * x * den,
{
    if v < x {
        lemma_square_monotone(v + 1, x, den);
    } else {
        lemma_square_monotone(x, v, den);
    }
}

/// A number has one rounded-down cube root: the root lies below a bound
/// exactly when the number lies below the bound's cube.
pub proof fn lemma_cbrt_floor_below(v: int, n: int, x: int)
    requires
        is_cbrt_floor(v, n),
        0 <= x,
    ensures
        v < x <==> n < x * x * x,
{
    if v < x {
        lemma_cube_monotone(v + 1, x);
    } else {
        lemma_cube_monotone(x, v);
    }
}

/// The square root of `num / den`, rounded down, for a ratio whose root
/// does not exceed `cap`.
pub fn sqrt_ratio_floor(num: u128, den: u128, cap: u64) -> (root: u64)
    requires
        0 < den,
        cap * cap * den <= u128::MAX,
        num < (cap + 1) * (cap + 1) * den,
    ensures
        is_sqrt_floor(root as int, num as int, den as int),
        root <= cap,
{
    let mut lo: u128 = 0;
    let mut hi: u128 = cap as u128 + 1;
    while hi - lo > 1
        invariant
            0 < den,
            cap * cap * den <= u128::MAX,
            lo < hi <= cap + 1,
            lo * lo * den <= num,
            num < hi * hi * den,
        decreases hi - lo,
    {
        let mid: u128 = lo + (hi - lo) / 2;
        proof {
            lemma_square_monotone(mid as int, cap as int, den as int);
        }
        if mid * mid * den <= num {
            lo = mid;
        } else {
            hi = mid;
        }
    }
    lo as u64
}

/// The largest base whose cube fits in 64 bits.
pub const CBRT_MAX: u64 = 2_642_245;

/// The cube root of `n`, rounded down.
pub fn cbrt_floor(n: u64) -> (root: u64)
    ensures
        is_cbrt_floor(root as int, n as int),
        root <= CBRT_MAX,
{
    let mut lo: u128 = 0;
    let mut hi: u128 = 2_642_246;
    assert(n < 2_642_246int * 2_642_246 * 2_642_246);
    while hi - lo > 1
        invariant
            lo < hi <= 2_642_246,
            lo * lo * lo <= n,
            n < hi * hi * hi,
        decreases hi - lo,
    {
        let mid: u128 = lo + (hi - lo) / 2;
        proof {
            lemma_cube_monotone(mid as int, 2_642_246);
            lemma_square_monotone(mid as int, 2_642_246, 1);
        }
        if mid * mid * mid <= n as u128 {
            lo = mid;
        } else {
            hi = mid;
        }
    }
    lo as u64
}

} // verus!
