use vstd::prelude::*;

verus! {

/// `x` held between `lo` and `hi`.
pub open spec fn clamp(x: int, lo: int, hi: int) -> int {
    if x < lo {
        lo
    } else if x > hi {
        hi
    } else {
        x
    }
}

/// The integer nearest to `n / d` for a positive `d`; a half rounds up.
pub open spec fn round_div(n: int, d: int) -> int {
    (2 * n + d) / (2 * d)
}

/// The integer nearest to 255 times the ratio `n / d`, the ratio first held
/// between zero and one. Where `d` is zero there is no ratio, and the result
/// is zero.
pub open spec fn unit_ratio_255(n: int, d: int) -> int {
    if d == 0 {
        0
    } else if d > 0 {
        clamp(round_div(255 * n, d), 0, 255)
    } else {
        clamp(round_div(-255 * n, -d), 0, 255)
    }
}

/// The quotient of `x` by a positive `d` is at least `lo` when `x` is at
/// least `lo * d`.
pub proof fn lemma_div_at_least(x: int, d: int, lo: int)
    requires
        d > 0,
        lo * d <= x,
    ensures
        lo <= x / d,
{
    assert(lo <= x / d) by (nonlinear_arith)
        requires
            d > 0,
            lo * d <= x,
    ;
}

/// The quotient of `x` by a positive `d` is at most `hi` when `x` is below
/// `(hi + 1) * d`.
pub proof fn lemma_div_at_most(x: int, d: int, hi: int)
    requires
        d > 0,
        x < (hi + 1) * d,
    ensures
        x / d <= hi,
{
    assert(x / d <= hi) by (nonlinear_arith)
        requires
            d > 0,
            x < (hi + 1) * d,
    ;
}

/// The larger of two integers.
pub open spec fn max_of(a: int, b: int) -> int {
    if a >= b {
        a
    } else {
        b
    }
}

/// The smaller of two integers.
pub open spec fn min_of(a: int, b: int) -> int {
    if a <= b {
        a
    } else {
        b
    }
}

} // verus!
