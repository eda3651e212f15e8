//! The smoothstep easing `s(p) = 3p² − 2p³`, computed exactly on a rational
//! progress `a / n`.

use vstd::prelude::*;

verus! {

/// `a` clamped into `[0, n]`: the progress `a / n` clamped into `[0, 1]`,
/// written over the denominator `n`.
pub open spec fn clamped(a: int, n: int) -> int {
    if a < 0 {
        0
    } else if a > n {
        n
    } else {
        a
    }
}

/// `s(a / n)` scaled by `n³`: `a²·(3n − 2a)`.
pub open spec fn smooth_scaled(a: int, n: int) -> int {
    a * a * (3 * n - 2 * a)
}

/// The slope `s'(a / n) = 6·(a/n)·(1 − a/n)` scaled by `n²`: `6a(n − a)`.
pub open spec fn slope_scaled(a: int, n: int) -> int {
    6 * a * (n - a)
}

/// A blend weight `num / den` in `[0, 1]`.
#[derive(Clone, Copy, Debug, PartialEq, Eq, Structural)]
pub struct Weight {
    pub num: u128,
    pub den: u128,
}

/// The weight that blending at `elapsed` microseconds into a transition of
/// `span` microseconds uses: `s(clamp(elapsed / span, 0, 1))`, over `span³`.
pub open spec fn weight_at(elapsed: int, span: int) -> Weight {
    Weight {
        num: smooth_scaled(clamped(elapsed, span), span) as u128,
        den: (span * span * span) as u128,
    }
}

/// Clamps the progress `elapsed / span` into `[0, 1]`, as a numerator over
/// `span`.
pub fn clamp_progress(elapsed: u64, span: u32) -> (r: u32)
    ensures
        r == clamped(elapsed as int, span as int),
{
    if elapsed > span as u64 {
        span
    } else {
        elapsed as u32
    }
}

/// The smoothstep weight of the progress `elapsed / span`, clamped into
/// `[0, 1]` first.
pub fn smoothstep_weight(elapsed: u64, span: u32) -> (w: Weight)
    requires
        span > 0,
    ensures
        w == weight_at(elapsed as int, span as int),
        w.num as int == smooth_scaled(clamped(elapsed as int, span as int), span as int),
        w.den as int == span * span * span,
        w.num <= w.den,
{
    let a = clamp_progress(elapsed, span) as u128;
    let n = span as u128;
    assert(a * a <= n * n) by (nonlinear_arith)
        requires
            a <= n,
    ;
    assert(n * n < 0x1_0000_0000_0000_0000) by (nonlinear_arith)
        requires
            n < 0x1_0000_0000,
    ;
    assert(n * n * n < 0x1_0000_0000_0000_0000_0000_0000) by (nonlinear_arith)
        requires
            n < 0x1_0000_0000,
    ;
    assert(a * a * (3 * n - 2 * a) <= n * n * n) by (nonlinear_arith)
        requires
            a <= n,
    ;
    let num = a * a * (3 * n - 2 * a);
    let den = n * n * n;
    Weight { num, den }
}

/// The easing leaves its start and reaches its end exactly: the weight is
/// 0 at progress 0 (and before) and 1 at progress 1 (and after), so a blend
/// starts on its source surface and ends on its target surface.
pub proof fn lemma_weight_endpoints(elapsed: int, span: int)
    requires
        0 < span <= u32::MAX,
    ensures
        elapsed <= 0 ==> weight_at(elapsed, span).num == 0,
        elapsed >= span ==> weight_at(elapsed, span).num == weight_at(elapsed, span).den,
        weight_at(elapsed, span).den > 0,
{
    assert(0 * 0 * (3 * span - 0) == 0) by (nonlinear_arith);
    assert(span * span * (3 * span - 2 * span) == span * span * span) by (nonlinear_arith);
    assert(0 < span * span * span < 0x1_0000_0000_0000_0000_0000_0000) by (nonlinear_arith)
        requires
            0 < span < 0x1_0000_0000,
    ;
}

/// The easing has zero slope at both ends. For every progress `a / n` and
/// step `h / n`, `s((a + h) / n) − s(a / n)` equals `h / n` times the slope at
/// `a / n` plus a term of order `(h / n)²` (all scaled by `n³`), and that
/// slope is 0 at progress 0 and at progress 1.
pub proof fn lemma_smooth_flat_at_ends(a: int, h: int, n: int)
    requires
        n > 0,
    ensures
        smooth_scaled(a + h, n) - smooth_scaled(a, n) == h * slope_scaled(a, n) + h * h * (3 * n
            - 6 * a - 2 * h),
        slope_scaled(0, n) == 0,
        slope_scaled(n, n) == 0,
{
    let c = 3 * n - 2 * a - 2 * h;
    let s1 = smooth_scaled(a + h, n);
    let s0 = smooth_scaled(a, n);
    let aah = a * a * h;
    let ahh = a * h * h;
    assert(s1 == a * a * c + 2 * a * h * c + h * h * c) by (nonlinear_arith)
        requires
            c == 3 * n - 2 * a - 2 * h,
            s1 == (a + h) * (a + h) * (3 * n - 2 * (a + h)),
    ;
    assert(a * a * c == s0 - 2 * aah) by (nonlinear_arith)
        requires
            c == 3 * n - 2 * a - 2 * h,
            s0 == a * a * (3 * n - 2 * a),
            aah == a * a * h,
    ;
    assert(2 * a * h * c == h * (6 * a * n - 6 * a * a) + 2 * aah - 4 * ahh) by (nonlinear_arith)
        requires
            c == 3 * n - 2 * a - 2 * h,
            aah == a * a * h,
            ahh == a * h * h,
    ;
    assert(h * h * c - 4 * ahh == h * h * (3 * n - 6 * a - 2 * h)) by (nonlinear_arith)
        requires
            c == 3 * n - 2 * a - 2 * h,
            ahh == a * h * h,
    ;
    assert(h * slope_scaled(a, n) == h * (6 * a * n - 6 * a * a)) by (nonlinear_arith);
    assert(6 * 0 * (n - 0) == 0) by (nonlinear_arith);
    assert(6 * n * (n - n) == 0) by (nonlinear_arith);
}

} // verus!
