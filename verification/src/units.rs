//! Saturating fixed-point arithmetic shared by every entity.
use vstd::prelude::*;

verus! {

/// The nearest `i64` to `x`.
pub open spec fn clamp_i64(x: int) -> int {
    if x < i64::MIN {
        i64::MIN as int
    } else if x > i64::MAX {
        i64::MAX as int
    } else {
        x
    }
}

/// `x / d` rounded toward zero, for a positive `d`.
pub open spec fn trunc_div(x: int, d: int) -> int
    recommends
        d > 0,
{
    if x >= 0 {
        x / d
    } else {
        -((-x) / d)
    }
}

/// Distance covered in `dt` milliseconds at speed `v`, saturated.
pub open spec fn travel(v: int, dt: int) -> int {
    clamp_i64(trunc_div(v * dt, 1000))
}

/// `x` held between `lo` and `hi`; where `hi < lo` the result is `hi`.
pub open spec fn bound(x: int, lo: int, hi: int) -> int {
    if x < lo {
        if lo > hi { hi } else { lo }
    } else if x > hi {
        hi
    } else {
        x
    }
}

proof fn lemma_product_fits(a: i64, b: i64)
    ensures
        -0x4000_0000_0000_0000_0000_0000_0000_0000 <= a * b
            <= 0x4000_0000_0000_0000_0000_0000_0000_0000,
{
    assert(-0x4000_0000_0000_0000_0000_0000_0000_0000 <= a * b
        <= 0x4000_0000_0000_0000_0000_0000_0000_0000) by (nonlinear_arith)
        requires
            -0x8000_0000_0000_0000 <= a <= 0x8000_0000_0000_0000,
            -0x8000_0000_0000_0000 <= b <= 0x8000_0000_0000_0000,
    ;
}

/// The nearest `i64` to a wide integer.
pub fn clamp_wide(x: i128) -> (r: i64)
    ensures
        r == clamp_i64(x as int),
{
    if x < -0x8000_0000_0000_0000 {
        i64::MIN
    } else if x > 0x7fff_ffff_ffff_ffff {
        i64::MAX
    } else {
        x as i64
    }
}

/// Saturating sum.
pub fn add_sat(a: i64, b: i64) -> (r: i64)
    ensures
        r == clamp_i64(a + b),
{
    clamp_wide(a as i128 + b as i128)
}

/// Saturating difference.
pub fn sub_sat(a: i64, b: i64) -> (r: i64)
    ensures
        r == clamp_i64(a - b),
{
    clamp_wide(a as i128 - b as i128)
}

/// Half of `x`, rounded toward zero.
pub fn half(x: i64) -> (r: i64)
    ensures
        r == trunc_div(x as int, 2),
{
    if x >= 0 {
        x / 2
    } else if x == i64::MIN {
        -0x4000_0000_0000_0000
    } else {
        -((-x) / 2)
    }
}

proof fn lemma_quotient_fits(x: int, d: int)
    requires
        d > 0,
    ensures
        x >= 0 ==> 0 <= trunc_div(x, d) <= x,
        x < 0 ==> x <= trunc_div(x, d) <= 0,
{
    if x >= 0 {
        assert(0 <= x / d <= x) by (nonlinear_arith)
            requires
                x >= 0,
                d > 0,
        ;
    } else {
        let m = -x;
        assert(0 <= m / d <= m) by (nonlinear_arith)
            requires
                m >= 0,
                d > 0,
        ;
    }
}

fn div_wide(x: i128, d: i64) -> (r: i64)
    requires
        d > 0,
        -0x4000_0000_0000_0000_0000_0000_0000_0000 <= x
            <= 0x4000_0000_0000_0000_0000_0000_0000_0000,
    ensures
        r == clamp_i64(trunc_div(x as int, d as int)),
{
    let wide: i128 = d as i128;
    if x >= 0 {
        clamp_wide(x / wide)
    } else {
        let m: i128 = -x;
        let q: i128 = m / wide;
        clamp_wide(-q)
    }
}

/// `x / d` rounded toward zero, for a positive `d`.
pub fn div_trunc(x: i64, d: i64) -> (r: i64)
    requires
        d > 0,
    ensures
        r == trunc_div(x as int, d as int),
{
    proof {
        lemma_quotient_fits(x as int, d as int);
    }
    div_wide(x as i128, d)
}

/// Distance covered in `dt` milliseconds at speed `v`, saturated.
pub fn distance(v: i64, dt: i64) -> (r: i64)
    ensures
        r == travel(v as int, dt as int),
{
    proof {
        lemma_product_fits(v, dt);
    }
    let p: i128 = (v as i128) * (dt as i128);
    div_wide(p, 1000)
}

/// `x` held between `lo` and `hi`, the upper limit applied last.
pub fn bound_to(x: i64, lo: i64, hi: i64) -> (r: i64)
    ensures
        r == bound(x as int, lo as int, hi as int),
{
    let raised: i64 = if x < lo { lo } else { x };
    if raised > hi { hi } else { raised }
}

} // verus!
