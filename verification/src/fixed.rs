//! Truncating fixed-point division, shared by the physics and effect updates.

use vstd::prelude::*;
use vstd::arithmetic::div_mod::{lemma_div_is_ordered, lemma_div_nonincreasing, lemma_div_pos_is_pos};
use crate::consts::MICRO;

verus! {

/// Quotient of `x` by one million, truncated toward zero: the result of
/// Rust's signed integer division by the fixed-point scale.
pub open spec fn div_m(x: int) -> int {
    if x >= 0 {
        x / (MICRO as int)
    } else {
        -((-x) / (MICRO as int))
    }
}

/// The truncated quotient keeps the sign of `x` and shrinks its magnitude.
pub proof fn lemma_div_m_bounds(x: int, b: int)
    requires
        -b <= x <= b,
        0 <= b,
    ensures
        -b <= div_m(x) <= b,
        x >= 0 ==> 0 <= div_m(x) <= x,
        x < 0 ==> x <= div_m(x) <= 0,
{
    if x >= 0 {
        lemma_div_pos_is_pos(x, MICRO as int);
        lemma_div_nonincreasing(x, MICRO as int);
    } else {
        lemma_div_pos_is_pos(-x, MICRO as int);
        lemma_div_nonincreasing(-x, MICRO as int);
    }
}

/// The magnitude of the truncated quotient is at most the bound's quotient.
pub proof fn lemma_div_m_tight(x: int, b: int)
    requires
        -b <= x <= b,
        0 <= b,
    ensures
        -(b / (MICRO as int)) <= div_m(x) <= b / (MICRO as int),
{
    if x >= 0 {
        lemma_div_pos_is_pos(x, MICRO as int);
        lemma_div_is_ordered(x, b, MICRO as int);
    } else {
        lemma_div_pos_is_pos(-x, MICRO as int);
        lemma_div_is_ordered(-x, b, MICRO as int);
    }
}

/// The quotient of a million-fold multiple is the multiplier itself.
pub proof fn lemma_div_m_exact(x: int)
    ensures
        ((MICRO as int) * x) / (MICRO as int) == x,
{
    vstd::arithmetic::div_mod::lemma_div_multiples_vanish(x, MICRO as int);
}

/// A product of bounded factors is bounded by the product of the bounds.
pub proof fn lemma_abs_mul_bound(a: int, b: int, aa: int, bb: int)
    requires
        -aa <= a <= aa,
        -bb <= b <= bb,
    ensures
        -(aa * bb) <= a * b <= aa * bb,
{
    assert(-(aa * bb) <= a * b <= aa * bb) by (nonlinear_arith)
        requires
            -aa <= a <= aa,
            -bb <= b <= bb,
    ;
}

/// `x / 1_000_000`, truncated toward zero.
pub fn scale_down(x: i64) -> (r: i64)
    ensures
        r as int == div_m(x as int),
{
    proof {
        lemma_div_m_bounds(x as int, if x >= 0 { x as int } else { -(x as int) });
    }
    let q = x.checked_div(MICRO);
    assert(q is Some);
    match q {
        Some(v) => v,
        None => 0,
    }
}

} // verus!
