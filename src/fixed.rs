//! Fixed-point conventions shared by the whole library.
use vstd::arithmetic::div_mod::lemma_div_is_ordered;
use vstd::prelude::*;

verus! {

/// A real value `x` is held as the integer `x * ONE`: ten to the minus eight
/// of a unit is the smallest step that can be represented.
pub const ONE: i64 = 100_000_000;

/// Division rounded toward zero, as integer division in Rust does.
pub open spec fn trunc_div(a: int, d: int) -> int
    recommends
        d > 0,
{
    if a >= 0 {
        a / d
    } else {
        -((-a) / d)
    }
}

/// Division rounded to the nearest integer, halves away from zero.
pub open spec fn round_div(a: int, d: int) -> int
    recommends
        d > 0,
{
    if a >= 0 {
        (2 * a + d) / (2 * d)
    } else {
        -((2 * (-a) + d) / (2 * d))
    }
}

pub open spec fn abs(a: int) -> int {
    if a < 0 {
        -a
    } else {
        a
    }
}

/// Truncating division keeps the order of its dividends.
pub proof fn lemma_trunc_div_monotone(a: int, b: int, d: int)
    requires
        a <= b,
        d > 0,
    ensures
        trunc_div(a, d) <= trunc_div(b, d),
{
    if a >= 0 {
        lemma_div_is_ordered(a, b, d);
    } else if b >= 0 {
        lemma_div_is_ordered(0, -a, d);
        lemma_div_is_ordered(0, b, d);
    } else {
        lemma_div_is_ordered(-b, -a, d);
    }
}

} // verus!
