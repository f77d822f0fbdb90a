//! Division rounded toward zero on wide integers.
use vstd::prelude::*;

verus! {

/// The quotient of `a` by a positive `b`, rounded toward zero. Rounding this
/// way is symmetric in sign: `quot(-a, b) == -quot(a, b)`.
pub open spec fn quot(a: int, b: int) -> int {
    if a >= 0 {
        a / b
    } else {
        -((-a) / b)
    }
}

/// Division rounded toward zero.
pub fn div_trunc(a: i128, b: i128) -> (q: i128)
    requires
        b > 0,
    ensures
        q == quot(a as int, b as int),
{
    proof {
        lemma_quot_bounds(a as int, b as int, if a >= 0 { a as int } else { -a });
    }
    match a.checked_div(b) {
        Some(q) => q,
        None => 0,
    }
}

/// A quotient rounded toward zero of a value bounded by `m` is bounded by
/// `m / b`.
pub proof fn lemma_quot_bounds(a: int, b: int, m: int)
    requires
        b > 0,
        -m <= a <= m,
    ensures
        -(m / b) <= quot(a, b) <= m / b,
        -m <= quot(a, b) <= m,
{
    let n = if a >= 0 { a } else { -a };
    vstd::arithmetic::div_mod::lemma_div_is_ordered(n, m, b);
    vstd::arithmetic::div_mod::lemma_div_pos_is_pos(n, b);
    vstd::arithmetic::div_mod::lemma_div_is_ordered_by_denominator(m, 1, b);
    vstd::arithmetic::div_mod::lemma_div_pos_is_pos(m, b);
}

} // verus!
