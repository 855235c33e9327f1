//! Proportions of integers, rounded down.

use vstd::prelude::*;

verus! {

/// The part of `reach` that `offset` is of `span`, rounded down.
pub open spec fn proportion(offset: int, reach: int, span: int) -> int {
    (offset * reach) / span
}

/// A proportion of `reach` lies between zero and `reach`, and its two ends are exact.
pub proof fn lemma_proportion_bounds(offset: int, reach: int, span: int)
    requires
        0 < span,
        0 <= offset <= span,
    ensures
        reach >= 0 ==> 0 <= proportion(offset, reach, span) <= reach,
        reach <= 0 ==> reach <= proportion(offset, reach, span) <= 0,
        offset == 0 ==> proportion(offset, reach, span) == 0,
        offset == span ==> proportion(offset, reach, span) == reach,
{
    let product = offset * reach;
    let whole = span * reach;
    assert(reach >= 0 ==> 0 <= product <= whole) by (nonlinear_arith)
        requires
            0 <= offset <= span,
            product == offset * reach,
            whole == span * reach,
    ;
    assert(reach <= 0 ==> whole <= product <= 0) by (nonlinear_arith)
        requires
            0 <= offset <= span,
            product == offset * reach,
            whole == span * reach,
    ;
    vstd::arithmetic::div_mod::lemma_div_multiples_vanish(reach, span);
    assert(0int / span == 0) by {
        vstd::arithmetic::div_mod::lemma_div_multiples_vanish(0, span);
        assert(span * 0 == 0);
    }
    if reach >= 0 {
        vstd::arithmetic::div_mod::lemma_div_is_ordered(0, product, span);
        vstd::arithmetic::div_mod::lemma_div_is_ordered(product, whole, span);
    }
    if reach <= 0 {
        vstd::arithmetic::div_mod::lemma_div_is_ordered(whole, product, span);
        vstd::arithmetic::div_mod::lemma_div_is_ordered(product, 0, span);
    }
    if offset == 0 {
        assert(product == 0) by (nonlinear_arith)
            requires
                offset == 0,
                product == offset * reach,
        ;
    }
}

/// A larger offset gives a later point between zero and `reach`.
pub proof fn lemma_proportion_ordered(low: int, high: int, reach: int, span: int)
    requires
        0 < span,
        low <= high,
    ensures
        reach >= 0 ==> proportion(low, reach, span) <= proportion(high, reach, span),
        reach <= 0 ==> proportion(low, reach, span) >= proportion(high, reach, span),
{
    let first = low * reach;
    let second = high * reach;
    assert(reach >= 0 ==> first <= second) by (nonlinear_arith)
        requires
            low <= high,
            first == low * reach,
            second == high * reach,
    ;
    assert(reach <= 0 ==> first >= second) by (nonlinear_arith)
        requires
            low <= high,
            first == low * reach,
            second == high * reach,
    ;
    if reach >= 0 {
        vstd::arithmetic::div_mod::lemma_div_is_ordered(first, second, span);
    }
    if reach <= 0 {
        vstd::arithmetic::div_mod::lemma_div_is_ordered(second, first, span);
    }
}

/// Rounding a negative quotient down is rounding its opposite up.
proof fn lemma_floor_of_negative(product: int, span: int)
    requires
        0 < span,
        product < 0,
    ensures
        product / span == -((-product + span - 1) / span),
{
    let raised = -product + span - 1;
    let up = raised / span;
    let left = raised % span;
    vstd::arithmetic::div_mod::lemma_fundamental_div_mod(raised, span);
    vstd::arithmetic::div_mod::lemma_mod_bound(raised, span);
    assert(span * up == up * span) by (nonlinear_arith);
    assert((-up) * span == -(up * span)) by (nonlinear_arith);
    vstd::arithmetic::div_mod::lemma_fundamental_div_mod_converse(
        product,
        span,
        -up,
        span - 1 - left,
    );
}

/// Computes the part of `reach` that `offset` is of `span`, rounded down.
pub fn proportional(offset: i64, reach: i64, span: i64) -> (part: i64)
    requires
        0 < span,
        0 <= offset <= span,
    ensures
        part == proportion(offset as int, reach as int, span as int),
{
    proof {
        lemma_proportion_bounds(offset as int, reach as int, span as int);
    }
    assert(-0x4000_0000_0000_0000_0000_0000_0000_0000 <= (offset as int) * (reach as int)
        <= 0x4000_0000_0000_0000_0000_0000_0000_0000) by (nonlinear_arith)
        requires
            0 <= offset <= 0x7fff_ffff_ffff_ffff,
            -0x8000_0000_0000_0000 <= reach <= 0x7fff_ffff_ffff_ffff,
    ;
    let product: i128 = (offset as i128) * (reach as i128);
    let wide: i128 = span as i128;
    if product >= 0 {
        (product / wide) as i64
    } else {
        proof {
            lemma_floor_of_negative(product as int, wide as int);
        }
        let up: i128 = (-product + wide - 1) / wide;
        (-up) as i64
    }
}

} // verus!
