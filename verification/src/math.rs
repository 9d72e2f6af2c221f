//! Integer arithmetic on amounts of money.

use vstd::prelude::*;

verus! {

/// The divisor of a rate quoted in basis points.
pub const BASIS_POINTS: i128 = 10000;

/// Quotient of `n` by a non-zero `d`, rounded toward zero.
pub open spec fn trunc_div(n: int, d: int) -> int
    recommends
        d != 0,
{
    if n >= 0 && d > 0 {
        n / d
    } else if n < 0 && d < 0 {
        (-n) / (-d)
    } else if n < 0 {
        -((-n) / d)
    } else {
        -(n / (-d))
    }
}

/// The share of `amount` that `rate` basis points take, rounded toward zero.
pub open spec fn share_of(amount: int, rate: int) -> int {
    trunc_div(amount * rate, 10000)
}

/// Whether `amount * rate` can be held in an `i128`.
pub open spec fn share_fits(amount: int, rate: int) -> bool {
    i128::MIN <= amount * rate <= i128::MAX
}

/// The share of `amount` at `rate` basis points, or `None` where the
/// product `amount * rate` overflows.
pub fn basis_point_share(amount: i128, rate: i128) -> (r: Option<i128>)
    ensures
        r is Some <==> share_fits(amount as int, rate as int),
        r is Some ==> r->0 == share_of(amount as int, rate as int),
{
    match amount.checked_mul(rate) {
        Some(product) => product.checked_div(BASIS_POINTS),
        None => None,
    }
}

/// A share at a rate between 0 and 10000 basis points of a non-negative
/// amount lies between 0 and the amount.
pub proof fn lemma_share_bounds(amount: int, rate: int)
    requires
        0 <= amount,
        0 <= rate <= 10000,
    ensures
        0 <= share_of(amount, rate) <= amount,
        rate == 0 ==> share_of(amount, rate) == 0,
        rate < 10000 && amount > 0 ==> share_of(amount, rate) < amount,
{
    assert(0 <= amount * rate <= amount * 10000) by (nonlinear_arith)
        requires
            0 <= amount,
            0 <= rate <= 10000,
    ;
    assert(rate < 10000 && amount > 0 ==> amount * rate < amount * 10000) by (nonlinear_arith)
        requires
            0 <= amount,
            0 <= rate <= 10000,
    ;
    assert(rate == 0 ==> amount * rate == 0) by (nonlinear_arith);
}

} // verus!
