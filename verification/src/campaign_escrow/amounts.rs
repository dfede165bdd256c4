//! Shares of an amount, in basis points.
use vstd::prelude::*;

use crate::campaign_escrow::error::Error;
use crate::shared::BASIS_POINTS_DENOMINATOR;

verus! {

/// Whether `x` is an amount that the ledger can hold.
pub open spec fn fits(x: int) -> bool {
    i128::MIN <= x <= i128::MAX
}

/// `bps` basis points of `amount`, rounded towards zero.
pub open spec fn share(amount: int, bps: int) -> int {
    if amount * bps >= 0 {
        amount * bps / BASIS_POINTS_DENOMINATOR as int
    } else {
        -(-(amount * bps) / BASIS_POINTS_DENOMINATOR as int)
    }
}

/// `bps` basis points of `amount`. Refused where the product of the two does
/// not fit, even if the share itself would.
pub fn share_of(amount: i128, bps: i128) -> (r: Result<i128, Error>)
    ensures
        if fits(amount * bps) {
            r is Ok && r->Ok_0 == share(amount as int, bps as int)
        } else {
            r == Err::<i128, Error>(Error::InvalidAmount)
        },
{
    let product: i128 = amount.checked_mul(bps).ok_or(Error::InvalidAmount)?;
    Ok(product / BASIS_POINTS_DENOMINATOR)
}

/// A share is the part of the product that divides by ten thousand; what is cut
/// off is less than one unit, and is cut off towards zero.
pub proof fn law_share_cuts_off_less_than_a_unit(amount: int, bps: int)
    ensures
        ({
            let cut = amount * bps - share(amount, bps) * 10_000;
            &&& -10_000 < cut < 10_000
            &&& amount * bps >= 0 ==> cut >= 0 && share(amount, bps) >= 0
            &&& amount * bps <= 0 ==> cut <= 0 && share(amount, bps) <= 0
        }),
{
}

/// A share of at most the whole of a non-negative amount lies between nothing
/// and the amount.
pub proof fn lemma_share_bounds(amount: int, bps: int)
    requires
        0 <= amount,
        0 <= bps <= BASIS_POINTS_DENOMINATOR,
    ensures
        0 <= share(amount, bps) <= amount,
        amount * bps <= amount * BASIS_POINTS_DENOMINATOR,
{
    assert(0 <= amount * bps <= amount * 10_000) by (nonlinear_arith)
        requires
            0 <= amount,
            0 <= bps <= 10_000,
    ;
}

} // verus!
