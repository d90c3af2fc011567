//! The commission rule: how a ticket's price is divided on a resale.

use vstd::prelude::*;

verus! {

/// Share of a resale price that goes to the organizer, in percent.
pub const COMMISSION_PERCENT: i128 = 30;

/// What the commission is a share of.
pub const PERCENT_BASE: i128 = 100;

/// The organizer's commission on a resale at `price`: thirty percent of it,
/// rounded down.
pub open spec fn organizer_fee(price: int) -> int {
    price * (COMMISSION_PERCENT as int) / (PERCENT_BASE as int)
}

/// What is left of `price` for the seller once the commission is taken.
pub open spec fn seller_amount(price: int) -> int {
    price - organizer_fee(price)
}

/// The commission and the seller's share always add up to the price, and for
/// a price that is not negative neither share is negative.
pub proof fn lemma_split_is_exact(price: int)
    ensures
        organizer_fee(price) + seller_amount(price) == price,
        price >= 0 ==> 0 <= organizer_fee(price) <= price,
        price >= 0 ==> 0 <= seller_amount(price) <= price,
{
}

/// Both shares of any 128-bit price fit in 128 bits.
pub proof fn lemma_split_fits(price: i128)
    ensures
        i128::MIN <= organizer_fee(price as int) <= i128::MAX,
        i128::MIN <= seller_amount(price as int) <= i128::MAX,
{
}

/// Computes the organizer's commission on `price`.
///
/// The product `price * 30` is never formed, so no price overflows.
pub fn commission(price: i128) -> (fee: i128)
    ensures
        fee == organizer_fee(price as int),
{
    let whole: i128 = match price.checked_div_euclid(PERCENT_BASE) {
        Some(q) => q,
        None => 0,
    };
    let part: i128 = match price.checked_rem_euclid(PERCENT_BASE) {
        Some(r) => r,
        None => 0,
    };
    assert(price == whole * 100 + part && 0 <= part < 100);
    whole * COMMISSION_PERCENT + part * COMMISSION_PERCENT / PERCENT_BASE
}

/// Computes the seller's share of a resale at `price`.
pub fn seller_share(price: i128) -> (share: i128)
    ensures
        share == seller_amount(price as int),
{
    proof {
        lemma_split_fits(price);
    }
    price - commission(price)
}

} // verus!
