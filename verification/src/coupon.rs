//! Merchant-managed discount coupons and the discount they give on a charge.

use vstd::prelude::*;
use crate::types::Address;

verus! {

/// Merchant-managed discount coupon.
///
/// Coupons are identified by a unique symbol code; a subscription binds at
/// most one coupon.
#[derive(Clone, Debug)]
pub struct Coupon {
    /// Human-readable coupon code (also the storage key).
    pub code: String,
    /// Merchant who created and owns this coupon.
    pub merchant: Address,
    /// Settlement token this coupon applies to.
    ///
    /// Must match the subscription's token when `apply_coupon` is called.
    pub token: Address,
    /// Percentage discount in basis points (0..=10_000). 0 = no percent discount.
    ///
    /// Applied first: `discounted = gross * (10_000 - bps) / 10_000`.
    pub percent_off_bps: u32,
    /// Fixed token-unit discount applied after the percentage discount. 0 = disabled.
    ///
    /// The final payable amount is clamped to zero if the combined discount
    /// exceeds the gross charge amount.
    pub fixed_off: i128,
    /// Maximum total subscriptions that may bind this coupon globally. 0 = unlimited.
    pub max_redemptions: u32,
    /// Ledger timestamp after which the coupon can no longer be applied. 0 = no expiry.
    pub expires_at: u64,
    /// Set to `true` when the merchant explicitly revokes this coupon.
    pub revoked: bool,
}

/// Basis points in a whole (100%).
pub const BPS_DENOMINATOR: i128 = 10_000;

/// What remains payable of `gross` after a discount of `bps` basis points and then
/// a fixed discount of `fixed_off`, clamped to zero.
pub open spec fn payable_after_discount(gross: int, bps: int, fixed_off: int) -> int {
    let discounted = gross * (10_000 - bps) / 10_000;
    if discounted > fixed_off {
        discounted - fixed_off
    } else {
        0
    }
}

/// The discount `coupon` gives on a gross charge of `gross`: the percentage
/// discount is applied first (`discounted = gross * (10_000 - bps) / 10_000`),
/// then the fixed discount, and the payable amount is clamped to zero; the
/// discount is `gross - payable`, so it never exceeds the gross amount.
pub fn compute_discount(gross: i128, coupon: &Coupon) -> (discount: i128)
    requires
        0 <= gross,
        coupon.percent_off_bps <= 10_000,
        0 <= coupon.fixed_off,
        gross * (10_000 - coupon.percent_off_bps) <= i128::MAX,
    ensures
        discount == gross - payable_after_discount(
            gross as int,
            coupon.percent_off_bps as int,
            coupon.fixed_off as int,
        ),
        0 <= discount <= gross,
{
    let keep_bps: i128 = (10_000 - coupon.percent_off_bps) as i128;
    assert(0 <= gross * keep_bps <= gross * 10_000) by (nonlinear_arith)
        requires 0 <= gross, 0 <= keep_bps <= 10_000;
    let discounted = gross * keep_bps / BPS_DENOMINATOR;
    assert(0 <= discounted <= gross) by (nonlinear_arith)
        requires 0 <= gross * keep_bps <= gross * 10_000, discounted == gross * keep_bps / 10_000;
    let payable = if discounted > coupon.fixed_off {
        discounted - coupon.fixed_off
    } else {
        0
    };
    gross - payable
}

/// The two discounts of a coupon on their own: with no fixed discount, the
/// discount is the percentage part, `gross - gross * (10_000 - bps) / 10_000`
/// (all of `gross` at 10_000 bps, nothing at 0 bps); with no percentage discount,
/// it is the fixed discount capped at the gross amount. A larger fixed discount
/// never gives a smaller discount.
pub proof fn lemma_discount_parts(gross: int, bps: int, fixed_off: int, fixed_off2: int)
    requires
        0 <= gross,
        0 <= bps <= 10_000,
        0 <= fixed_off <= fixed_off2,
    ensures
        gross - payable_after_discount(gross, bps, 0) == gross - gross * (10_000 - bps) / 10_000,
        gross - payable_after_discount(gross, 10_000, fixed_off) == gross,
        gross - payable_after_discount(gross, 0, 0) == 0,
        gross - payable_after_discount(gross, 0, fixed_off) == if fixed_off < gross {
            fixed_off
        } else {
            gross
        },
        payable_after_discount(gross, bps, fixed_off2) <= payable_after_discount(gross, bps, fixed_off),
{
    assert(0 <= gross * (10_000 - bps)) by (nonlinear_arith)
        requires 0 <= gross, 0 <= bps <= 10_000;
    assert(gross * 10_000 / 10_000 == gross) by (nonlinear_arith);
    assert(gross * (10_000 - 10_000) == 0) by (nonlinear_arith);
}

} // verus!
