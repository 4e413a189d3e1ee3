use subscription_vault::amounts::{denormalize_amount, normalize_amount};
use subscription_vault::coupon::{compute_discount, Coupon};
use subscription_vault::state::VaultState;
use subscription_vault::types::{
    is_valid_allowed_operations, Address, AddressKind, Error, InsufficientBalanceError, Subscription,
    SubscriptionStatus, DEFAULT_ALLOWED_OPS, OP_AUTO_RENEWAL, OP_BILLING_PAUSE, OP_CHARGE, OP_REFUND,
    OP_WITHDRAW,
};

fn addr(n: u128) -> Address {
    Address { kind: AddressKind::Account, key_hi: 0, key_lo: n }
}

fn subscription(expires_at: Option<u64>) -> Subscription {
    Subscription {
        subscriber: addr(1),
        merchant: addr(2),
        token: addr(3),
        amount: 1_000,
        interval_seconds: 86_400,
        last_payment_timestamp: 0,
        status: SubscriptionStatus::Active,
        prepaid_balance: 0,
        usage_enabled: false,
        lifetime_cap: None,
        lifetime_charged: 0,
        start_time: 0,
        expires_at,
        grace_start_timestamp: None,
        cancel_at: None,
    }
}

#[test]
fn error_codes_are_stable() {
    assert_eq!(Error::Unauthorized.to_code(), 1001);
    assert_eq!(Error::NotFound.to_code(), 2001);
    assert_eq!(Error::InvalidAmount.to_code(), 3001);
    assert_eq!(Error::InvalidStatusTransition.to_code(), 4001);
    assert_eq!(Error::InsufficientBalance.to_code(), 5001);
    assert_eq!(Error::Underflow.to_code(), 5004);
    assert_eq!(Error::Overflow.to_code(), 5005);
    assert_eq!(Error::InvariantViolation.to_code(), 5009);
    assert_eq!(Error::CouponTokenMismatch.to_code(), 6017);
    assert_eq!(Error::InvalidFeeBips.to_code(), 7001);
    assert_eq!(Error::InvalidToken.to_code(), 8002);
    assert_eq!(Error::CannotChangeUsageMode.to_code(), 9001);
    assert_eq!(Error::SchemaMigrationDowngrade.to_code(), 9101);
    assert_eq!(Error::DisputeNotFound.to_code(), 10001);
    assert_eq!(Error::DisputeAlreadyResponded.to_code(), 10006);
}

#[test]
fn allowed_operations_bitmap() {
    assert!(is_valid_allowed_operations(0));
    assert!(is_valid_allowed_operations(DEFAULT_ALLOWED_OPS));
    assert!(is_valid_allowed_operations(
        OP_CHARGE | OP_WITHDRAW | OP_REFUND | OP_BILLING_PAUSE | OP_AUTO_RENEWAL
    ));
    assert!(is_valid_allowed_operations(31));
    assert!(!is_valid_allowed_operations(32));
    assert!(!is_valid_allowed_operations(0x21));
    assert!(!is_valid_allowed_operations(-1));
    assert!(!is_valid_allowed_operations(i32::MIN));
}

#[test]
fn subscription_expiry() {
    let never = subscription(None);
    assert!(!never.is_expired(u64::MAX));
    let sub = subscription(Some(100));
    assert!(!sub.is_expired(99));
    assert!(sub.is_expired(100));
    assert!(sub.is_expired(101));
}

#[test]
fn insufficient_balance_shortfall() {
    let e = InsufficientBalanceError::new(300, 1_000);
    assert_eq!(e.available, 300);
    assert_eq!(e.required, 1_000);
    assert_eq!(e.shortfall(), 700);
    assert_eq!(InsufficientBalanceError::new(1_000, 300).shortfall(), -700);
}

fn coupon(percent_off_bps: u32, fixed_off: i128) -> Coupon {
    Coupon {
        code: String::from("DUMMY"),
        merchant: addr(7),
        token: addr(7),
        percent_off_bps,
        fixed_off,
        max_redemptions: 0,
        expires_at: 0,
        revoked: false,
    }
}

#[test]
fn test_discount_math() {
    // 100% off -> discount = gross
    assert_eq!(compute_discount(1000, &coupon(10000, 0)), 1000);
    // 20% off -> discount = 200
    assert_eq!(compute_discount(1000, &coupon(2000, 0)), 200);
    // Fixed only -> discount = 300
    assert_eq!(compute_discount(1000, &coupon(0, 300)), 300);
    // 20% off then 100 off (1000 -> 800 -> 700 payable, discount 300)
    assert_eq!(compute_discount(1000, &coupon(2000, 100)), 300);
    // Clamp to zero: 20% off then 900 off (1000 -> 800 -> 0 payable, discount 1000)
    assert_eq!(compute_discount(1000, &coupon(2000, 900)), 1000);
}

#[test]
fn discount_rounds_the_payable_amount_down() {
    // 999 * 6667 / 10000 = 666.03 -> 666 payable, discount 333
    assert_eq!(compute_discount(999, &coupon(3333, 0)), 333);
    assert_eq!(compute_discount(0, &coupon(5000, 10)), 0);
}

fn with_decimals(token: Address, decimals: u32) -> VaultState {
    let mut s = VaultState::new();
    s.token_decimals.insert(token, decimals);
    s
}

#[test]
fn normalize_scales_up_small_decimals() {
    let t = addr(3);
    let s = with_decimals(t, 6);
    assert_eq!(normalize_amount(&s, &t, 5), Ok(5_000));
    assert_eq!(normalize_amount(&s, &t, -5), Ok(-5_000));
    assert_eq!(denormalize_amount(&s, &t, 5_000), Ok(5));
    assert_eq!(denormalize_amount(&s, &t, 5_001), Err(Error::InvalidInput));
    assert_eq!(normalize_amount(&s, &t, i128::MAX), Err(Error::Overflow));
    let nine = with_decimals(t, 9);
    assert_eq!(normalize_amount(&nine, &t, 12_345), Ok(12_345));
}

#[test]
fn normalize_scales_down_large_decimals() {
    let t = addr(3);
    let s = with_decimals(t, 12);
    assert_eq!(normalize_amount(&s, &t, 7_000), Ok(7));
    assert_eq!(normalize_amount(&s, &t, -7_000), Ok(-7));
    assert_eq!(normalize_amount(&s, &t, 7_001), Err(Error::InvalidInput));
    assert_eq!(normalize_amount(&s, &t, -7_001), Err(Error::InvalidInput));
    assert_eq!(denormalize_amount(&s, &t, 7), Ok(7_000));
    assert_eq!(denormalize_amount(&s, &t, i128::MIN), Err(Error::Overflow));
}

#[test]
fn normalize_rejects_unknown_or_zero_decimals() {
    let t = addr(3);
    let empty = VaultState::new();
    assert_eq!(normalize_amount(&empty, &t, 1), Err(Error::InvalidToken));
    assert_eq!(denormalize_amount(&empty, &t, 1), Err(Error::InvalidToken));
    let zero = with_decimals(t, 0);
    assert_eq!(normalize_amount(&zero, &t, 1), Err(Error::InvalidTokenDecimals));
    assert_eq!(denormalize_amount(&zero, &t, 1), Err(Error::InvalidTokenDecimals));
}

#[test]
fn normalize_round_trip_examples() {
    let t = addr(3);
    for d in [1u32, 6, 7, 9, 10, 18, 47] {
        let s = with_decimals(t, d);
        for raw in [0i128, 1, -1, 1_000_000_000_000_000_000, -123_000_000_000_000_000_000] {
            if let Ok(n) = normalize_amount(&s, &t, raw) {
                assert_eq!(denormalize_amount(&s, &t, n), Ok(raw));
            }
        }
    }
}
