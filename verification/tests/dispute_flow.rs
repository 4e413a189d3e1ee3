use subscription_vault::accounting::{add_total_accounted, get_total_accounted, sub_total_accounted};
use subscription_vault::dispute::{
    do_get_dispute, do_get_subscription_dispute, do_open_dispute, do_resolve_dispute,
    do_respond_dispute, TokenTransfer,
};
use subscription_vault::invariants::assert_token_balance_invariant;
use subscription_vault::state::VaultState;
use subscription_vault::types::{
    Address, AddressKind, DisputeStatus, Error, Subscription, SubscriptionStatus,
    DISPUTE_WINDOW_SECS, EVENT_SCHEMA_VERSION,
};

fn account(n: u128) -> Address {
    Address { kind: AddressKind::Account, key_hi: 0, key_lo: n }
}

fn contract(n: u128) -> Address {
    Address { kind: AddressKind::Contract, key_hi: n, key_lo: 0 }
}

const T0: u64 = 1_700_000_000;
const SUB_ID: u32 = 4;

struct Fixture {
    state: VaultState,
    admin: Address,
    subscriber: Address,
    merchant: Address,
    token: Address,
}

fn setup(merchant_balance: i128) -> Fixture {
    let admin = account(100);
    let subscriber = account(1);
    let merchant = account(2);
    let token = contract(9);
    let mut state = VaultState::new();
    state.admin = Some(admin);
    state.subscriptions.insert(
        SUB_ID,
        Subscription {
            subscriber,
            merchant,
            token,
            amount: 1_000,
            interval_seconds: 2_592_000,
            last_payment_timestamp: T0,
            status: SubscriptionStatus::Active,
            prepaid_balance: 5_000,
            usage_enabled: false,
            lifetime_cap: None,
            lifetime_charged: 1_000,
            start_time: T0,
            expires_at: None,
            grace_start_timestamp: None,
            cancel_at: None,
        },
    );
    state.set_merchant_balance(&merchant, &token, merchant_balance);
    state.merchants.push(merchant);
    state.total_accounted.insert(token, 10_000);
    Fixture { state, admin, subscriber, merchant, token }
}

#[test]
fn open_dispute_moves_amount_into_escrow() {
    let mut f = setup(1_000);
    let (id, ev) = do_open_dispute(&mut f.state, f.subscriber, SUB_ID, 400, Some([7u8; 32]), T0).unwrap();
    assert_eq!(id, 0);
    assert_eq!(f.state.get_merchant_balance_by_token(&f.merchant, &f.token), 600);
    assert_eq!(f.state.dispute_escrow.get(&id), Some(400));
    assert_eq!(do_get_subscription_dispute(&f.state, SUB_ID), Some(id));
    let d = do_get_dispute(&f.state, id).unwrap();
    assert_eq!(d.status, DisputeStatus::Open);
    assert_eq!(d.amount, 400);
    assert_eq!(d.opened_at, T0);
    assert_eq!(d.subscriber, f.subscriber);
    assert_eq!(d.merchant, f.merchant);
    assert_eq!(d.evidence_hash, Some([7u8; 32]));
    assert_eq!(ev.dispute_id, id);
    assert_eq!(ev.amount, 400);
    assert_eq!(ev.timestamp, T0);
    assert_eq!(ev.schema_version, EVENT_SCHEMA_VERSION);
    assert_eq!(f.state.next_dispute_id, Some(1));
}

#[test]
fn open_dispute_checks_in_order() {
    let mut f = setup(1_000);
    assert_eq!(do_open_dispute(&mut f.state, f.subscriber, SUB_ID, 0, None, T0).unwrap_err(), Error::InvalidAmount);
    assert_eq!(do_open_dispute(&mut f.state, f.subscriber, SUB_ID, -5, None, T0).unwrap_err(), Error::InvalidAmount);
    assert_eq!(do_open_dispute(&mut f.state, f.subscriber, 99, 10, None, T0).unwrap_err(), Error::NotFound);
    assert_eq!(do_open_dispute(&mut f.state, f.merchant, SUB_ID, 10, None, T0).unwrap_err(), Error::Unauthorized);
    assert_eq!(
        do_open_dispute(&mut f.state, f.subscriber, SUB_ID, 1_001, None, T0).unwrap_err(),
        Error::InsufficientBalance
    );
    // Refused requests leave the state unchanged.
    assert_eq!(f.state.get_merchant_balance_by_token(&f.merchant, &f.token), 1_000);
    assert_eq!(f.state.next_dispute_id, None);
    assert_eq!(do_get_subscription_dispute(&f.state, SUB_ID), None);
}

#[test]
fn double_open_is_rejected() {
    let mut f = setup(1_000);
    do_open_dispute(&mut f.state, f.subscriber, SUB_ID, 100, None, T0).unwrap();
    assert_eq!(
        do_open_dispute(&mut f.state, f.subscriber, SUB_ID, 100, None, T0 + 1).unwrap_err(),
        Error::DisputeAlreadyOpen
    );
    assert_eq!(f.state.get_merchant_balance_by_token(&f.merchant, &f.token), 900);
}

#[test]
fn respond_then_resolve_to_merchant_restores_balance() {
    let mut f = setup(1_000);
    let (id, _) = do_open_dispute(&mut f.state, f.subscriber, SUB_ID, 400, None, T0).unwrap();
    let ev = do_respond_dispute(&mut f.state, f.admin, id, Some([1u8; 32]), T0 + 10).unwrap();
    assert_eq!(ev.subscription_id, SUB_ID);
    assert_eq!(ev.timestamp, T0 + 10);
    let d = do_get_dispute(&f.state, id).unwrap();
    assert_eq!(d.status, DisputeStatus::Responded);
    assert_eq!(d.responded_at, Some(T0 + 10));
    assert_eq!(d.admin_evidence_hash, Some([1u8; 32]));
    assert_eq!(f.state.get_merchant_balance_by_token(&f.merchant, &f.token), 600);

    let res = do_resolve_dispute(&mut f.state, f.admin, id, false, T0 + 20).unwrap();
    assert_eq!(res.event.resolution, DisputeStatus::ResolvedToMerchant);
    assert!(res.payout.is_none());
    assert_eq!(f.state.get_merchant_balance_by_token(&f.merchant, &f.token), 1_000);
    assert_eq!(f.state.dispute_escrow.get(&id), None);
    assert_eq!(do_get_subscription_dispute(&f.state, SUB_ID), None);
    assert_eq!(get_total_accounted(&f.state, &f.token), 10_000);
    assert_eq!(do_get_dispute(&f.state, id).unwrap().status, DisputeStatus::ResolvedToMerchant);
}

#[test]
fn resolve_to_subscriber_pays_out_escrow() {
    let mut f = setup(1_000);
    let (id, _) = do_open_dispute(&mut f.state, f.subscriber, SUB_ID, 400, None, T0).unwrap();
    do_respond_dispute(&mut f.state, f.admin, id, None, T0 + 10).unwrap();
    let res = do_resolve_dispute(&mut f.state, f.admin, id, true, T0 + 20).unwrap();
    assert_eq!(res.event.resolution, DisputeStatus::ResolvedToSubscriber);
    assert_eq!(res.payout, Some(TokenTransfer { token: f.token, to: f.subscriber, amount: 400 }));
    assert_eq!(get_total_accounted(&f.state, &f.token), 9_600);
    assert_eq!(f.state.get_merchant_balance_by_token(&f.merchant, &f.token), 600);
}

#[test]
fn unanswered_dispute_needs_the_window_to_elapse() {
    let mut f = setup(1_000);
    let (id, _) = do_open_dispute(&mut f.state, f.subscriber, SUB_ID, 400, None, T0).unwrap();
    assert_eq!(
        do_resolve_dispute(&mut f.state, f.admin, id, false, T0 + DISPUTE_WINDOW_SECS - 1).unwrap_err(),
        Error::DisputeNotResponded
    );
    // After the window the subscriber wins whatever the admin asks for.
    let res = do_resolve_dispute(&mut f.state, f.admin, id, false, T0 + DISPUTE_WINDOW_SECS).unwrap();
    assert_eq!(res.event.resolution, DisputeStatus::ResolvedToSubscriber);
    assert_eq!(res.payout.unwrap().amount, 400);
}

#[test]
fn resolved_dispute_is_final_and_subscription_can_dispute_again() {
    let mut f = setup(1_000);
    let (id, _) = do_open_dispute(&mut f.state, f.subscriber, SUB_ID, 400, None, T0).unwrap();
    do_respond_dispute(&mut f.state, f.admin, id, None, T0 + 1).unwrap();
    do_resolve_dispute(&mut f.state, f.admin, id, false, T0 + 2).unwrap();
    assert_eq!(
        do_resolve_dispute(&mut f.state, f.admin, id, true, T0 + 3).unwrap_err(),
        Error::DisputeAlreadyResolved
    );
    assert_eq!(
        do_respond_dispute(&mut f.state, f.admin, id, None, T0 + 3).unwrap_err(),
        Error::DisputeAlreadyResponded
    );
    let (id2, _) = do_open_dispute(&mut f.state, f.subscriber, SUB_ID, 50, None, T0 + 4).unwrap();
    assert_eq!(id2, id + 1);
}

#[test]
fn admin_only_operations() {
    let mut f = setup(1_000);
    let (id, _) = do_open_dispute(&mut f.state, f.subscriber, SUB_ID, 400, None, T0).unwrap();
    assert_eq!(do_respond_dispute(&mut f.state, f.merchant, id, None, T0).unwrap_err(), Error::Unauthorized);
    assert_eq!(do_resolve_dispute(&mut f.state, f.merchant, id, true, T0).unwrap_err(), Error::Unauthorized);
    assert_eq!(do_respond_dispute(&mut f.state, f.admin, id + 7, None, T0).unwrap_err(), Error::DisputeNotFound);
    assert_eq!(do_resolve_dispute(&mut f.state, f.admin, id + 7, true, T0).unwrap_err(), Error::DisputeNotFound);
    assert_eq!(do_get_dispute(&f.state, id + 7).unwrap_err(), Error::DisputeNotFound);
    let mut uninit = VaultState::new();
    assert_eq!(do_respond_dispute(&mut uninit, f.admin, id, None, T0).unwrap_err(), Error::NotInitialized);
}

#[test]
fn resolve_requires_a_positive_escrow() {
    let mut f = setup(1_000);
    let (id, _) = do_open_dispute(&mut f.state, f.subscriber, SUB_ID, 400, None, T0).unwrap();
    do_respond_dispute(&mut f.state, f.admin, id, None, T0 + 1).unwrap();
    f.state.dispute_escrow.remove(&id);
    assert_eq!(
        do_resolve_dispute(&mut f.state, f.admin, id, false, T0 + 2).unwrap_err(),
        Error::InsufficientBalance
    );
    assert_eq!(do_get_dispute(&f.state, id).unwrap().status, DisputeStatus::Responded);
}

#[test]
fn total_accounted_add_and_sub() {
    let mut s = VaultState::new();
    let t = contract(1);
    assert_eq!(get_total_accounted(&s, &t), 0);
    assert_eq!(add_total_accounted(&mut s, &t, -1), Err(Error::InvalidAmount));
    assert_eq!(add_total_accounted(&mut s, &t, 500), Ok(()));
    assert_eq!(get_total_accounted(&s, &t), 500);
    assert_eq!(sub_total_accounted(&mut s, &t, 700), Ok(()));
    assert_eq!(get_total_accounted(&s, &t), -200);
    assert_eq!(sub_total_accounted(&mut s, &t, -1), Err(Error::InvalidAmount));
    assert_eq!(add_total_accounted(&mut s, &t, i128::MAX), Ok(()));
    assert_eq!(add_total_accounted(&mut s, &t, 201), Err(Error::Overflow));
    assert_eq!(get_total_accounted(&s, &t), i128::MAX - 200);
    let u = contract(2);
    s.total_accounted.insert(u, i128::MIN + 5);
    assert_eq!(sub_total_accounted(&mut s, &u, 6), Err(Error::Underflow));
    assert_eq!(sub_total_accounted(&mut s, &u, 5), Ok(()));
    assert_eq!(get_total_accounted(&s, &u), i128::MIN);
}

#[test]
fn token_balance_invariant() {
    let mut f = setup(1_000);
    let other = account(3);
    f.state.set_merchant_balance(&other, &f.token, 250);
    f.state.merchants.push(other);
    assert_eq!(assert_token_balance_invariant(&f.state, &f.token, 1_250), Ok(()));
    assert_eq!(
        assert_token_balance_invariant(&f.state, &f.token, 1_249),
        Err(Error::InvariantViolation)
    );
    // A merchant without a balance in the token contributes zero.
    assert_eq!(assert_token_balance_invariant(&f.state, &contract(77), 0), Ok(()));
    f.state.set_merchant_balance(&other, &f.token, i128::MAX);
    assert_eq!(assert_token_balance_invariant(&f.state, &f.token, 0), Err(Error::Overflow));
}

#[test]
fn adding_then_subtracting_restores_the_total() {
    let mut s = VaultState::new();
    let t = contract(5);
    s.total_accounted.insert(t, 1_234);
    add_total_accounted(&mut s, &t, 766).unwrap();
    assert_eq!(get_total_accounted(&s, &t), 2_000);
    sub_total_accounted(&mut s, &t, 766).unwrap();
    assert_eq!(get_total_accounted(&s, &t), 1_234);
}

#[test]
fn resolve_reports_arithmetic_and_lookup_failures() {
    // Crediting the merchant back would overflow.
    let mut f = setup(1_000);
    let (id, _) = do_open_dispute(&mut f.state, f.subscriber, SUB_ID, 400, None, T0).unwrap();
    do_respond_dispute(&mut f.state, f.admin, id, None, T0 + 1).unwrap();
    f.state.set_merchant_balance(&f.merchant, &f.token, i128::MAX);
    assert_eq!(do_resolve_dispute(&mut f.state, f.admin, id, false, T0 + 2).unwrap_err(), Error::Overflow);
    assert_eq!(f.state.dispute_escrow.get(&id), Some(400));

    // Taking the escrow out of the accounted total would underflow.
    let mut g = setup(1_000);
    let (id, _) = do_open_dispute(&mut g.state, g.subscriber, SUB_ID, 400, None, T0).unwrap();
    do_respond_dispute(&mut g.state, g.admin, id, None, T0 + 1).unwrap();
    g.state.total_accounted.insert(g.token, i128::MIN + 399);
    assert_eq!(do_resolve_dispute(&mut g.state, g.admin, id, true, T0 + 2).unwrap_err(), Error::Underflow);
    assert_eq!(do_get_subscription_dispute(&g.state, SUB_ID), Some(id));

    // The disputed subscription has disappeared.
    let mut h = setup(1_000);
    let (id, _) = do_open_dispute(&mut h.state, h.subscriber, SUB_ID, 400, None, T0).unwrap();
    do_respond_dispute(&mut h.state, h.admin, id, None, T0 + 1).unwrap();
    h.state.subscriptions.remove(&SUB_ID);
    assert_eq!(do_resolve_dispute(&mut h.state, h.admin, id, true, T0 + 2).unwrap_err(), Error::NotFound);
}

#[test]
fn escrow_tracks_the_active_dispute_only() {
    let mut f = setup(1_000);
    let (a, _) = do_open_dispute(&mut f.state, f.subscriber, SUB_ID, 300, None, T0).unwrap();
    assert_eq!(f.state.dispute_escrow.get(&a), Some(300));
    do_respond_dispute(&mut f.state, f.admin, a, None, T0 + 1).unwrap();
    assert_eq!(f.state.dispute_escrow.get(&a), Some(300));
    assert_eq!(f.state.get_merchant_balance_by_token(&f.merchant, &f.token) + 300, 1_000);
    do_resolve_dispute(&mut f.state, f.admin, a, true, T0 + 2).unwrap();
    assert_eq!(f.state.dispute_escrow.get(&a), None);
    assert_eq!(do_get_dispute(&f.state, a).unwrap().amount, 300);
}

fn funds(f: &Fixture, ids: &[u64]) -> i128 {
    let mut total = f.state.get_merchant_balance_by_token(&f.merchant, &f.token);
    for id in ids {
        if let Ok(d) = do_get_dispute(&f.state, *id) {
            if d.status == DisputeStatus::Open || d.status == DisputeStatus::Responded {
                total += f.state.dispute_escrow.get(id).unwrap_or(0);
            }
        }
    }
    total
}

#[test]
fn merchant_funds_are_conserved_across_disputes() {
    let mut f = setup(1_000);
    let mut second = f.state.subscriptions.get(&SUB_ID).unwrap();
    second.prepaid_balance = 0;
    f.state.subscriptions.insert(SUB_ID + 1, second);
    let (a, _) = do_open_dispute(&mut f.state, f.subscriber, SUB_ID, 300, None, T0).unwrap();
    assert_eq!(funds(&f, &[a]), 1_000);
    let (b, _) = do_open_dispute(&mut f.state, f.subscriber, SUB_ID + 1, 500, None, T0).unwrap();
    assert_eq!(f.state.get_merchant_balance_by_token(&f.merchant, &f.token), 200);
    assert_eq!(funds(&f, &[a, b]), 1_000);
    do_respond_dispute(&mut f.state, f.admin, a, None, T0 + 1).unwrap();
    assert_eq!(funds(&f, &[a, b]), 1_000);
    do_resolve_dispute(&mut f.state, f.admin, a, false, T0 + 2).unwrap();
    assert_eq!(funds(&f, &[a, b]), 1_000);
    // Paying the subscriber takes exactly the payout out of the merchant's funds.
    let res = do_resolve_dispute(&mut f.state, f.admin, b, true, T0 + DISPUTE_WINDOW_SECS).unwrap();
    assert_eq!(res.payout.unwrap().amount, 500);
    assert_eq!(funds(&f, &[a, b]), 500);
}

#[test]
fn active_dispute_follows_opens_and_resolutions() {
    let mut f = setup(1_000);
    assert_eq!(do_get_subscription_dispute(&f.state, SUB_ID), None);
    let (a, _) = do_open_dispute(&mut f.state, f.subscriber, SUB_ID, 100, None, T0).unwrap();
    assert_eq!(do_get_subscription_dispute(&f.state, SUB_ID), Some(a));
    do_respond_dispute(&mut f.state, f.admin, a, None, T0 + 1).unwrap();
    assert_eq!(do_get_subscription_dispute(&f.state, SUB_ID), Some(a));
    // A refused resolution leaves it active.
    assert!(do_resolve_dispute(&mut f.state, f.merchant, a, false, T0 + 2).is_err());
    assert_eq!(do_get_subscription_dispute(&f.state, SUB_ID), Some(a));
    do_resolve_dispute(&mut f.state, f.admin, a, false, T0 + 2).unwrap();
    assert_eq!(do_get_subscription_dispute(&f.state, SUB_ID), None);
    let (b, _) = do_open_dispute(&mut f.state, f.subscriber, SUB_ID, 100, None, T0 + 3).unwrap();
    assert_eq!(do_get_subscription_dispute(&f.state, SUB_ID), Some(b));
}
