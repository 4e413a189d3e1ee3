//! What the dispute operations do, stated directly in terms of their inputs and
//! results: when each succeeds, which error refuses it, and what an accepted call
//! returns and stores.

use vstd::prelude::*;
use crate::dispute::TokenTransfer;
use crate::state::VaultModel;
use crate::types::{Address, Dispute, DisputeStatus, Error, DISPUTE_WINDOW_SECS};

verus! {

// ── Opening ──────────────────────────────────────────────────────────────────

/// An open succeeds exactly when the amount is positive, the subscription exists,
/// the caller is its subscriber, it has no active dispute and the merchant's balance
/// in its token covers the amount. The returned id is the stored next dispute id
/// (0 when none is stored); the returned event names the caller as subscriber and
/// the subscription's merchant as merchant, and carries the id, subscription,
/// amount, evidence hash, time and schema version 2; the stored dispute record
/// agrees with the event field by field, is `Open` and has no response.
pub proof fn lemma_open_result(
    s: VaultModel,
    subscriber: Address,
    subscription_id: u32,
    amount: i128,
    evidence_hash: Option<[u8; 32]>,
    now: u64,
)
    ensures
        ({
            let r = s.open_dispute_spec(subscriber, subscription_id, amount, evidence_hash, now);
            let sub = s.subscriptions[subscription_id];
            let balance = match s.merchant_balances.get(
                crate::state::MerchantToken { merchant: sub.merchant, token: sub.token },
            ) {
                Some(b) => b as int,
                None => 0int,
            };
            &&& (r is Ok) == (amount > 0 && s.subscriptions.contains_key(subscription_id) && sub.subscriber == subscriber
                && !s.subscription_disputes.contains_key(subscription_id) && balance >= amount)
            &&& r matches Ok((s1, (id, ev))) ==> {
                &&& id == match s.next_dispute_id {
                    Some(n) => n,
                    None => 0u64,
                }
                &&& ev.dispute_id == id
                &&& ev.subscription_id == subscription_id
                &&& ev.subscriber == subscriber
                &&& ev.merchant == sub.merchant
                &&& ev.amount == amount
                &&& ev.evidence_hash == evidence_hash
                &&& ev.timestamp == now
                &&& ev.schema_version == 2
                &&& s1.disputes.contains_key(id)
                &&& s1.disputes[id].id == ev.dispute_id
                &&& s1.disputes[id].subscription_id == ev.subscription_id
                &&& s1.disputes[id].subscriber == ev.subscriber
                &&& s1.disputes[id].merchant == ev.merchant
                &&& s1.disputes[id].amount == ev.amount
                &&& s1.disputes[id].evidence_hash == ev.evidence_hash
                &&& s1.disputes[id].opened_at == ev.timestamp
                &&& s1.disputes[id].status == DisputeStatus::Open
                &&& s1.disputes[id].responded_at is None
                &&& s1.disputes[id].admin_evidence_hash is None
                &&& s1.dispute_escrow.get(id) == Some(amount)
                &&& s1.subscription_disputes.get(subscription_id) == Some(id)
                &&& s1.merchant_balance(sub.merchant, sub.token) == balance - amount
                &&& s1.next_dispute_id == Some(crate::dispute::next_id_after(id))
                &&& forall|m: Address, t: Address| !(m == sub.merchant && t == sub.token) ==> #[trigger] s1.merchant_balance(
                    m,
                    t,
                ) == s.merchant_balance(m, t)
                &&& forall|other: u64| other != id ==> #[trigger] s1.disputes.get(other) == s.disputes.get(other)
                &&& forall|other: u64| other != id ==> #[trigger] s1.dispute_escrow.get(other) == s.dispute_escrow.get(
                    other,
                )
                &&& forall|sid: u32| sid != subscription_id ==> #[trigger] s1.subscription_disputes.get(sid)
                    == s.subscription_disputes.get(sid)
                &&& s1.admin == s.admin
                &&& s1.subscriptions == s.subscriptions
                &&& s1.total_accounted == s.total_accounted
                &&& s1.token_decimals == s.token_decimals
                &&& s1.merchants == s.merchants
            }
        }),
{
}

/// The refusals of an open, each on the inputs that pass the earlier checks:
/// a non-positive amount, an unknown subscription, a caller who is not its
/// subscriber, an active dispute, a balance short of the amount.
pub proof fn lemma_open_refusals(
    s: VaultModel,
    subscriber: Address,
    subscription_id: u32,
    amount: i128,
    evidence_hash: Option<[u8; 32]>,
    now: u64,
)
    ensures
        ({
            let r = s.open_dispute_spec(subscriber, subscription_id, amount, evidence_hash, now);
            let sub = s.subscriptions[subscription_id];
            &&& amount <= 0 ==> r == Err::<(VaultModel, (u64, crate::events::DisputeOpenedEvent)), Error>(
                Error::InvalidAmount,
            )
            &&& (amount > 0 && !s.subscriptions.contains_key(subscription_id)) ==> r == Err::<
                (VaultModel, (u64, crate::events::DisputeOpenedEvent)),
                Error,
            >(Error::NotFound)
            &&& (amount > 0 && s.subscriptions.contains_key(subscription_id) && sub.subscriber != subscriber) ==> r
                == Err::<(VaultModel, (u64, crate::events::DisputeOpenedEvent)), Error>(Error::Unauthorized)
            &&& (amount > 0 && s.subscriptions.contains_key(subscription_id) && sub.subscriber == subscriber
                && s.subscription_disputes.contains_key(subscription_id)) ==> r == Err::<
                (VaultModel, (u64, crate::events::DisputeOpenedEvent)),
                Error,
            >(Error::DisputeAlreadyOpen)
            &&& (amount > 0 && s.subscriptions.contains_key(subscription_id) && sub.subscriber == subscriber
                && !s.subscription_disputes.contains_key(subscription_id) && s.merchant_balance(
                sub.merchant,
                sub.token,
            ) < amount) ==> r == Err::<(VaultModel, (u64, crate::events::DisputeOpenedEvent)), Error>(
                Error::InsufficientBalance,
            )
        }),
{
}

// ── Responding ───────────────────────────────────────────────────────────────

/// A response is accepted only for an existing `Open` dispute, by the stored admin:
/// a dispute in any other status (already `Responded`, or resolved) is refused with
/// `DisputeAlreadyResponded`. An accepted response makes the dispute `Responded`
/// with the response time and the admin's evidence hash, leaves every other field
/// of the record, every other dispute, the escrows, the balances and the
/// active-dispute index as they were, and returns an event with the dispute's id
/// and subscription, the admin's evidence hash and the time.
pub proof fn lemma_respond_result(
    s: VaultModel,
    admin: Address,
    dispute_id: u64,
    evidence_hash: Option<[u8; 32]>,
    now: u64,
)
    ensures
        ({
            let r = s.respond_dispute_spec(admin, dispute_id, evidence_hash, now);
            let d = s.disputes[dispute_id];
            &&& (r is Ok) == (s.admin == Some(admin) && s.disputes.contains_key(dispute_id) && d.status
                == DisputeStatus::Open)
            &&& (s.admin == Some(admin) && !s.disputes.contains_key(dispute_id)) ==> r == Err::<
                (VaultModel, crate::events::DisputeRespondedEvent),
                Error,
            >(Error::DisputeNotFound)
            &&& (s.admin == Some(admin) && s.disputes.contains_key(dispute_id) && d.status != DisputeStatus::Open)
                ==> r == Err::<(VaultModel, crate::events::DisputeRespondedEvent), Error>(
                Error::DisputeAlreadyResponded,
            )
            &&& (s.admin.is_some() && s.admin != Some(admin)) ==> r == Err::<
                (VaultModel, crate::events::DisputeRespondedEvent),
                Error,
            >(Error::Unauthorized)
            &&& r matches Ok((s1, ev)) ==> {
                let d1 = s1.disputes[dispute_id];
                &&& s1.disputes.contains_key(dispute_id)
                &&& d1.status == DisputeStatus::Responded
                &&& d1.responded_at == Some(now)
                &&& d1.admin_evidence_hash == evidence_hash
                &&& d1.id == d.id
                &&& d1.subscription_id == d.subscription_id
                &&& d1.subscriber == d.subscriber
                &&& d1.merchant == d.merchant
                &&& d1.amount == d.amount
                &&& d1.opened_at == d.opened_at
                &&& d1.evidence_hash == d.evidence_hash
                &&& forall|other: u64| other != dispute_id ==> #[trigger] s1.disputes.get(other) == s.disputes.get(other)
                &&& s1.dispute_escrow == s.dispute_escrow
                &&& s1.merchant_balances == s.merchant_balances
                &&& s1.total_accounted == s.total_accounted
                &&& s1.subscription_disputes == s.subscription_disputes
                &&& ev.dispute_id == dispute_id
                &&& ev.subscription_id == d.subscription_id
                &&& ev.admin_evidence_hash == evidence_hash
                &&& ev.timestamp == now
                &&& ev.schema_version == 2
            }
        }),
{
}

// ── Resolving ────────────────────────────────────────────────────────────────

/// The admin decides a `Responded` dispute either way, at any time (whether or not
/// the dispute window has elapsed): with positive escrow, an existing subscription
/// and no overflow, resolving to the subscriber gives `ResolvedToSubscriber`, pays
/// the whole escrow to the dispute's subscriber in the subscription's token and
/// takes it out of that token's accounted total, leaving the merchant's balance;
/// resolving to the merchant gives `ResolvedToMerchant`, pays nothing out and adds
/// the escrow to the merchant's balance, leaving the accounted total. Either way the
/// escrow is released, the dispute records its resolution and its subscription has
/// no active dispute any more.
pub proof fn lemma_responded_dispute_resolves_as_admin_decides(
    s: VaultModel,
    admin: Address,
    dispute_id: u64,
    resolve_to_subscriber: bool,
    now: u64,
)
    requires
        s.admin == Some(admin),
        s.disputes.contains_key(dispute_id),
        s.disputes[dispute_id].status == DisputeStatus::Responded,
        s.dispute_escrow.contains_key(dispute_id),
        s.dispute_escrow[dispute_id] > 0,
        s.subscriptions.contains_key(s.disputes[dispute_id].subscription_id),
        resolve_to_subscriber ==> s.total_accounted_of(
            s.subscriptions[s.disputes[dispute_id].subscription_id].token,
        ) - s.dispute_escrow[dispute_id] >= i128::MIN,
        !resolve_to_subscriber ==> s.merchant_balance(
            s.disputes[dispute_id].merchant,
            s.subscriptions[s.disputes[dispute_id].subscription_id].token,
        ) + s.dispute_escrow[dispute_id] <= i128::MAX,
    ensures
        ({
            let d = s.disputes[dispute_id];
            let token = s.subscriptions[d.subscription_id].token;
            let escrow = s.dispute_escrow[dispute_id];
            let r = s.resolve_dispute_spec(admin, dispute_id, resolve_to_subscriber, now);
            &&& r is Ok
            &&& r matches Ok((s1, res)) ==> {
                &&& res.event.dispute_id == dispute_id
                &&& res.event.subscription_id == d.subscription_id
                &&& res.event.timestamp == now
                &&& res.event.schema_version == 2
                &&& s1.disputes.contains_key(dispute_id)
                &&& s1.disputes[dispute_id].status == res.event.resolution
                &&& s1.disputes[dispute_id].amount == d.amount
                &&& !s1.dispute_escrow.contains_key(dispute_id)
                &&& !s1.subscription_disputes.contains_key(d.subscription_id)
                &&& s1.disputes[dispute_id] == (Dispute { status: res.event.resolution, ..d })
                &&& forall|other: u64| other != dispute_id ==> #[trigger] s1.disputes.get(other) == s.disputes.get(
                    other,
                )
                &&& forall|other: u64| other != dispute_id ==> #[trigger] s1.dispute_escrow.get(other)
                    == s.dispute_escrow.get(other)
                &&& forall|sid: u32| sid != d.subscription_id ==> #[trigger] s1.subscription_disputes.get(sid)
                    == s.subscription_disputes.get(sid)
                &&& s1.admin == s.admin
                &&& s1.subscriptions == s.subscriptions
                &&& s1.token_decimals == s.token_decimals
                &&& s1.merchants == s.merchants
                &&& s1.next_dispute_id == s.next_dispute_id
                &&& if resolve_to_subscriber {
                    &&& res.event.resolution == DisputeStatus::ResolvedToSubscriber
                    &&& res.payout == Some(TokenTransfer { token, to: d.subscriber, amount: escrow })
                    &&& s1.total_accounted_of(token) == s.total_accounted_of(token) - escrow
                    &&& forall|t: Address| t != token ==> #[trigger] s1.total_accounted.get(t) == s.total_accounted.get(
                        t,
                    )
                    &&& s1.merchant_balances == s.merchant_balances
                } else {
                    &&& res.event.resolution == DisputeStatus::ResolvedToMerchant
                    &&& res.payout is None
                    &&& s1.merchant_balance(d.merchant, token) == s.merchant_balance(d.merchant, token) + escrow
                    &&& forall|m: Address, t: Address| !(m == d.merchant && t == token) ==> #[trigger] s1.merchant_balance(
                        m,
                        t,
                    ) == s.merchant_balance(m, t)
                    &&& s1.total_accounted == s.total_accounted
                }
            }
        }),
{
}

/// An `Open` dispute: before its window has elapsed (less than
/// `DISPUTE_WINDOW_SECS` after it was opened) the admin's resolution is refused
/// with `DisputeNotResponded`, whichever side it is for; once the window has
/// elapsed it resolves to the subscriber whatever the admin asks for, paying the
/// whole escrow to the dispute's subscriber (with positive escrow, an existing
/// subscription and no underflow of the accounted total).
pub proof fn lemma_open_dispute_resolution_follows_window(
    s: VaultModel,
    admin: Address,
    dispute_id: u64,
    resolve_to_subscriber: bool,
    now: u64,
)
    requires
        s.admin == Some(admin),
        s.disputes.contains_key(dispute_id),
        s.disputes[dispute_id].status == DisputeStatus::Open,
    ensures
        ({
            let d = s.disputes[dispute_id];
            let r = s.resolve_dispute_spec(admin, dispute_id, resolve_to_subscriber, now);
            &&& (now as int) < d.opened_at + DISPUTE_WINDOW_SECS ==> r == Err::<
                (VaultModel, crate::dispute::DisputeResolution),
                Error,
            >(Error::DisputeNotResponded)
            &&& ((now as int) >= d.opened_at + DISPUTE_WINDOW_SECS && s.dispute_escrow.contains_key(dispute_id)
                && s.dispute_escrow[dispute_id] > 0 && s.subscriptions.contains_key(d.subscription_id)
                && s.total_accounted_of(s.subscriptions[d.subscription_id].token) - s.dispute_escrow[dispute_id]
                >= i128::MIN) ==> {
                &&& r is Ok
                &&& r.unwrap().1.event.resolution == DisputeStatus::ResolvedToSubscriber
                &&& r.unwrap().1.payout == Some(
                    TokenTransfer {
                        token: s.subscriptions[d.subscription_id].token,
                        to: d.subscriber,
                        amount: s.dispute_escrow[dispute_id],
                    },
                )
            }
        }),
{
}

/// A resolved dispute is never resolved again: resolving it is refused with
/// `DisputeAlreadyResolved` (for the stored admin, at any time, either way).
/// And a resolution succeeds only for an unresolved dispute, by the stored admin.
pub proof fn lemma_resolve_requires_unresolved(
    s: VaultModel,
    admin: Address,
    dispute_id: u64,
    resolve_to_subscriber: bool,
    now: u64,
)
    ensures
        ({
            let r = s.resolve_dispute_spec(admin, dispute_id, resolve_to_subscriber, now);
            let d = s.disputes[dispute_id];
            &&& (s.admin == Some(admin) && s.disputes.contains_key(dispute_id) && (d.status
                == DisputeStatus::ResolvedToMerchant || d.status == DisputeStatus::ResolvedToSubscriber)) ==> r
                == Err::<(VaultModel, crate::dispute::DisputeResolution), Error>(Error::DisputeAlreadyResolved)
            &&& (s.admin == Some(admin) && !s.disputes.contains_key(dispute_id)) ==> r == Err::<
                (VaultModel, crate::dispute::DisputeResolution),
                Error,
            >(Error::DisputeNotFound)
            &&& r is Ok ==> (s.admin == Some(admin) && s.disputes.contains_key(dispute_id) && (d.status
                == DisputeStatus::Open || d.status == DisputeStatus::Responded) && s.dispute_escrow.contains_key(
                dispute_id,
            ) && s.dispute_escrow[dispute_id] > 0)
        }),
{
}

} // verus!
