//! Dispute / chargeback workflow for contested subscription charges.
//!
//! Provides a two-step dispute workflow (open_dispute, respond_dispute,
//! resolve_dispute) that mirrors payment-card chargeback semantics.
//!
//! # Flow
//!
//! 1. **Subscriber opens a dispute** – the disputed amount is moved from the
//!    merchant's balance into a `DataKey::DisputeEscrow(u64)` bucket.
//! 2. **Admin responds** (optional) – during the [`DISPUTE_WINDOW_SECS`] window the
//!    admin may respond with evidence, moving the dispute to `Responded` status.
//! 3. **Admin resolves** – after a response (or after the window elapses) the admin
//!    routes the escrowed funds to either the subscriber or the merchant.
//!
//! Each operation takes the ledger time `now` as an argument and returns the
//! event to publish (and, for a resolution in the subscriber's favour, the token
//! transfer to make). Authorisation of the caller's signature happens before the
//! call; the operations check that the caller is the right party.
//!
//! # Guarantees (proved)
//!
//! - A refused operation leaves the state unchanged.
//! - Double-open detection: a subscription has at most one active dispute.
//! - Escrow: opening moves exactly the disputed amount from the merchant's
//!   balance into escrow; resolving releases exactly the escrow, to the merchant's
//!   balance or (leaving the vault's accounted total) to the subscriber.

use vstd::prelude::*;
use crate::accounting::sub_total_accounted;
use crate::events::{DisputeOpenedEvent, DisputeRespondedEvent, DisputeResolvedEvent};
use crate::state::{outcome_agrees, MerchantToken, VaultModel, VaultState};
use crate::types::{
    Address, Dispute, DisputeStatus, Error, DISPUTE_WINDOW_SECS, EVENT_SCHEMA_VERSION,
};

verus! {

/// A token transfer out of the vault's custody.
#[derive(Clone, Copy, Debug, PartialEq, Eq, Structural)]
pub struct TokenTransfer {
    /// Token to transfer.
    pub token: Address,
    /// Recipient.
    pub to: Address,
    /// Amount in token base units.
    pub amount: i128,
}

/// What resolving a dispute asks the host to do: publish `event`, and make
/// `payout` when the escrow goes back to the subscriber.
#[derive(Clone, Copy, Debug)]
pub struct DisputeResolution {
    pub event: DisputeResolvedEvent,
    pub payout: Option<TokenTransfer>,
}

/// The id after `id` (wrapping at `u64::MAX`).
pub open spec fn next_id_after(id: u64) -> u64 {
    if id == u64::MAX {
        0
    } else {
        (id + 1) as u64
    }
}

/// Whether the dispute window has elapsed at `now` for a dispute opened at `opened_at`
/// (a clock earlier than the opening counts as no time elapsed).
pub open spec fn window_elapsed(opened_at: u64, now: u64) -> bool {
    now >= opened_at && now - opened_at >= DISPUTE_WINDOW_SECS
}

/// Whether a dispute status is final.
pub open spec fn is_resolved(status: DisputeStatus) -> bool {
    status == DisputeStatus::ResolvedToMerchant || status == DisputeStatus::ResolvedToSubscriber
}

/// The status a resolution gives a dispute in `status` (not yet resolved), per the
/// resolution rules: an `Open` dispute whose window has elapsed goes to the
/// subscriber; a `Responded` one goes where the admin decides.
pub open spec fn resolution_for(status: DisputeStatus, elapsed: bool, resolve_to_subscriber: bool) -> DisputeStatus {
    if status == DisputeStatus::Open && elapsed {
        DisputeStatus::ResolvedToSubscriber
    } else if resolve_to_subscriber {
        DisputeStatus::ResolvedToSubscriber
    } else {
        DisputeStatus::ResolvedToMerchant
    }
}

/// The event announcing an opened dispute.
pub open spec fn opened_event(d: Dispute) -> DisputeOpenedEvent {
    DisputeOpenedEvent {
        dispute_id: d.id,
        subscription_id: d.subscription_id,
        subscriber: d.subscriber,
        merchant: d.merchant,
        amount: d.amount,
        evidence_hash: d.evidence_hash,
        timestamp: d.opened_at,
        schema_version: EVENT_SCHEMA_VERSION,
    }
}

impl VaultModel {
    /// The id the next dispute gets.
    pub open spec fn next_dispute_id_of(self) -> u64 {
        match self.next_dispute_id {
            Some(id) => id,
            None => 0,
        }
    }

    /// Opening a dispute for `amount` against subscription `subscription_id` on behalf of
    /// `subscriber` at time `now`. Checks, in order: a positive amount (`InvalidAmount`),
    /// the subscription exists (`NotFound`), `subscriber` is its subscriber (`Unauthorized`),
    /// no dispute is active for it (`DisputeAlreadyOpen`), the merchant's balance in its
    /// token covers the amount (`InsufficientBalance`). Then the amount moves from that
    /// balance into the escrow of a new dispute, recorded as `Open`, whose id is the next
    /// dispute id; the dispute becomes the subscription's active dispute.
    pub open spec fn open_dispute_spec(
        self,
        subscriber: Address,
        subscription_id: u32,
        amount: i128,
        evidence_hash: Option<[u8; 32]>,
        now: u64,
    ) -> Result<(VaultModel, (u64, DisputeOpenedEvent)), Error> {
        if amount <= 0 {
            Err(Error::InvalidAmount)
        } else if !self.subscriptions.contains_key(subscription_id) {
            Err(Error::NotFound)
        } else {
            let sub = self.subscriptions[subscription_id];
            let balance = self.merchant_balance(sub.merchant, sub.token);
            let id = self.next_dispute_id_of();
            let dispute = Dispute {
                id,
                subscription_id,
                subscriber,
                merchant: sub.merchant,
                amount,
                opened_at: now,
                status: DisputeStatus::Open,
                evidence_hash,
                responded_at: None,
                admin_evidence_hash: None,
            };
            if sub.subscriber != subscriber {
                Err(Error::Unauthorized)
            } else if self.subscription_disputes.contains_key(subscription_id) {
                Err(Error::DisputeAlreadyOpen)
            } else if balance < amount {
                Err(Error::InsufficientBalance)
            } else {
                Ok(
                    (
                        VaultModel {
                            next_dispute_id: Some(next_id_after(id)),
                            merchant_balances: self.merchant_balances.insert(
                                MerchantToken { merchant: sub.merchant, token: sub.token },
                                (balance - amount) as i128,
                            ),
                            dispute_escrow: self.dispute_escrow.insert(id, amount),
                            disputes: self.disputes.insert(id, dispute),
                            subscription_disputes: self.subscription_disputes.insert(subscription_id, id),
                            ..self
                        },
                        (id, opened_event(dispute)),
                    ),
                )
            }
        }
    }

    /// Responding to dispute `dispute_id` at time `now`, admin only. Checks, in order: the
    /// admin (`NotInitialized` / `Unauthorized`), the dispute exists (`DisputeNotFound`), it
    /// is `Open` (`DisputeAlreadyResponded`). Then it becomes `Responded`, with the response
    /// time and the admin's evidence hash recorded.
    pub open spec fn respond_dispute_spec(
        self,
        admin: Address,
        dispute_id: u64,
        evidence_hash: Option<[u8; 32]>,
        now: u64,
    ) -> Result<(VaultModel, DisputeRespondedEvent), Error> {
        if self.admin_error(admin) is Some {
            Err(self.admin_error(admin).unwrap())
        } else if !self.disputes.contains_key(dispute_id) {
            Err(Error::DisputeNotFound)
        } else {
            let d = self.disputes[dispute_id];
            if d.status != DisputeStatus::Open {
                Err(Error::DisputeAlreadyResponded)
            } else {
                let responded = Dispute {
                    status: DisputeStatus::Responded,
                    responded_at: Some(now),
                    admin_evidence_hash: evidence_hash,
                    ..d
                };
                Ok(
                    (
                        VaultModel { disputes: self.disputes.insert(dispute_id, responded), ..self },
                        DisputeRespondedEvent {
                            dispute_id,
                            subscription_id: d.subscription_id,
                            admin_evidence_hash: evidence_hash,
                            timestamp: now,
                            schema_version: EVENT_SCHEMA_VERSION,
                        },
                    ),
                )
            }
        }
    }

    /// Resolving dispute `dispute_id` at time `now`, admin only. Checks, in order: the admin
    /// (`NotInitialized` / `Unauthorized`), the dispute exists (`DisputeNotFound`), it is not
    /// resolved (`DisputeAlreadyResolved`), it is not `Open` within its window
    /// (`DisputeNotResponded`), its escrow is positive (`InsufficientBalance`), its
    /// subscription exists (`NotFound`). The resolution follows [`resolution_for`]. The escrow
    /// is released and the subscription's active dispute cleared; to the merchant, the escrow
    /// is added to the merchant's balance in the subscription's token (`Overflow` if it does
    /// not fit); to the subscriber, it leaves the token's accounted total (`Underflow` if that
    /// does not fit) and is transferred to the subscriber.
    pub open spec fn resolve_dispute_spec(
        self,
        admin: Address,
        dispute_id: u64,
        resolve_to_subscriber: bool,
        now: u64,
    ) -> Result<(VaultModel, DisputeResolution), Error> {
        if self.admin_error(admin) is Some {
            Err(self.admin_error(admin).unwrap())
        } else if !self.disputes.contains_key(dispute_id) {
            Err(Error::DisputeNotFound)
        } else {
            let d = self.disputes[dispute_id];
            let elapsed = window_elapsed(d.opened_at, now);
            let resolution = resolution_for(d.status, elapsed, resolve_to_subscriber);
            let escrow = self.escrow_of(dispute_id);
            if is_resolved(d.status) {
                Err(Error::DisputeAlreadyResolved)
            } else if d.status == DisputeStatus::Open && !elapsed {
                Err(Error::DisputeNotResponded)
            } else if escrow <= 0 {
                Err(Error::InsufficientBalance)
            } else if !self.subscriptions.contains_key(d.subscription_id) {
                Err(Error::NotFound)
            } else {
                let token = self.subscriptions[d.subscription_id].token;
                let released = VaultModel {
                    dispute_escrow: self.dispute_escrow.remove(dispute_id),
                    disputes: self.disputes.insert(dispute_id, Dispute { status: resolution, ..d }),
                    subscription_disputes: self.subscription_disputes.remove(d.subscription_id),
                    ..self
                };
                let event = DisputeResolvedEvent {
                    dispute_id,
                    subscription_id: d.subscription_id,
                    resolution,
                    timestamp: now,
                    schema_version: EVENT_SCHEMA_VERSION,
                };
                if resolution == DisputeStatus::ResolvedToMerchant {
                    let credited = self.merchant_balance(d.merchant, token) + escrow;
                    if credited > i128::MAX {
                        Err(Error::Overflow)
                    } else {
                        Ok(
                            (
                                VaultModel {
                                    merchant_balances: self.merchant_balances.insert(
                                        MerchantToken { merchant: d.merchant, token },
                                        credited as i128,
                                    ),
                                    ..released
                                },
                                DisputeResolution { event, payout: None },
                            ),
                        )
                    }
                } else {
                    let remaining = self.total_accounted_of(token) - escrow;
                    if remaining < i128::MIN {
                        Err(Error::Underflow)
                    } else {
                        Ok(
                            (
                                VaultModel {
                                    total_accounted: self.total_accounted.insert(token, remaining as i128),
                                    ..released
                                },
                                DisputeResolution {
                                    event,
                                    payout: Some(TokenTransfer { token, to: d.subscriber, amount: escrow }),
                                },
                            ),
                        )
                    }
                }
            }
        }
    }
}

/// Open a dispute against a charge for the given subscription.
///
/// Moves `amount` from the merchant's balance to escrow and records the
/// dispute in `Open` status. Returns the new dispute's id and the event to publish.
/// The caller has already required `subscriber`'s authorisation.
pub fn do_open_dispute(
    state: &mut VaultState,
    subscriber: Address,
    subscription_id: u32,
    amount: i128,
    evidence_hash: Option<[u8; 32]>,
    now: u64,
) -> (r: Result<(u64, DisputeOpenedEvent), Error>)
    ensures
        outcome_agrees(
            old(state)@.open_dispute_spec(subscriber, subscription_id, amount, evidence_hash, now),
            r,
            old(state)@,
            final(state)@,
        ),
{
    // ── Checks ────────────────────────────────────────────────────────────
    if amount <= 0 {
        return Err(Error::InvalidAmount);
    }
    let sub = state.get_subscription(subscription_id)?;
    if sub.subscriber != subscriber {
        return Err(Error::Unauthorized);
    }
    // Prevent double-open: only one active dispute per subscription at a time.
    if state.subscription_disputes.contains(&subscription_id) {
        return Err(Error::DisputeAlreadyOpen);
    }
    // Verify the merchant has sufficient balance to escrow.
    let token_addr = sub.token;
    let merchant_balance = state.get_merchant_balance_by_token(&sub.merchant, &token_addr);
    if merchant_balance < amount {
        return Err(Error::InsufficientBalance);
    }
    let new_merchant_balance = match merchant_balance.checked_sub(amount) {
        Some(b) => b,
        None => return Err(Error::Underflow),
    };

    // ── Effects ───────────────────────────────────────────────────────────
    let dispute_id: u64 = next_dispute_id(state);
    // 1. Debit merchant balance
    state.set_merchant_balance(&sub.merchant, &token_addr, new_merchant_balance);
    // 2. Credit dispute escrow
    state.dispute_escrow.insert(dispute_id, amount);
    // 3. Record dispute
    let dispute = Dispute {
        id: dispute_id,
        subscription_id,
        subscriber,
        merchant: sub.merchant,
        amount,
        opened_at: now,
        status: DisputeStatus::Open,
        evidence_hash,
        responded_at: None,
        admin_evidence_hash: None,
    };
    state.disputes.insert(dispute_id, dispute);
    // 4. Mark subscription dispute index
    state.subscription_disputes.insert(subscription_id, dispute_id);

    let event = DisputeOpenedEvent {
        dispute_id,
        subscription_id,
        subscriber,
        merchant: sub.merchant,
        amount,
        evidence_hash,
        timestamp: now,
        schema_version: EVENT_SCHEMA_VERSION,
    };
    Ok((dispute_id, event))
}

/// Respond to a dispute on behalf of the merchant side. Admin only.
///
/// Transitions the dispute from `Open` to `Responded`. This signals that the
/// admin has reviewed the dispute and may provide evidence. Once responded,
/// the admin may resolve the dispute in either direction.
pub fn do_respond_dispute(
    state: &mut VaultState,
    admin: Address,
    dispute_id: u64,
    evidence_hash: Option<[u8; 32]>,
    now: u64,
) -> (r: Result<DisputeRespondedEvent, Error>)
    ensures
        outcome_agrees(
            old(state)@.respond_dispute_spec(admin, dispute_id, evidence_hash, now),
            r,
            old(state)@,
            final(state)@,
        ),
{
    state.require_admin(&admin)?;

    // ── Checks ────────────────────────────────────────────────────────────
    let mut dispute = read_dispute(state, dispute_id)?;
    if dispute.status != DisputeStatus::Open {
        return Err(Error::DisputeAlreadyResponded);
    }

    // ── Effects ───────────────────────────────────────────────────────────
    dispute.status = DisputeStatus::Responded;
    dispute.responded_at = Some(now);
    dispute.admin_evidence_hash = evidence_hash;
    state.disputes.insert(dispute_id, dispute);

    Ok(
        DisputeRespondedEvent {
            dispute_id,
            subscription_id: dispute.subscription_id,
            admin_evidence_hash: evidence_hash,
            timestamp: now,
            schema_version: EVENT_SCHEMA_VERSION,
        },
    )
}

/// Resolve a dispute, routing escrowed funds to either the subscriber or the
/// merchant. Admin only.
///
/// # Resolution rules
///
/// | Dispute status | Window elapsed | Resolution allowed |
/// |:---|:---:|:---|
/// | `Open` | No  | Rejected – admin must respond first (`DisputeNotResponded`) |
/// | `Open` | Yes | Resolved to **subscriber** (auto-resolve) |
/// | `Responded` | Either | Admin may resolve to **subscriber** or **merchant** |
/// | Resolved (any) | — | Rejected (`DisputeAlreadyResolved`) |
///
/// Returns the event to publish and, when the subscriber wins, the transfer of
/// the escrow from the vault to the subscriber.
pub fn do_resolve_dispute(
    state: &mut VaultState,
    admin: Address,
    dispute_id: u64,
    resolve_to_subscriber: bool,
    now: u64,
) -> (r: Result<DisputeResolution, Error>)
    ensures
        outcome_agrees(
            old(state)@.resolve_dispute_spec(admin, dispute_id, resolve_to_subscriber, now),
            r,
            old(state)@,
            final(state)@,
        ),
{
    state.require_admin(&admin)?;

    // ── Checks ────────────────────────────────────────────────────────────
    let mut dispute = read_dispute(state, dispute_id)?;
    if dispute.status == DisputeStatus::ResolvedToMerchant || dispute.status
        == DisputeStatus::ResolvedToSubscriber {
        return Err(Error::DisputeAlreadyResolved);
    }
    let window_elapsed = now.saturating_sub(dispute.opened_at) >= DISPUTE_WINDOW_SECS;
    if dispute.status == DisputeStatus::Open && !window_elapsed {
        // Admin must respond before the dispute can be resolved (merchant
        // needs a chance to present their side).
        return Err(Error::DisputeNotResponded);
    }
    // For unresponded disputes where window has elapsed, the subscriber wins
    // by default (auto-resolve). For responded disputes, the admin decides.
    let resolution = if dispute.status == DisputeStatus::Open && window_elapsed {
        DisputeStatus::ResolvedToSubscriber
    } else if resolve_to_subscriber {
        DisputeStatus::ResolvedToSubscriber
    } else {
        DisputeStatus::ResolvedToMerchant
    };
    let escrow_amount: i128 = match state.dispute_escrow.get(&dispute_id) {
        Some(v) => v,
        None => 0,
    };
    if escrow_amount <= 0 {
        return Err(Error::InsufficientBalance);
    }
    // Read subscription for token and party addresses
    let sub = state.get_subscription(dispute.subscription_id)?;
    let token_addr = sub.token;

    // ── Effects ───────────────────────────────────────────────────────────
    let payout = if resolution == DisputeStatus::ResolvedToMerchant {
        // Return escrowed funds to merchant balance
        let current = state.get_merchant_balance_by_token(&dispute.merchant, &token_addr);
        let new_balance = match current.checked_add(escrow_amount) {
            Some(b) => b,
            None => return Err(Error::Overflow),
        };
        state.set_merchant_balance(&dispute.merchant, &token_addr, new_balance);
        None
    } else {
        // Funds leave vault custody — keep accounting consistent.
        sub_total_accounted(state, &token_addr, escrow_amount)?;
        Some(TokenTransfer { token: token_addr, to: dispute.subscriber, amount: escrow_amount })
    };
    // Clear escrow
    state.dispute_escrow.remove(&dispute_id);
    // Update dispute status
    dispute.status = resolution;
    state.disputes.insert(dispute_id, dispute);
    // Clear subscription dispute index
    state.subscription_disputes.remove(&dispute.subscription_id);

    let event = DisputeResolvedEvent {
        dispute_id,
        subscription_id: dispute.subscription_id,
        resolution,
        timestamp: now,
        schema_version: EVENT_SCHEMA_VERSION,
    };
    Ok(DisputeResolution { event, payout })
}

/// Read a dispute record by its ID.
pub fn do_get_dispute(state: &VaultState, dispute_id: u64) -> (r: Result<Dispute, Error>)
    ensures
        match state@.disputes.get(dispute_id) {
            Some(d) => r == Ok::<Dispute, Error>(d),
            None => r == Err::<Dispute, Error>(Error::DisputeNotFound),
        },
{
    read_dispute(state, dispute_id)
}

/// Return the active dispute ID for a subscription, if any.
pub fn do_get_subscription_dispute(state: &VaultState, subscription_id: u32) -> (r: Option<u64>)
    ensures
        r == state@.subscription_disputes.get(subscription_id),
{
    state.subscription_disputes.get(&subscription_id)
}

// ── Laws of the dispute workflow ─────────────────────────────────────────────

/// Escrow accounting on open: an opened dispute holds exactly the disputed amount
/// in escrow, taken from the merchant's balance in the subscription's token, so
/// that the merchant's balance plus the escrow equals the balance before; no other
/// merchant balance and no accounted total changes.
pub proof fn lemma_open_moves_amount_into_escrow(
    s: VaultModel,
    subscriber: Address,
    subscription_id: u32,
    amount: i128,
    evidence_hash: Option<[u8; 32]>,
    now: u64,
)
    requires
        s.open_dispute_spec(subscriber, subscription_id, amount, evidence_hash, now) is Ok,
    ensures
        ({
            let (s1, (id, _)) = s.open_dispute_spec(subscriber, subscription_id, amount, evidence_hash, now).unwrap();
            let sub = s.subscriptions[subscription_id];
            &&& s1.escrow_of(id) == amount
            &&& s1.merchant_balance(sub.merchant, sub.token) + s1.escrow_of(id)
                == s.merchant_balance(sub.merchant, sub.token)
            &&& forall|m: Address, t: Address|
                !(m == sub.merchant && t == sub.token) ==> s1.merchant_balance(m, t) == s.merchant_balance(m, t)
            &&& s1.total_accounted == s.total_accounted
            &&& s1.disputes[id].status == DisputeStatus::Open
            &&& s1.subscription_disputes[subscription_id] == id
        }),
{
}

/// Double-open prevention: once a dispute is open for a subscription, its
/// subscriber's next attempt to open another one (for any positive amount) is
/// refused with `DisputeAlreadyOpen`.
pub proof fn lemma_double_open_rejected(
    s: VaultModel,
    subscriber: Address,
    subscription_id: u32,
    amount: i128,
    evidence_hash: Option<[u8; 32]>,
    now: u64,
    amount2: i128,
    evidence_hash2: Option<[u8; 32]>,
    now2: u64,
)
    requires
        s.open_dispute_spec(subscriber, subscription_id, amount, evidence_hash, now) is Ok,
        amount2 > 0,
    ensures
        ({
            let s1 = s.open_dispute_spec(subscriber, subscription_id, amount, evidence_hash, now).unwrap().0;
            s1.open_dispute_spec(subscriber, subscription_id, amount2, evidence_hash2, now2)
                == Err::<(VaultModel, (u64, DisputeOpenedEvent)), Error>(Error::DisputeAlreadyOpen)
        }),
{
}

/// Successive disputes get successive ids; in particular two disputes opened one
/// after the other never share an id.
pub proof fn lemma_successive_dispute_ids(
    s: VaultModel,
    subscriber: Address,
    subscription_id: u32,
    amount: i128,
    evidence_hash: Option<[u8; 32]>,
    now: u64,
    subscriber2: Address,
    subscription_id2: u32,
    amount2: i128,
    evidence_hash2: Option<[u8; 32]>,
    now2: u64,
)
    requires
        s.open_dispute_spec(subscriber, subscription_id, amount, evidence_hash, now) is Ok,
        s.open_dispute_spec(subscriber, subscription_id, amount, evidence_hash, now).unwrap().0.open_dispute_spec(
            subscriber2,
            subscription_id2,
            amount2,
            evidence_hash2,
            now2,
        ) is Ok,
    ensures
        ({
            let (s1, (id1, _)) = s.open_dispute_spec(subscriber, subscription_id, amount, evidence_hash, now).unwrap();
            let id2 = s1.open_dispute_spec(subscriber2, subscription_id2, amount2, evidence_hash2, now2).unwrap().1.0;
            &&& id2 == next_id_after(id1)
            &&& id1 != id2
        }),
{
}

/// Responding to a dispute moves no funds: balances, escrows and accounted
/// totals are unchanged, and so is the subscription's active dispute.
pub proof fn lemma_respond_moves_no_funds(
    s: VaultModel,
    admin: Address,
    dispute_id: u64,
    evidence_hash: Option<[u8; 32]>,
    now: u64,
)
    requires
        s.respond_dispute_spec(admin, dispute_id, evidence_hash, now) is Ok,
    ensures
        ({
            let s1 = s.respond_dispute_spec(admin, dispute_id, evidence_hash, now).unwrap().0;
            &&& s1.merchant_balances == s.merchant_balances
            &&& s1.dispute_escrow == s.dispute_escrow
            &&& s1.total_accounted == s.total_accounted
            &&& s1.subscription_disputes == s.subscription_disputes
            &&& s1.disputes[dispute_id].status == DisputeStatus::Responded
        }),
{
}

/// A responded dispute can always be resolved in the merchant's favour, and doing
/// so after the dispute was opened returns the merchant's balance to what it was
/// before the dispute, empties the escrow and clears the subscription's active
/// dispute, with no token leaving the vault.
pub proof fn lemma_open_respond_resolve_to_merchant_restores_balance(
    s: VaultModel,
    subscriber: Address,
    subscription_id: u32,
    amount: i128,
    evidence_hash: Option<[u8; 32]>,
    now: u64,
    admin: Address,
    admin_evidence_hash: Option<[u8; 32]>,
    respond_at: u64,
    resolve_at: u64,
)
    requires
        s.open_dispute_spec(subscriber, subscription_id, amount, evidence_hash, now) is Ok,
        s.admin == Some(admin),
    ensures
        ({
            let sub = s.subscriptions[subscription_id];
            let (s1, (id, _)) = s.open_dispute_spec(subscriber, subscription_id, amount, evidence_hash, now).unwrap();
            let r2 = s1.respond_dispute_spec(admin, id, admin_evidence_hash, respond_at);
            &&& r2 is Ok
            &&& {
                let s2 = r2.unwrap().0;
                let r3 = s2.resolve_dispute_spec(admin, id, false, resolve_at);
                &&& r3 is Ok
                &&& {
                    let (s3, res) = r3.unwrap();
                    &&& s3.merchant_balance(sub.merchant, sub.token) == s.merchant_balance(sub.merchant, sub.token)
                    &&& !s3.dispute_escrow.contains_key(id)
                    &&& !s3.subscription_disputes.contains_key(subscription_id)
                    &&& s3.disputes[id].status == DisputeStatus::ResolvedToMerchant
                    &&& s3.total_accounted == s.total_accounted
                    &&& res.payout is None
                }
            }
        }),
{

}

/// Auto-resolution: a dispute left unanswered until its window has elapsed is
/// resolved in the subscriber's favour whatever the admin asks for; the escrow
/// leaves the vault (its accounted total drops by the disputed amount) and is
/// transferred to the subscriber, while the merchant's balance stays debited.
pub proof fn lemma_unanswered_dispute_resolves_to_subscriber(
    s: VaultModel,
    subscriber: Address,
    subscription_id: u32,
    amount: i128,
    evidence_hash: Option<[u8; 32]>,
    now: u64,
    admin: Address,
    resolve_to_subscriber: bool,
    resolve_at: u64,
)
    requires
        s.open_dispute_spec(subscriber, subscription_id, amount, evidence_hash, now) is Ok,
        s.admin == Some(admin),
        resolve_at >= now + DISPUTE_WINDOW_SECS,
        s.total_accounted_of(s.subscriptions[subscription_id].token) - amount >= i128::MIN,
    ensures
        ({
            let sub = s.subscriptions[subscription_id];
            let (s1, (id, _)) = s.open_dispute_spec(subscriber, subscription_id, amount, evidence_hash, now).unwrap();
            let r = s1.resolve_dispute_spec(admin, id, resolve_to_subscriber, resolve_at);
            &&& r is Ok
            &&& {
                let (s2, res) = r.unwrap();
                &&& res.event.resolution == DisputeStatus::ResolvedToSubscriber
                &&& res.payout == Some(TokenTransfer { token: sub.token, to: subscriber, amount })
                &&& s2.total_accounted_of(sub.token) == s.total_accounted_of(sub.token) - amount
                &&& s2.merchant_balance(sub.merchant, sub.token) == s.merchant_balance(sub.merchant, sub.token) - amount
                &&& !s2.dispute_escrow.contains_key(id)
                &&& !s2.subscription_disputes.contains_key(subscription_id)
            }
        }),
{

}

/// A resolved dispute is final: resolving it again is refused with
/// `DisputeAlreadyResolved`, responding to it with `DisputeAlreadyResponded`,
/// and its subscription no longer has an active dispute.
pub proof fn lemma_resolved_dispute_is_final(
    s: VaultModel,
    admin: Address,
    dispute_id: u64,
    resolve_to_subscriber: bool,
    now: u64,
    resolve_to_subscriber2: bool,
    now2: u64,
    evidence_hash: Option<[u8; 32]>,
)
    requires
        s.resolve_dispute_spec(admin, dispute_id, resolve_to_subscriber, now) is Ok,
    ensures
        ({
            let s1 = s.resolve_dispute_spec(admin, dispute_id, resolve_to_subscriber, now).unwrap().0;
            &&& s1.resolve_dispute_spec(admin, dispute_id, resolve_to_subscriber2, now2)
                == Err::<(VaultModel, DisputeResolution), Error>(Error::DisputeAlreadyResolved)
            &&& s1.respond_dispute_spec(admin, dispute_id, evidence_hash, now2)
                == Err::<(VaultModel, DisputeRespondedEvent), Error>(Error::DisputeAlreadyResponded)
            &&& !s1.subscription_disputes.contains_key(s.disputes[dispute_id].subscription_id)
        }),
{
}

/// A dispute that is neither resolved: `Open` or `Responded`.
pub open spec fn is_active(status: DisputeStatus) -> bool {
    status == DisputeStatus::Open || status == DisputeStatus::Responded
}

impl VaultModel {
    /// The dispute records, escrows and active-dispute index agree: every
    /// dispute id was handed out already; escrow is held only for active
    /// disputes, and each active dispute holds exactly its disputed amount and
    /// is its subscription's active dispute; each subscription's active dispute
    /// is an active dispute of that subscription.
    pub open spec fn disputes_consistent(self) -> bool {
        &&& forall|id: u64| #[trigger] self.disputes.contains_key(id) ==> id < self.next_dispute_id_of()
        &&& forall|id: u64| #[trigger] self.dispute_escrow.contains_key(id)
            ==> self.disputes.contains_key(id) && is_active(self.disputes[id].status)
        &&& forall|id: u64| #[trigger] self.disputes.contains_key(id) && is_active(self.disputes[id].status) ==> {
            &&& self.escrow_of(id) == self.disputes[id].amount
            &&& self.subscription_disputes.get(self.disputes[id].subscription_id) == Some(id)
        }
        &&& forall|sid: u32| #[trigger] self.subscription_disputes.contains_key(sid) ==> {
            let id = self.subscription_disputes[sid];
            &&& self.disputes.contains_key(id)
            &&& is_active(self.disputes[id].status)
            &&& self.disputes[id].subscription_id == sid
        }
    }
}

/// A vault with no disputes is consistent.
pub proof fn lemma_no_disputes_consistent(s: VaultModel)
    requires
        s.disputes == Map::<u64, Dispute>::empty(),
        s.dispute_escrow == Map::<u64, i128>::empty(),
        s.subscription_disputes == Map::<u32, u64>::empty(),
    ensures
        s.disputes_consistent(),
{
}

/// Opening a dispute keeps the dispute records consistent (as long as dispute
/// ids have not run out, i.e. the next id is not `u64::MAX`).
pub proof fn lemma_open_keeps_disputes_consistent(
    s: VaultModel,
    subscriber: Address,
    subscription_id: u32,
    amount: i128,
    evidence_hash: Option<[u8; 32]>,
    now: u64,
)
    requires
        s.disputes_consistent(),
        s.next_dispute_id_of() < u64::MAX,
        s.open_dispute_spec(subscriber, subscription_id, amount, evidence_hash, now) is Ok,
    ensures
        s.open_dispute_spec(subscriber, subscription_id, amount, evidence_hash, now).unwrap().0.disputes_consistent(),
{

}

/// Responding to a dispute keeps the dispute records consistent.
pub proof fn lemma_respond_keeps_disputes_consistent(
    s: VaultModel,
    admin: Address,
    dispute_id: u64,
    evidence_hash: Option<[u8; 32]>,
    now: u64,
)
    requires
        s.disputes_consistent(),
        s.respond_dispute_spec(admin, dispute_id, evidence_hash, now) is Ok,
    ensures
        s.respond_dispute_spec(admin, dispute_id, evidence_hash, now).unwrap().0.disputes_consistent(),
{

}

/// Resolving a dispute keeps the dispute records consistent.
pub proof fn lemma_resolve_keeps_disputes_consistent(
    s: VaultModel,
    admin: Address,
    dispute_id: u64,
    resolve_to_subscriber: bool,
    now: u64,
)
    requires
        s.disputes_consistent(),
        s.resolve_dispute_spec(admin, dispute_id, resolve_to_subscriber, now) is Ok,
    ensures
        s.resolve_dispute_spec(admin, dispute_id, resolve_to_subscriber, now).unwrap().0.disputes_consistent(),
{

}

// ── Internal helpers ──────────────────────────────────────────────────────────

fn read_dispute(state: &VaultState, dispute_id: u64) -> (r: Result<Dispute, Error>)
    ensures
        match state@.disputes.get(dispute_id) {
            Some(d) => r == Ok::<Dispute, Error>(d),
            None => r == Err::<Dispute, Error>(Error::DisputeNotFound),
        },
{
    match state.disputes.get(&dispute_id) {
        Some(d) => Ok(d),
        None => Err(Error::DisputeNotFound),
    }
}

/// Hands out the next dispute id and advances the counter (wrapping).
fn next_dispute_id(state: &mut VaultState) -> (id: u64)
    ensures
        id == old(state)@.next_dispute_id_of(),
        final(state)@ == (VaultModel { next_dispute_id: Some(next_id_after(id)), ..old(state)@ }),
{
    let current: u64 = match state.next_dispute_id {
        Some(v) => v,
        None => 0,
    };
    let next = current.wrapping_add(1);
    state.next_dispute_id = Some(next);
    current
}

} // verus!
