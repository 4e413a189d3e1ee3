//! Conservation of a merchant's funds across the dispute workflow: the
//! merchant's balance in a token plus everything held in escrow for the
//! merchant's unresolved disputes in that token.

use vstd::prelude::*;
use crate::dispute::is_active;
use crate::state::VaultModel;
use crate::types::Address;

verus! {

/// What dispute `id` holds in escrow for `merchant` in `token`: its escrow when it
/// is an unresolved dispute against `merchant` whose subscription settles in
/// `token`, and nothing otherwise.
pub open spec fn escrow_term(s: VaultModel, merchant: Address, token: Address, id: int) -> int {
    if 0 <= id <= u64::MAX && s.disputes.contains_key(id as u64) {
        let d = s.disputes[id as u64];
        if is_active(d.status) && d.merchant == merchant && s.subscriptions.contains_key(d.subscription_id)
            && s.subscriptions[d.subscription_id].token == token {
            s.escrow_of(id as u64) as int
        } else {
            0
        }
    } else {
        0
    }
}

/// The escrow held for `merchant` in `token` by the disputes with ids below `n`.
pub open spec fn escrow_held_below(s: VaultModel, merchant: Address, token: Address, n: nat) -> int
    decreases n,
{
    if n == 0 {
        0
    } else {
        escrow_held_below(s, merchant, token, (n - 1) as nat) + escrow_term(s, merchant, token, n - 1)
    }
}

/// The escrow held for `merchant` in `token` over all dispute ids.
pub open spec fn escrow_held(s: VaultModel, merchant: Address, token: Address) -> int {
    escrow_held_below(s, merchant, token, (u64::MAX + 1) as nat)
}

/// A merchant's funds in a token: its balance plus the escrow held for its
/// unresolved disputes in that token.
pub open spec fn merchant_funds(s: VaultModel, merchant: Address, token: Address) -> int {
    s.merchant_balance(merchant, token) + escrow_held(s, merchant, token)
}

/// Two states whose escrow terms agree except at `id0` have escrow sums that differ
/// by the difference at `id0` (when `id0` is counted).
proof fn lemma_escrow_held_one_change(
    s: VaultModel,
    s1: VaultModel,
    merchant: Address,
    token: Address,
    id0: int,
    n: nat,
)
    requires
        forall|id: int| id != id0 ==> #[trigger] escrow_term(s1, merchant, token, id) == escrow_term(s, merchant, token, id),
    ensures
        escrow_held_below(s1, merchant, token, n) - escrow_held_below(s, merchant, token, n) == if 0 <= id0 < n {
            escrow_term(s1, merchant, token, id0) - escrow_term(s, merchant, token, id0)
        } else {
            0
        },
    decreases n,
{
    if n > 0 {
        lemma_escrow_held_one_change(s, s1, merchant, token, id0, (n - 1) as nat);
        assert(n - 1 != id0 ==> escrow_term(s1, merchant, token, n - 1) == escrow_term(s, merchant, token, n - 1));
    }
}

/// Escrow conservation when a dispute is opened: for every merchant and token,
/// the merchant's funds (balance plus escrow of its unresolved disputes in the
/// token) are the same afterwards; an accepted call only moves the amount from the
/// balance into the new dispute's escrow, and a refused one changes nothing.
/// The id about to be handed out must not already name a stored dispute (opening
/// would overwrite that dispute and its escrow); this holds in every state with
/// consistent dispute records, in particular in every state reached from a vault
/// without disputes.
pub proof fn lemma_open_conserves_merchant_funds(
    s: VaultModel,
    subscriber: Address,
    subscription_id: u32,
    amount: i128,
    evidence_hash: Option<[u8; 32]>,
    now: u64,
    merchant: Address,
    token: Address,
)
    requires
        !s.disputes.contains_key(s.next_dispute_id_of()),
    ensures
        s.open_dispute_spec(subscriber, subscription_id, amount, evidence_hash, now) matches Ok((s1, _))
            ==> merchant_funds(s1, merchant, token) == merchant_funds(s, merchant, token),
{
    let r = s.open_dispute_spec(subscriber, subscription_id, amount, evidence_hash, now);
    if r is Ok {
        let (s1, (id, _)) = r.unwrap();
        let sub = s.subscriptions[subscription_id];
        assert(!s.disputes.contains_key(id));
        assert forall|i: int| i != id as int implies #[trigger] escrow_term(s1, merchant, token, i)
            == escrow_term(s, merchant, token, i) by {
            if 0 <= i <= u64::MAX {
                assert(i as u64 != id);
            }
        }
        lemma_escrow_held_one_change(s, s1, merchant, token, id as int, (u64::MAX + 1) as nat);
        assert(escrow_term(s, merchant, token, id as int) == 0);
        if merchant == sub.merchant && token == sub.token {
            assert(escrow_term(s1, merchant, token, id as int) == amount);
        } else {
            assert(escrow_term(s1, merchant, token, id as int) == 0);
        }
    }
}

/// In a state with consistent dispute records the id about to be handed out does
/// not name a stored dispute.
pub proof fn lemma_consistent_next_id_unused(s: VaultModel)
    requires
        s.disputes_consistent(),
    ensures
        !s.disputes.contains_key(s.next_dispute_id_of()),
{
}

/// Responding to a dispute leaves every merchant's funds in every token unchanged.
pub proof fn lemma_respond_conserves_merchant_funds(
    s: VaultModel,
    admin: Address,
    dispute_id: u64,
    evidence_hash: Option<[u8; 32]>,
    now: u64,
    merchant: Address,
    token: Address,
)
    ensures
        s.respond_dispute_spec(admin, dispute_id, evidence_hash, now) matches Ok((s1, _))
            ==> merchant_funds(s1, merchant, token) == merchant_funds(s, merchant, token),
{
    let r = s.respond_dispute_spec(admin, dispute_id, evidence_hash, now);
    if r is Ok {
        let s1 = r.unwrap().0;
        assert forall|i: int| i != dispute_id as int implies #[trigger] escrow_term(s1, merchant, token, i)
            == escrow_term(s, merchant, token, i) by {
            if 0 <= i <= u64::MAX {
                assert(i as u64 != dispute_id);
            }
        }
        lemma_escrow_held_one_change(s, s1, merchant, token, dispute_id as int, (u64::MAX + 1) as nat);
        assert(escrow_term(s1, merchant, token, dispute_id as int) == escrow_term(
            s,
            merchant,
            token,
            dispute_id as int,
        ));
    }
}

/// Resolving a dispute: in the merchant's favour, every merchant's funds in every
/// token are unchanged (the escrow returns to the balance); in the subscriber's
/// favour, the disputed merchant's funds in the subscription's token drop by
/// exactly the amount paid out to the subscriber, and all other funds are unchanged.
pub proof fn lemma_resolve_conserves_merchant_funds(
    s: VaultModel,
    admin: Address,
    dispute_id: u64,
    resolve_to_subscriber: bool,
    now: u64,
    merchant: Address,
    token: Address,
)
    ensures
        s.resolve_dispute_spec(admin, dispute_id, resolve_to_subscriber, now) matches Ok((s1, res)) ==> {
            let d = s.disputes[dispute_id];
            let sub_token = s.subscriptions[d.subscription_id].token;
            match res.payout {
                None => merchant_funds(s1, merchant, token) == merchant_funds(s, merchant, token),
                Some(p) => {
                    &&& p.token == sub_token
                    &&& p.to == d.subscriber
                    &&& merchant_funds(s1, merchant, token) == merchant_funds(s, merchant, token) - (
                    if merchant == d.merchant && token == sub_token {
                        p.amount as int
                    } else {
                        0
                    })
                },
            }
        },
{
    let r = s.resolve_dispute_spec(admin, dispute_id, resolve_to_subscriber, now);
    if r is Ok {
        let (s1, res) = r.unwrap();
        let d = s.disputes[dispute_id];
        let sub_token = s.subscriptions[d.subscription_id].token;
        assert forall|i: int| i != dispute_id as int implies #[trigger] escrow_term(s1, merchant, token, i)
            == escrow_term(s, merchant, token, i) by {
            if 0 <= i <= u64::MAX {
                assert(i as u64 != dispute_id);
            }
        }
        lemma_escrow_held_one_change(s, s1, merchant, token, dispute_id as int, (u64::MAX + 1) as nat);
        assert(escrow_term(s1, merchant, token, dispute_id as int) == 0);
        if merchant == d.merchant && token == sub_token {
            assert(escrow_term(s, merchant, token, dispute_id as int) == s.escrow_of(dispute_id));
        } else {
            assert(escrow_term(s, merchant, token, dispute_id as int) == 0);
        }
    }
}

} // verus!
