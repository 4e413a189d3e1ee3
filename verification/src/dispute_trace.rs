//! The dispute workflow over a whole sequence of calls: what a subscription's
//! active dispute is after any run of opens, responses and resolutions.

use vstd::prelude::*;
use crate::state::VaultModel;
use crate::types::{Address, Dispute, DisputeStatus};

verus! {

/// One call of the dispute workflow, with its arguments.
#[derive(Clone, Copy, Debug)]
pub enum DisputeCall {
    Open { subscriber: Address, subscription_id: u32, amount: i128, evidence_hash: Option<[u8; 32]>, now: u64 },
    Respond { admin: Address, dispute_id: u64, evidence_hash: Option<[u8; 32]>, now: u64 },
    Resolve { admin: Address, dispute_id: u64, resolve_to_subscriber: bool, now: u64 },
}

/// The state after `call` on `s`: the specified new state when the call is
/// accepted, `s` itself when it is refused. This is what the operations'
/// `ensures` (`outcome_agrees`) say of `do_open_dispute`, `do_respond_dispute`
/// and `do_resolve_dispute`.
pub open spec fn apply_call(s: VaultModel, call: DisputeCall) -> VaultModel {
    match call {
        DisputeCall::Open { subscriber, subscription_id, amount, evidence_hash, now } => match s.open_dispute_spec(
            subscriber,
            subscription_id,
            amount,
            evidence_hash,
            now,
        ) {
            Ok((s1, _)) => s1,
            Err(_) => s,
        },
        DisputeCall::Respond { admin, dispute_id, evidence_hash, now } => match s.respond_dispute_spec(
            admin,
            dispute_id,
            evidence_hash,
            now,
        ) {
            Ok((s1, _)) => s1,
            Err(_) => s,
        },
        DisputeCall::Resolve { admin, dispute_id, resolve_to_subscriber, now } => match s.resolve_dispute_spec(
            admin,
            dispute_id,
            resolve_to_subscriber,
            now,
        ) {
            Ok((s1, _)) => s1,
            Err(_) => s,
        },
    }
}

/// The state after running `calls` in order from `s`.
pub open spec fn run(s: VaultModel, calls: Seq<DisputeCall>) -> VaultModel
    decreases calls.len(),
{
    if calls.len() == 0 {
        s
    } else {
        apply_call(run(s, calls.drop_last()), calls.last())
    }
}

/// The state in which call `i` of `calls` runs.
pub open spec fn state_before(s0: VaultModel, calls: Seq<DisputeCall>, i: int) -> VaultModel {
    run(s0, calls.take(i))
}

/// Call `i` opened a dispute on subscription `sid` and returned `Ok(id)`.
pub open spec fn opens_at(s0: VaultModel, calls: Seq<DisputeCall>, i: int, sid: u32, id: u64) -> bool {
    &&& 0 <= i < calls.len()
    &&& calls[i] matches DisputeCall::Open { subscriber, subscription_id, amount, evidence_hash, now }
    &&& subscription_id == sid
    &&& state_before(s0, calls, i).open_dispute_spec(subscriber, subscription_id, amount, evidence_hash, now)
        matches Ok((_, (rid, _)))
    &&& rid == id
}

/// Call `j` of `calls` resolved dispute `id` and returned `Ok`.
pub open spec fn resolves_at(s0: VaultModel, calls: Seq<DisputeCall>, j: int, id: u64) -> bool {
    &&& 0 <= j < calls.len()
    &&& calls[j] matches DisputeCall::Resolve { admin, dispute_id, resolve_to_subscriber, now }
    &&& dispute_id == id
    &&& state_before(s0, calls, j).resolve_dispute_spec(admin, dispute_id, resolve_to_subscriber, now) is Ok
}

/// Among the first `n` calls, one opened dispute `id` on subscription `sid` and no
/// later one of them resolved it.
pub open spec fn opened_and_unresolved(s0: VaultModel, calls: Seq<DisputeCall>, n: int, sid: u32, id: u64) -> bool {
    exists|i: int|
        0 <= i < n && #[trigger] opens_at(s0, calls, i, sid, id) && forall|j: int|
            i < j < n ==> !#[trigger] resolves_at(s0, calls, j, id)
}

/// The state before call `k + 1` is call `k` applied to the state before call `k`.
proof fn lemma_state_step(s0: VaultModel, calls: Seq<DisputeCall>, k: int)
    requires
        0 <= k < calls.len(),
    ensures
        state_before(s0, calls, k + 1) == apply_call(state_before(s0, calls, k), calls[k]),
{
    assert(calls.take(k + 1).drop_last() =~= calls.take(k));
    assert(calls.take(k + 1).last() == calls[k]);
}

/// Extending the prefix by call `k`: a dispute is opened and unresolved after it
/// exactly when call `k` opened it, or it was so before and call `k` did not resolve it.
proof fn lemma_unresolved_step(s0: VaultModel, calls: Seq<DisputeCall>, k: int, sid: u32, id: u64)
    requires
        0 <= k < calls.len(),
    ensures
        opened_and_unresolved(s0, calls, k + 1, sid, id) == (opens_at(s0, calls, k, sid, id) || (
        opened_and_unresolved(s0, calls, k, sid, id) && !resolves_at(s0, calls, k, id))),
{
    if opened_and_unresolved(s0, calls, k + 1, sid, id) {
        let i = choose|i: int|
            0 <= i < k + 1 && #[trigger] opens_at(s0, calls, i, sid, id) && forall|j: int|
                i < j < k + 1 ==> !#[trigger] resolves_at(s0, calls, j, id);
        if i < k {
            assert(!resolves_at(s0, calls, k, id));
            assert(opened_and_unresolved(s0, calls, k, sid, id));
        }
    }
    if opens_at(s0, calls, k, sid, id) {
        assert(opened_and_unresolved(s0, calls, k + 1, sid, id));
    }
    if opened_and_unresolved(s0, calls, k, sid, id) && !resolves_at(s0, calls, k, id) {
        let i = choose|i: int|
            0 <= i < k && #[trigger] opens_at(s0, calls, i, sid, id) && forall|j: int|
                i < j < k ==> !#[trigger] resolves_at(s0, calls, j, id);
        assert forall|j: int| i < j < k + 1 implies !#[trigger] resolves_at(s0, calls, j, id) by {
            if j < k {
            }
        }
        assert(opened_and_unresolved(s0, calls, k + 1, sid, id));
    }
}

/// The run starts from a vault without disputes and has ids to spare.
pub open spec fn fresh_start(s0: VaultModel, calls: Seq<DisputeCall>) -> bool {
    &&& s0.disputes == Map::<u64, Dispute>::empty()
    &&& s0.dispute_escrow == Map::<u64, i128>::empty()
    &&& s0.subscription_disputes == Map::<u32, u64>::empty()
    &&& s0.next_dispute_id_of() + calls.len() < u64::MAX
}

proof fn lemma_prefix(s0: VaultModel, calls: Seq<DisputeCall>, n: int)
    requires
        fresh_start(s0, calls),
        0 <= n <= calls.len(),
    ensures
        state_before(s0, calls, n).disputes_consistent(),
        state_before(s0, calls, n).next_dispute_id_of() <= s0.next_dispute_id_of() + n,
        forall|sid: u32, id: u64|
            (state_before(s0, calls, n).subscription_disputes.get(sid) == Some(id)) == #[trigger] opened_and_unresolved(
                s0,
                calls,
                n,
                sid,
                id,
            ),
    decreases n,
{
    if n == 0 {
        assert(calls.take(0) =~= Seq::<DisputeCall>::empty());
        crate::dispute::lemma_no_disputes_consistent(s0);
    } else {
        let k = n - 1;
        lemma_prefix(s0, calls, k);
        lemma_state_step(s0, calls, k);
        let sk = state_before(s0, calls, k);
        let sk1 = state_before(s0, calls, n);
        match calls[k] {
            DisputeCall::Open { subscriber, subscription_id, amount, evidence_hash, now } => {
                if sk.open_dispute_spec(subscriber, subscription_id, amount, evidence_hash, now) is Ok {
                    crate::dispute::lemma_open_keeps_disputes_consistent(
                        sk,
                        subscriber,
                        subscription_id,
                        amount,
                        evidence_hash,
                        now,
                    );
                }
            },
            DisputeCall::Respond { admin, dispute_id, evidence_hash, now } => {
                if sk.respond_dispute_spec(admin, dispute_id, evidence_hash, now) is Ok {
                    crate::dispute::lemma_respond_keeps_disputes_consistent(sk, admin, dispute_id, evidence_hash, now);
                }
            },
            DisputeCall::Resolve { admin, dispute_id, resolve_to_subscriber, now } => {
                if sk.resolve_dispute_spec(admin, dispute_id, resolve_to_subscriber, now) is Ok {
                    crate::dispute::lemma_resolve_keeps_disputes_consistent(
                        sk,
                        admin,
                        dispute_id,
                        resolve_to_subscriber,
                        now,
                    );
                }
            },
        }
        assert forall|sid: u32, id: u64|
            (sk1.subscription_disputes.get(sid) == Some(id)) == #[trigger] opened_and_unresolved(
                s0,
                calls,
                n,
                sid,
                id,
            ) by {
            lemma_unresolved_step(s0, calls, k, sid, id);
            assert((sk.subscription_disputes.get(sid) == Some(id)) == opened_and_unresolved(s0, calls, k, sid, id));
            match calls[k] {
                DisputeCall::Resolve { admin, dispute_id, resolve_to_subscriber, now } => {
                    if sk.resolve_dispute_spec(admin, dispute_id, resolve_to_subscriber, now) is Ok {
                        let d = sk.disputes[dispute_id];
                        assert(sk.disputes.contains_key(dispute_id) && crate::dispute::is_active(d.status));
                        assert(sk.subscription_disputes.get(d.subscription_id) == Some(dispute_id));
                        if sk.subscription_disputes.get(sid) == Some(id) {
                            assert(sk.subscription_disputes.contains_key(sid));
                            assert(sk.disputes[id].subscription_id == sid);
                        }
                    }
                },
                _ => {},
            }
        }
    }
}

/// A subscription's active dispute, after any run of dispute calls from a vault
/// without disputes, is `id` exactly when some call opened dispute `id` on it
/// (returning `Ok(id)`) and no later call resolved that dispute (returning `Ok`);
/// when no dispute is open and unresolved in this sense, it has none
/// (`do_get_subscription_dispute` returns this index without writing anything).
/// The run must leave ids to spare: it starts below `u64::MAX` by more than its length.
pub proof fn lemma_active_dispute_is_open_and_unresolved(
    s0: VaultModel,
    calls: Seq<DisputeCall>,
    sid: u32,
    id: u64,
)
    requires
        fresh_start(s0, calls),
    ensures
        (run(s0, calls).subscription_disputes.get(sid) == Some(id)) == opened_and_unresolved(
            s0,
            calls,
            calls.len() as int,
            sid,
            id,
        ),
{
    lemma_prefix(s0, calls, calls.len() as int);
    assert(calls.take(calls.len() as int) =~= calls);
}

/// Call `j` of `calls` responded to dispute `id` and returned `Ok`.
pub open spec fn responds_at(s0: VaultModel, calls: Seq<DisputeCall>, j: int, id: u64) -> bool {
    &&& 0 <= j < calls.len()
    &&& calls[j] matches DisputeCall::Respond { admin, dispute_id, evidence_hash, now }
    &&& dispute_id == id
    &&& state_before(s0, calls, j).respond_dispute_spec(admin, dispute_id, evidence_hash, now) is Ok
}

/// Among the first `n` calls, one opened dispute `id` (on some subscription).
pub open spec fn opened_before(s0: VaultModel, calls: Seq<DisputeCall>, n: int, id: u64) -> bool {
    exists|i: int, sid: u32| 0 <= i < n && #[trigger] opens_at(s0, calls, i, sid, id)
}

proof fn lemma_stored_disputes_prefix(s0: VaultModel, calls: Seq<DisputeCall>, n: int)
    requires
        fresh_start(s0, calls),
        0 <= n <= calls.len(),
    ensures
        forall|id: u64|
            state_before(s0, calls, n).disputes.contains_key(id) == #[trigger] opened_before(s0, calls, n, id),
    decreases n,
{
    if n == 0 {
        assert(calls.take(0) =~= Seq::<DisputeCall>::empty());
    } else {
        let k = n - 1;
        lemma_stored_disputes_prefix(s0, calls, k);
        lemma_state_step(s0, calls, k);
        let sk = state_before(s0, calls, k);
        let sk1 = state_before(s0, calls, n);
        assert forall|id: u64| sk1.disputes.contains_key(id) == #[trigger] opened_before(s0, calls, n, id) by {
            assert(sk.disputes.contains_key(id) == opened_before(s0, calls, k, id));
            if opened_before(s0, calls, n, id) {
                let (i, sid) = choose|i: int, sid: u32| 0 <= i < n && #[trigger] opens_at(s0, calls, i, sid, id);
                if i < k {
                    assert(opened_before(s0, calls, k, id));
                }
            }
            if opened_before(s0, calls, k, id) {
                let (i, sid) = choose|i: int, sid: u32| 0 <= i < k && #[trigger] opens_at(s0, calls, i, sid, id);
                assert(opens_at(s0, calls, i, sid, id));
                assert(opened_before(s0, calls, n, id));
            }
            match calls[k] {
                DisputeCall::Open { subscriber, subscription_id, amount, evidence_hash, now } => {
                    let r = sk.open_dispute_spec(subscriber, subscription_id, amount, evidence_hash, now);
                    if r is Ok && id == r.unwrap().1.0 {
                        assert(opens_at(s0, calls, k, subscription_id, id));
                        assert(opened_before(s0, calls, n, id));
                    }
                },
                _ => {},
            }
        }
    }
}

/// The disputes stored after a run from a vault without disputes are exactly the
/// ones that some call of the run opened: `do_get_dispute` finds an id (returns
/// `Ok`) exactly when some `do_open_dispute` of the run returned `Ok` with that id,
/// and returns `Err(DisputeNotFound)` for every id that was never handed out.
pub proof fn lemma_stored_disputes_are_opened_ones(s0: VaultModel, calls: Seq<DisputeCall>, id: u64)
    requires
        fresh_start(s0, calls),
    ensures
        run(s0, calls).disputes.contains_key(id) == opened_before(s0, calls, calls.len() as int, id),
{
    lemma_stored_disputes_prefix(s0, calls, calls.len() as int);
    assert(calls.take(calls.len() as int) =~= calls);
}

/// Dispute `id`, opened by call `i`, is not responded to or resolved by calls `i+1 .. n`.
pub open spec fn untouched_between(s0: VaultModel, calls: Seq<DisputeCall>, i: int, n: int, id: u64) -> bool {
    &&& forall|j: int| i < j < n ==> !#[trigger] responds_at(s0, calls, j, id)
    &&& forall|j: int| i < j < n ==> !#[trigger] resolves_at(s0, calls, j, id)
}

proof fn lemma_record_kept(s0: VaultModel, calls: Seq<DisputeCall>, i: int, sid: u32, id: u64, n: int)
    requires
        fresh_start(s0, calls),
        opens_at(s0, calls, i, sid, id),
        i < n <= calls.len(),
        untouched_between(s0, calls, i, n, id),
    ensures
        state_before(s0, calls, n).disputes.get(id) == state_before(s0, calls, i + 1).disputes.get(id),
        state_before(s0, calls, n).disputes.contains_key(id),
    decreases n - i,
{
    if n == i + 1 {
        lemma_state_step(s0, calls, i);
    } else {
        let k = n - 1;
        lemma_record_kept(s0, calls, i, sid, id, k);
        lemma_state_step(s0, calls, k);
        lemma_prefix(s0, calls, k);
        let sk = state_before(s0, calls, k);
        assert(sk.disputes.contains_key(id));
        assert(id < sk.next_dispute_id_of());
        assert(!responds_at(s0, calls, k, id) && !resolves_at(s0, calls, k, id));
    }
}

/// Reading back an opened dispute: after a run from a vault without disputes in
/// which call `i` opened dispute `id` (returning `Ok(id)`) and no later call
/// responded to or resolved it, the stored record (what `do_get_dispute` returns)
/// is the one the open wrote: its id, subscription, subscriber, the subscription's
/// merchant, the amount, the opening time, status `Open`, the evidence hash, and
/// no response yet.
pub proof fn lemma_opened_dispute_reads_back(
    s0: VaultModel,
    calls: Seq<DisputeCall>,
    i: int,
    sid: u32,
    id: u64,
)
    requires
        fresh_start(s0, calls),
        opens_at(s0, calls, i, sid, id),
        untouched_between(s0, calls, i, calls.len() as int, id),
    ensures
        calls[i] matches DisputeCall::Open { subscriber, subscription_id, amount, evidence_hash, now } ==> run(
            s0,
            calls,
        ).disputes.get(id) == Some(
            Dispute {
                id,
                subscription_id: sid,
                subscriber,
                merchant: state_before(s0, calls, i).subscriptions[sid].merchant,
                amount,
                opened_at: now,
                status: DisputeStatus::Open,
                evidence_hash,
                responded_at: None,
                admin_evidence_hash: None,
            },
        ),
{
    lemma_record_kept(s0, calls, i, sid, id, calls.len() as int);
    lemma_state_step(s0, calls, i);
    assert(calls.take(calls.len() as int) =~= calls);
}

} // verus!
