//! The vault's stored state, as far as the accounting and dispute logic reads
//! and writes it: one table per family of storage keys, and its mathematical
//! model [`VaultModel`].

use vstd::prelude::*;
use crate::table::{Table, TableKey};
use crate::types::{Address, Dispute, Subscription};

verus! {

impl TableKey for Address {
    fn same_key(&self, other: &Self) -> (r: bool) {
        *self == *other
    }
}

/// The key of a merchant's balance in one settlement token.
#[derive(Clone, Copy, Debug, PartialEq, Eq, Structural)]
pub struct MerchantToken {
    pub merchant: Address,
    pub token: Address,
}

impl TableKey for MerchantToken {
    fn same_key(&self, other: &Self) -> (r: bool) {
        *self == *other
    }
}

/// The storage cells that the accounting, invariant and dispute operations
/// read and write. Each field holds the cells of one `DataKey` family.
pub struct VaultState {
    /// `DataKey::Admin`: the contract admin, once initialised.
    pub admin: Option<Address>,
    /// `DataKey::Sub(id)`: subscription records.
    pub subscriptions: Table<u32, Subscription>,
    /// `DataKey::MerchantBalance(merchant, token)`: accumulated merchant balances.
    pub merchant_balances: Table<MerchantToken, i128>,
    /// The list of every merchant known to the vault, which the token-balance
    /// invariant sums over.
    pub merchants: Vec<Address>,
    /// `DataKey::TotalAccounted(token)`: total amount the vault accounts for per token.
    pub total_accounted: Table<Address, i128>,
    /// `DataKey::TokenDecimals(token)`: decimals of each accepted token.
    pub token_decimals: Table<Address, u32>,
    /// `DataKey::DisputeEscrow(id)`: amount held in escrow for each dispute.
    pub dispute_escrow: Table<u64, i128>,
    /// `DataKey::Dispute(id)`: dispute records.
    pub disputes: Table<u64, Dispute>,
    /// `DataKey::SubscriptionDispute(subscription_id)`: the active dispute of a subscription.
    pub subscription_disputes: Table<u32, u64>,
    /// `DataKey::NextDisputeId`: the id the next dispute will get.
    pub next_dispute_id: Option<u64>,
}

/// Mathematical model of [`VaultState`]: the same cells as maps and sequences.
pub struct VaultModel {
    pub admin: Option<Address>,
    pub subscriptions: Map<u32, Subscription>,
    pub merchant_balances: Map<MerchantToken, i128>,
    pub merchants: Seq<Address>,
    pub total_accounted: Map<Address, i128>,
    pub token_decimals: Map<Address, u32>,
    pub dispute_escrow: Map<u64, i128>,
    pub disputes: Map<u64, Dispute>,
    pub subscription_disputes: Map<u32, u64>,
    pub next_dispute_id: Option<u64>,
}

impl View for VaultState {
    type V = VaultModel;

    open spec fn view(&self) -> VaultModel {
        VaultModel {
            admin: self.admin,
            subscriptions: self.subscriptions@,
            merchant_balances: self.merchant_balances@,
            merchants: self.merchants@,
            total_accounted: self.total_accounted@,
            token_decimals: self.token_decimals@,
            dispute_escrow: self.dispute_escrow@,
            disputes: self.disputes@,
            subscription_disputes: self.subscription_disputes@,
            next_dispute_id: self.next_dispute_id,
        }
    }
}

impl VaultModel {
    /// A merchant's balance in a token; an absent cell reads as zero.
    pub open spec fn merchant_balance(self, merchant: Address, token: Address) -> i128 {
        match self.merchant_balances.get(MerchantToken { merchant, token }) {
            Some(b) => b,
            None => 0,
        }
    }

    /// The total accounted amount of a token; an absent cell reads as zero.
    pub open spec fn total_accounted_of(self, token: Address) -> i128 {
        match self.total_accounted.get(token) {
            Some(v) => v,
            None => 0,
        }
    }

    /// The escrow held for a dispute; an absent cell reads as zero.
    pub open spec fn escrow_of(self, dispute_id: u64) -> i128 {
        match self.dispute_escrow.get(dispute_id) {
            Some(v) => v,
            None => 0,
        }
    }

    /// The decimals recorded for a token, if any.
    pub open spec fn decimals_of(self, token: Address) -> Option<u32> {
        self.token_decimals.get(token)
    }

    /// The error with which an admin-only operation refuses `admin`, if any:
    /// `NotInitialized` when no admin is stored, `Unauthorized` when `admin` is not it.
    pub open spec fn admin_error(self, admin: Address) -> Option<crate::types::Error> {
        match self.admin {
            None => Some(crate::types::Error::NotInitialized),
            Some(a) => if a == admin {
                None
            } else {
                Some(crate::types::Error::Unauthorized)
            },
        }
    }
}

/// The result `r` of an operation on a state that was `before` and is `after`
/// agrees with its specification `expected`: on success the state is the
/// specified one and the output the specified output; on failure the error is
/// the specified one and the state is unchanged.
pub open spec fn outcome_agrees<T>(
    expected: Result<(VaultModel, T), crate::types::Error>,
    r: Result<T, crate::types::Error>,
    before: VaultModel,
    after: VaultModel,
) -> bool {
    match expected {
        Ok((m, out)) => r == Ok::<T, crate::types::Error>(out) && after == m,
        Err(e) => r == Err::<T, crate::types::Error>(e) && after == before,
    }
}

impl VaultState {
    /// A vault with no stored cells.
    pub fn new() -> (s: Self)
        ensures
            s@.admin.is_none(),
            s@.subscriptions == Map::<u32, Subscription>::empty(),
            s@.merchant_balances == Map::<MerchantToken, i128>::empty(),
            s@.merchants == Seq::<Address>::empty(),
            s@.total_accounted == Map::<Address, i128>::empty(),
            s@.token_decimals == Map::<Address, u32>::empty(),
            s@.dispute_escrow == Map::<u64, i128>::empty(),
            s@.disputes == Map::<u64, Dispute>::empty(),
            s@.subscription_disputes == Map::<u32, u64>::empty(),
            s@.next_dispute_id.is_none(),
    {
        VaultState {
            admin: None,
            subscriptions: Table::new(),
            merchant_balances: Table::new(),
            merchants: Vec::new(),
            total_accounted: Table::new(),
            token_decimals: Table::new(),
            dispute_escrow: Table::new(),
            disputes: Table::new(),
            subscription_disputes: Table::new(),
            next_dispute_id: None,
        }
    }

    /// A merchant's balance in a token (zero when none is stored).
    pub fn get_merchant_balance_by_token(&self, merchant: &Address, token: &Address) -> (b: i128)
        ensures
            b == self@.merchant_balance(*merchant, *token),
    {
        match self.merchant_balances.get(&MerchantToken { merchant: *merchant, token: *token }) {
            Some(b) => b,
            None => 0,
        }
    }

    /// Stores a merchant's balance in a token.
    pub fn set_merchant_balance(&mut self, merchant: &Address, token: &Address, amount: i128)
        ensures
            final(self)@ == (VaultModel {
                merchant_balances: old(self)@.merchant_balances.insert(
                    MerchantToken { merchant: *merchant, token: *token },
                    amount,
                ),
                ..old(self)@
            }),
    {
        self.merchant_balances.insert(MerchantToken { merchant: *merchant, token: *token }, amount);
    }

    /// Looks up a subscription; `NotFound` when none is stored under `subscription_id`.
    pub fn get_subscription(&self, subscription_id: u32) -> (r: Result<Subscription, crate::types::Error>)
        ensures
            match self@.subscriptions.get(subscription_id) {
                Some(s) => r == Ok::<Subscription, crate::types::Error>(s),
                None => r == Err::<Subscription, crate::types::Error>(crate::types::Error::NotFound),
            },
    {
        match self.subscriptions.get(&subscription_id) {
            Some(s) => Ok(s),
            None => Err(crate::types::Error::NotFound),
        }
    }

    /// Admin check of admin-only operations (see [`VaultModel::admin_error`]).
    pub fn require_admin(&self, admin: &Address) -> (r: Result<(), crate::types::Error>)
        ensures
            match self@.admin_error(*admin) {
                Some(e) => r == Err::<(), crate::types::Error>(e),
                None => r is Ok,
            },
    {
        match self.admin {
            None => Err(crate::types::Error::NotInitialized),
            Some(a) => if a == *admin {
                Ok(())
            } else {
                Err(crate::types::Error::Unauthorized)
            },
        }
    }
}

} // verus!
