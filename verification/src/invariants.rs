//! The token-balance invariant: what the vault holds of a token equals the sum
//! of the balances it records for merchants in that token.

use vstd::prelude::*;
use crate::state::{VaultModel, VaultState};
use crate::types::{Address, Error};

verus! {

/// Sum of a sequence of amounts.
pub open spec fn sum_of(s: Seq<i128>) -> int
    decreases s.len(),
{
    if s.len() == 0 {
        0
    } else {
        sum_of(s.drop_last()) + s.last()
    }
}

/// Every running total of `s` (the sums of its prefixes) fits in an `i128`.
pub open spec fn running_totals_fit(s: Seq<i128>) -> bool {
    forall|k: int| 0 <= k <= s.len() ==> i128::MIN <= #[trigger] sum_of(s.take(k)) <= i128::MAX
}

/// The balances, in `token`, of the merchants the vault lists, in list order.
pub open spec fn listed_merchant_balances(s: VaultModel, token: Address) -> Seq<i128> {
    s.merchants.map_values(|m: Address| s.merchant_balance(m, token))
}

/// Checks that `live_balance`, the vault's current holding of `token` as the
/// token contract reports it, equals the sum of the balances in `token` of all
/// listed merchants. Fails with `Overflow` when a running total of that sum does
/// not fit in an `i128`, and with `InvariantViolation` when the sum differs from
/// the live balance.
pub fn assert_token_balance_invariant(state: &VaultState, token: &Address, live_balance: i128) -> (r: Result<
    (),
    Error,
>)
    ensures
        ({
            let bals = listed_merchant_balances(state@, *token);
            &&& (r == Err::<(), Error>(Error::Overflow)) == !running_totals_fit(bals)
            &&& (r == Err::<(), Error>(Error::InvariantViolation)) == (running_totals_fit(bals) && sum_of(bals)
                != live_balance)
            &&& (r is Ok) == (running_totals_fit(bals) && sum_of(bals) == live_balance)
        }),
{
    let ghost bals = listed_merchant_balances(state@, *token);
    let mut expected: i128 = 0;
    let mut i: usize = 0;
    assert(bals.take(0) =~= Seq::<i128>::empty());
    while i < state.merchants.len()
        invariant
            bals == listed_merchant_balances(state@, *token),
            bals.len() == state.merchants@.len(),
            0 <= i <= bals.len(),
            expected == sum_of(bals.take(i as int)),
            forall|k: int| 0 <= k <= i ==> i128::MIN <= #[trigger] sum_of(bals.take(k)) <= i128::MAX,
        decreases bals.len() - i,
    {
        let merchant = state.merchants[i];
        let b = state.get_merchant_balance_by_token(&merchant, token);
        assert(bals.take(i + 1).drop_last() =~= bals.take(i as int));
        assert(b == bals[i as int]);
        match expected.checked_add(b) {
            Some(v) => {
                expected = v;
            },
            None => {
                assert(!(i128::MIN <= sum_of(bals.take(i + 1)) <= i128::MAX));
                return Err(Error::Overflow);
            },
        }
        i = i + 1;
    }
    assert(bals.take(bals.len() as int) =~= bals);
    assert(running_totals_fit(bals));
    if live_balance != expected {
        return Err(Error::InvariantViolation);
    }
    Ok(())
}

} // verus!
