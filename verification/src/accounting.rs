//! The per-token total that the vault accounts for.

use vstd::prelude::*;
use crate::state::{outcome_agrees, VaultModel, VaultState};
use crate::types::{Address, Error};

verus! {

impl VaultModel {
    /// Increasing the accounted total of `token` by `amount`: refused with
    /// `InvalidAmount` for a negative amount and with `Overflow` when the new
    /// total does not fit in an `i128`.
    pub open spec fn add_total_accounted_spec(self, token: Address, amount: i128) -> Result<
        (VaultModel, ()),
        Error,
    > {
        let next = self.total_accounted_of(token) + amount;
        if amount < 0 {
            Err(Error::InvalidAmount)
        } else if next > i128::MAX {
            Err(Error::Overflow)
        } else {
            Ok((VaultModel { total_accounted: self.total_accounted.insert(token, next as i128), ..self }, ()))
        }
    }

    /// Decreasing the accounted total of `token` by `amount`: refused with
    /// `InvalidAmount` for a negative amount and with `Underflow` when the new
    /// total does not fit in an `i128`. The total itself may become negative.
    pub open spec fn sub_total_accounted_spec(self, token: Address, amount: i128) -> Result<
        (VaultModel, ()),
        Error,
    > {
        let next = self.total_accounted_of(token) - amount;
        if amount < 0 {
            Err(Error::InvalidAmount)
        } else if next < i128::MIN {
            Err(Error::Underflow)
        } else {
            Ok((VaultModel { total_accounted: self.total_accounted.insert(token, next as i128), ..self }, ()))
        }
    }
}

/// Increases the globally tracked accounted amount for a token.
pub fn add_total_accounted(state: &mut VaultState, token: &Address, amount: i128) -> (r: Result<(), Error>)
    ensures
        outcome_agrees(old(state)@.add_total_accounted_spec(*token, amount), r, old(state)@, final(state)@),
{
    if amount < 0 {
        return Err(Error::InvalidAmount);
    }
    let current: i128 = get_total_accounted(state, token);
    let new_value = match current.checked_add(amount) {
        Some(v) => v,
        None => return Err(Error::Overflow),
    };
    state.total_accounted.insert(*token, new_value);
    Ok(())
}

/// Decreases the globally tracked accounted amount for a token.
pub fn sub_total_accounted(state: &mut VaultState, token: &Address, amount: i128) -> (r: Result<(), Error>)
    ensures
        outcome_agrees(old(state)@.sub_total_accounted_spec(*token, amount), r, old(state)@, final(state)@),
{
    if amount < 0 {
        return Err(Error::InvalidAmount);
    }
    let current: i128 = get_total_accounted(state, token);
    let new_value = match current.checked_sub(amount) {
        Some(v) => v,
        None => return Err(Error::Underflow),
    };
    state.total_accounted.insert(*token, new_value);
    Ok(())
}

/// Reads the total accounted value of a token (zero when none is stored).
pub fn get_total_accounted(state: &VaultState, token: &Address) -> (v: i128)
    ensures
        v == state@.total_accounted_of(*token),
{
    match state.total_accounted.get(token) {
        Some(v) => v,
        None => 0,
    }
}

/// Adding an amount to a token's accounted total and then taking the same
/// amount away leaves the vault as it was.
pub proof fn lemma_add_then_sub_total_accounted(s: VaultModel, token: Address, amount: i128)
    requires
        s.add_total_accounted_spec(token, amount) is Ok,
    ensures
        ({
            let s1 = s.add_total_accounted_spec(token, amount).unwrap().0;
            &&& s1.sub_total_accounted_spec(token, amount) is Ok
            &&& s1.sub_total_accounted_spec(token, amount).unwrap().0 == (VaultModel {
                total_accounted: s.total_accounted.insert(token, s.total_accounted_of(token)),
                ..s
            })
        }),
{
    let s1 = s.add_total_accounted_spec(token, amount).unwrap().0;
    assert(s1.total_accounted_of(token) == s.total_accounted_of(token) + amount);
    let s2 = s1.sub_total_accounted_spec(token, amount).unwrap().0;
    assert(s2.total_accounted =~= s.total_accounted.insert(token, s.total_accounted_of(token)));
}

/// Adding to a token's accounted total succeeds exactly when the amount is not
/// negative and the new total fits in an `i128`; it then raises that token's
/// total by the amount and changes nothing else. A negative amount is refused
/// with `InvalidAmount`, a total that would not fit with `Overflow`.
pub proof fn lemma_add_total_accounted_result(s: VaultModel, token: Address, amount: i128)
    ensures
        ({
            let r = s.add_total_accounted_spec(token, amount);
            &&& (r is Ok) == (amount >= 0 && s.total_accounted_of(token) + amount <= i128::MAX)
            &&& amount < 0 ==> r == Err::<(VaultModel, ()), Error>(Error::InvalidAmount)
            &&& (amount >= 0 && s.total_accounted_of(token) + amount > i128::MAX) ==> r == Err::<
                (VaultModel, ()),
                Error,
            >(Error::Overflow)
            &&& r matches Ok((s1, _)) ==> {
                &&& s1.total_accounted_of(token) == s.total_accounted_of(token) + amount
                &&& forall|t: Address| t != token ==> #[trigger] s1.total_accounted.get(t) == s.total_accounted.get(t)
                &&& s1 == (VaultModel { total_accounted: s1.total_accounted, ..s })
            }
        }),
{
}

/// Taking from a token's accounted total succeeds exactly when the amount is not
/// negative and the new total fits in an `i128` (it may become negative); it then
/// lowers that token's total by the amount and changes nothing else. A negative
/// amount is refused with `InvalidAmount`, a total that would not fit with
/// `Underflow`.
pub proof fn lemma_sub_total_accounted_result(s: VaultModel, token: Address, amount: i128)
    ensures
        ({
            let r = s.sub_total_accounted_spec(token, amount);
            &&& (r is Ok) == (amount >= 0 && s.total_accounted_of(token) - amount >= i128::MIN)
            &&& amount < 0 ==> r == Err::<(VaultModel, ()), Error>(Error::InvalidAmount)
            &&& (amount >= 0 && s.total_accounted_of(token) - amount < i128::MIN) ==> r == Err::<
                (VaultModel, ()),
                Error,
            >(Error::Underflow)
            &&& r matches Ok((s1, _)) ==> {
                &&& s1.total_accounted_of(token) == s.total_accounted_of(token) - amount
                &&& forall|t: Address| t != token ==> #[trigger] s1.total_accounted.get(t) == s.total_accounted.get(t)
                &&& s1 == (VaultModel { total_accounted: s1.total_accounted, ..s })
            }
        }),
{
}

} // verus!
