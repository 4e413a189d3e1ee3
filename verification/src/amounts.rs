//! Conversion of token amounts to and from the vault's common 9-decimal scale.

use vstd::prelude::*;
use crate::state::{VaultModel, VaultState};
use crate::types::{Address, Error};

verus! {

/// The number of decimal places of the common scale.
pub const NORMALIZED_DECIMALS: u32 = 9;

/// `10` to the power `n`.
pub open spec fn pow10(n: nat) -> int
    decreases n,
{
    if n == 0 {
        1
    } else {
        10 * pow10((n - 1) as nat)
    }
}

/// The largest token decimals for which the scaling factor `10^|decimals - 9|`
/// fits in an `i128` (`10^38 < 2^127 <= 10^39`).
pub open spec fn decimals_in_range(decimals: Option<u32>) -> bool {
    match decimals {
        Some(d) => d <= 47,
        None => true,
    }
}

/// Normalising `raw` (in a token with `decimals`) to 9 decimals: `InvalidToken` when
/// the token has no recorded decimals, `InvalidTokenDecimals` when they are zero.
/// With at most 9 decimals the amount is scaled up by `10^(9 - d)` (`Overflow` when
/// that does not fit); with more it is scaled down by `10^(d - 9)`, which must divide
/// it exactly (`InvalidInput` otherwise).
pub open spec fn normalize_spec(decimals: Option<u32>, raw: i128) -> Result<i128, Error> {
    match decimals {
        None => Err(Error::InvalidToken),
        Some(d) => if d == 0 {
            Err(Error::InvalidTokenDecimals)
        } else if d <= 9 {
            let scaled = raw * pow10((9 - d) as nat);
            if i128::MIN <= scaled <= i128::MAX {
                Ok(scaled as i128)
            } else {
                Err(Error::Overflow)
            }
        } else {
            let f = pow10((d - 9) as nat);
            if (raw as int) % f != 0 {
                Err(Error::InvalidInput)
            } else {
                Ok(((raw as int) / f) as i128)
            }
        },
    }
}

/// The inverse conversion, from 9 decimals back to a token with `decimals`:
/// the same errors for missing or zero decimals; with at most 9 decimals the amount
/// is scaled down by `10^(9 - d)`, which must divide it exactly (`InvalidInput`
/// otherwise); with more it is scaled up by `10^(d - 9)` (`Overflow` when that does
/// not fit).
pub open spec fn denormalize_spec(decimals: Option<u32>, normalized: i128) -> Result<i128, Error> {
    match decimals {
        None => Err(Error::InvalidToken),
        Some(d) => if d == 0 {
            Err(Error::InvalidTokenDecimals)
        } else if d <= 9 {
            let f = pow10((9 - d) as nat);
            if (normalized as int) % f != 0 {
                Err(Error::InvalidInput)
            } else {
                Ok(((normalized as int) / f) as i128)
            }
        } else {
            let scaled = normalized * pow10((d - 9) as nat);
            if i128::MIN <= scaled <= i128::MAX {
                Ok(scaled as i128)
            } else {
                Err(Error::Overflow)
            }
        },
    }
}

proof fn lemma_pow10_positive(n: nat)
    ensures
        pow10(n) >= 1,
    decreases n,
{
    if n > 0 {
        lemma_pow10_positive((n - 1) as nat);
    }
}

proof fn lemma_pow10_monotone(a: nat, b: nat)
    requires
        a <= b,
    ensures
        pow10(a) <= pow10(b),
    decreases b,
{
    if a < b {
        lemma_pow10_monotone(a, (b - 1) as nat);
        lemma_pow10_positive((b - 1) as nat);
    }
}

/// `10^n` as an `i128`.
fn pow10_i128(n: u32) -> (r: i128)
    requires
        n <= 38,
    ensures
        r == pow10(n as nat),
        r >= 1,
{
    proof {
        reveal_with_fuel(pow10, 39);
        assert(pow10(38) == 100000000000000000000000000000000000000int);
    }
    let mut r: i128 = 1;
    let mut i: u32 = 0;
    while i < n
        invariant
            i <= n <= 38,
            r == pow10(i as nat),
            pow10(38) == 100000000000000000000000000000000000000int,
        decreases n - i,
    {
        proof {
            lemma_pow10_monotone((i + 1) as nat, 38);
            assert(pow10((i + 1) as nat) == 10 * pow10(i as nat));
            assert(r * 10 <= 100000000000000000000000000000000000000int);
            lemma_pow10_positive(i as nat);
        }
        r = r * 10;
        i = i + 1;
    }
    proof {
        lemma_pow10_positive(n as nat);
    }
    r
}

/// For a positive divisor, an exact division in Rust's truncating arithmetic
/// agrees with the mathematical one.
proof fn lemma_truncating_exact_division(x: int, d: int)
    requires
        d > 0,
    ensures
        (x < 0 ==> (((x * -1) % d) * -1 == 0 <==> x % d == 0)),
        (x < 0 && x % d == 0 ==> ((x * -1) / d) * -1 == x / d),
{
    if x < 0 {
        let q = x / d;
        let r = x % d;
        vstd::arithmetic::div_mod::lemma_fundamental_div_mod(x, d);
        vstd::arithmetic::div_mod::lemma_fundamental_div_mod(x * -1, d);
        vstd::arithmetic::div_mod::lemma_mod_bound(x, d);
        vstd::arithmetic::div_mod::lemma_mod_bound(x * -1, d);
        if r == 0 {
            assert(x * -1 == d * (q * -1)) by (nonlinear_arith)
                requires x == d * q + r, r == 0;
            vstd::arithmetic::div_mod::lemma_div_multiples_vanish(q * -1, d);
            vstd::arithmetic::div_mod::lemma_mod_multiples_basic(q * -1, d);
            assert((q * -1) * d == d * (q * -1)) by (nonlinear_arith);
        }
        if (x * -1) % d == 0 {
            let q2 = (x * -1) / d;
            assert(x == d * (q2 * -1)) by (nonlinear_arith)
                requires x * -1 == d * q2 + 0;
            vstd::arithmetic::div_mod::lemma_mod_multiples_basic(q2 * -1, d);
            assert((q2 * -1) * d == d * (q2 * -1)) by (nonlinear_arith);
        }
    }
}

/// `raw` divided exactly by the positive `f`, or `None` when `f` does not divide it.
fn exact_div(raw: i128, f: i128) -> (r: Option<i128>)
    requires
        f > 0,
    ensures
        match r {
            Some(q) => raw % f == 0 && q == raw / f,
            None => raw % f != 0,
        },
{
    proof {
        lemma_truncating_exact_division(raw as int, f as int);
    }
    let rem = raw.checked_rem(f).unwrap();
    if rem != 0 {
        return None;
    }
    let q = raw.checked_div(f).unwrap();
    proof {
        if raw >= 0 {
            assert(rem == raw % f);
            assert(q == raw / f);
        }
    }
    Some(q)
}

impl VaultModel {
    /// [`normalize_spec`] with the decimals recorded for `token`.
    pub open spec fn normalize_amount_spec(self, token: Address, raw: i128) -> Result<i128, Error> {
        normalize_spec(self.decimals_of(token), raw)
    }

    /// [`denormalize_spec`] with the decimals recorded for `token`.
    pub open spec fn denormalize_amount_spec(self, token: Address, normalized: i128) -> Result<i128, Error> {
        denormalize_spec(self.decimals_of(token), normalized)
    }
}

/// Normalize an amount to 9 decimal places based on the token's recorded decimals.
/// If the token has 6 decimals, the amount is scaled up by 10^(9-6) = 1000.
pub fn normalize_amount(state: &VaultState, token: &Address, raw: i128) -> (r: Result<i128, Error>)
    requires
        decimals_in_range(state@.decimals_of(*token)),
    ensures
        r == state@.normalize_amount_spec(*token, raw),
{
    let decimals: u32 = match state.token_decimals.get(token) {
        Some(d) => d,
        None => return Err(Error::InvalidToken),
    };
    if decimals == 0 {
        return Err(Error::InvalidTokenDecimals);
    }
    if decimals <= NORMALIZED_DECIMALS {
        let diff = NORMALIZED_DECIMALS - decimals;
        let factor = pow10_i128(diff);
        match raw.checked_mul(factor) {
            Some(v) => Ok(v),
            None => Err(Error::Overflow),
        }
    } else {
        let diff = decimals - NORMALIZED_DECIMALS;
        let factor = pow10_i128(diff);
        match exact_div(raw, factor) {
            Some(v) => Ok(v),
            None => Err(Error::InvalidInput),
        }
    }
}

/// Denormalize an amount from 9 decimal places to the token's recorded decimals.
pub fn denormalize_amount(state: &VaultState, token: &Address, normalized: i128) -> (r: Result<i128, Error>)
    requires
        decimals_in_range(state@.decimals_of(*token)),
    ensures
        r == state@.denormalize_amount_spec(*token, normalized),
{
    let decimals: u32 = match state.token_decimals.get(token) {
        Some(d) => d,
        None => return Err(Error::InvalidToken),
    };
    if decimals == 0 {
        return Err(Error::InvalidTokenDecimals);
    }
    if decimals <= NORMALIZED_DECIMALS {
        let diff = NORMALIZED_DECIMALS - decimals;
        let factor = pow10_i128(diff);
        match exact_div(normalized, factor) {
            Some(v) => Ok(v),
            None => Err(Error::InvalidInput),
        }
    } else {
        let diff = decimals - NORMALIZED_DECIMALS;
        let factor = pow10_i128(diff);
        match normalized.checked_mul(factor) {
            Some(v) => Ok(v),
            None => Err(Error::Overflow),
        }
    }
}

/// Normalising an amount and denormalising the result gives back the amount,
/// and likewise the other way round: the two conversions are inverse wherever
/// they succeed.
pub proof fn lemma_normalize_round_trip(decimals: Option<u32>, amount: i128)
    ensures
        normalize_spec(decimals, amount) matches Ok(n) ==> denormalize_spec(decimals, n) == Ok::<i128, Error>(amount),
        denormalize_spec(decimals, amount) matches Ok(t) ==> normalize_spec(decimals, t) == Ok::<i128, Error>(amount),
{
    if let Some(d) = decimals {
        if d != 0 {
            if d <= 9 {
                let f = pow10((9 - d) as nat);
                lemma_pow10_positive((9 - d) as nat);
                lemma_scale_then_divide(amount as int, f);
                lemma_divide_then_scale(amount as int, f);
                lemma_quotient_between_zero_and_number(amount as int, f);
                if normalize_spec(decimals, amount) is Ok {
                    let n = normalize_spec(decimals, amount).unwrap();
                    assert(n as int == amount * f);
                    assert((n as int) % f == 0);
                    assert((n as int) / f == amount);
                }
                if denormalize_spec(decimals, amount) is Ok {
                    let t = denormalize_spec(decimals, amount).unwrap();
                    assert((amount as int) % f == 0);
                    assert(t as int == (amount as int) / f);
                    assert(t * f == amount);
                }
            } else {
                let f = pow10((d - 9) as nat);
                lemma_pow10_positive((d - 9) as nat);
                lemma_scale_then_divide(amount as int, f);
                lemma_divide_then_scale(amount as int, f);
                lemma_quotient_between_zero_and_number(amount as int, f);
                if normalize_spec(decimals, amount) is Ok {
                    let n = normalize_spec(decimals, amount).unwrap();
                    assert((amount as int) % f == 0);
                    assert(n as int == (amount as int) / f);
                    assert(n * f == amount);
                }
                if denormalize_spec(decimals, amount) is Ok {
                    let t = denormalize_spec(decimals, amount).unwrap();
                    assert(t as int == amount * f);
                    assert((t as int) % f == 0);
                    assert((t as int) / f == amount);
                }
            }
        }
    }
}

/// The powers of ten up to the common scale, written out.
pub proof fn lemma_pow10_table()
    ensures
        pow10(0) == 1,
        pow10(1) == 10,
        pow10(2) == 100,
        pow10(3) == 1_000,
        pow10(4) == 10_000,
        pow10(5) == 100_000,
        pow10(6) == 1_000_000,
        pow10(7) == 10_000_000,
        pow10(8) == 100_000_000,
        pow10(9) == 1_000_000_000,
{
    reveal_with_fuel(pow10, 10);
}

/// A token with `d` decimals, `1 <= d <= 9`, has fewer decimals than the common
/// scale, so normalising multiplies by `10^(9 - d)`: `raw` becomes
/// `raw * 10^(9 - d)` whenever that fits in an `i128` (it is never refused for
/// divisibility), and `Overflow` otherwise. Denormalising divides by the same
/// power: `n` becomes `n / 10^(9 - d)` when the power divides it, and is refused
/// with `InvalidInput` when it does not.
pub proof fn lemma_few_decimals_scale_up(s: VaultModel, token: Address, d: u32, raw: i128, n: i128)
    requires
        s.decimals_of(token) == Some(d),
        1 <= d <= 9,
    ensures
        ({
            let f = pow10((9 - d) as nat);
            let scaled = raw * f;
            &&& f >= 1
            &&& i128::MIN <= scaled <= i128::MAX ==> s.normalize_amount_spec(token, raw) == Ok::<i128, Error>(
                scaled as i128,
            )
            &&& !(i128::MIN <= scaled <= i128::MAX) ==> s.normalize_amount_spec(token, raw) == Err::<i128, Error>(
                Error::Overflow,
            )
            &&& (n as int) % f == 0 ==> s.denormalize_amount_spec(token, n) == Ok::<i128, Error>(
                ((n as int) / f) as i128,
            )
            &&& (n as int) % f != 0 ==> s.denormalize_amount_spec(token, n) == Err::<i128, Error>(
                Error::InvalidInput,
            )
        }),
{
    lemma_pow10_positive((9 - d) as nat);
}

/// A token with `d > 9` decimals has more decimals than the common scale, so
/// normalising divides by `10^(d - 9)`: `raw` becomes `raw / 10^(d - 9)` when the
/// power divides it, and is refused with `InvalidInput` when it does not.
/// Denormalising multiplies by the same power: `n` becomes `n * 10^(d - 9)`
/// whenever that fits in an `i128`, and `Overflow` otherwise.
pub proof fn lemma_many_decimals_scale_down(s: VaultModel, token: Address, d: u32, raw: i128, n: i128)
    requires
        s.decimals_of(token) == Some(d),
        d > 9,
    ensures
        ({
            let f = pow10((d - 9) as nat);
            let scaled = n * f;
            &&& f >= 10
            &&& (raw as int) % f == 0 ==> s.normalize_amount_spec(token, raw) == Ok::<i128, Error>(
                ((raw as int) / f) as i128,
            )
            &&& (raw as int) % f != 0 ==> s.normalize_amount_spec(token, raw) == Err::<i128, Error>(
                Error::InvalidInput,
            )
            &&& i128::MIN <= scaled <= i128::MAX ==> s.denormalize_amount_spec(token, n) == Ok::<i128, Error>(
                scaled as i128,
            )
            &&& !(i128::MIN <= scaled <= i128::MAX) ==> s.denormalize_amount_spec(token, n) == Err::<i128, Error>(
                Error::Overflow,
            )
        }),
{
    lemma_pow10_positive((d - 10) as nat);
    assert(pow10((d - 9) as nat) == 10 * pow10((d - 10) as nat));
}

/// A token with no recorded decimals is refused with `InvalidToken`, and one
/// recorded with zero decimals with `InvalidTokenDecimals`, both ways.
pub proof fn lemma_unusable_decimals_refused(s: VaultModel, token: Address, amount: i128)
    ensures
        s.decimals_of(token) is None ==> s.normalize_amount_spec(token, amount) == Err::<i128, Error>(
            Error::InvalidToken,
        ) && s.denormalize_amount_spec(token, amount) == Err::<i128, Error>(Error::InvalidToken),
        s.decimals_of(token) == Some(0u32) ==> s.normalize_amount_spec(token, amount) == Err::<i128, Error>(
            Error::InvalidTokenDecimals,
        ) && s.denormalize_amount_spec(token, amount) == Err::<i128, Error>(Error::InvalidTokenDecimals),
{
}

/// Multiplying by a positive `f` and dividing by it exactly gives the number back.
proof fn lemma_scale_then_divide(x: int, f: int)
    requires
        f > 0,
    ensures
        (x * f) % f == 0,
        (x * f) / f == x,
{
    vstd::arithmetic::div_mod::lemma_mod_multiples_basic(x, f);
    vstd::arithmetic::div_mod::lemma_div_multiples_vanish(x, f);
    assert(x * f == f * x) by (nonlinear_arith);
}

/// Dividing by a positive `f` moves a number no further from zero.
proof fn lemma_quotient_between_zero_and_number(x: int, f: int)
    requires
        f > 0,
    ensures
        x >= 0 ==> 0 <= x / f <= x,
        x < 0 ==> x <= x / f < 0,
{
    let q = x / f;
    let r = x % f;
    vstd::arithmetic::div_mod::lemma_fundamental_div_mod(x, f);
    vstd::arithmetic::div_mod::lemma_mod_bound(x, f);
    assert(x >= 0 ==> 0 <= q <= x) by (nonlinear_arith)
        requires x == f * q + r, 0 <= r < f, f > 0;
    assert(x < 0 ==> x <= q < 0) by (nonlinear_arith)
        requires x == f * q + r, 0 <= r < f, f > 0;
}

/// Dividing exactly by a positive `f` and multiplying back gives the number back.
proof fn lemma_divide_then_scale(x: int, f: int)
    requires
        f > 0,
    ensures
        x % f == 0 ==> (x / f) * f == x,
{
    vstd::arithmetic::div_mod::lemma_fundamental_div_mod(x, f);
    assert((x / f) * f == f * (x / f)) by (nonlinear_arith);
}

} // verus!
