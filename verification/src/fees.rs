//! Fee arithmetic in parts per million.

use vstd::prelude::*;
use crate::types::Balance;

verus! {

/// Denominator of a fee rate: a rate of `FEE_DENOMINATOR` charges the whole amount.
pub const FEE_DENOMINATOR: u128 = 1_000_000;

/// The fee owed on `amount` at `rate` parts per million, rounded down.
pub open spec fn fee_of(amount: nat, rate: nat) -> nat {
    (amount * rate) / 1_000_000
}

/// Whether the fee on `amount` at `rate` can be held in a `Balance`.
pub open spec fn fee_fits(amount: nat, rate: nat) -> bool {
    fee_of(amount, rate) <= u128::MAX
}

/// Splitting both factors at the denominator leaves three terms, of which only the
/// first can exceed a `Balance`.
proof fn lemma_fee_by_parts(amount: nat, rate: nat)
    ensures
        fee_of(amount, rate) == (amount / 1_000_000) * rate + (amount % 1_000_000) * (rate
            / 1_000_000) + ((amount % 1_000_000) * (rate % 1_000_000)) / 1_000_000,
{
    let q = amount / 1_000_000;
    let r = amount % 1_000_000;
    let q2 = rate / 1_000_000;
    let r2 = rate % 1_000_000;
    let whole = q * rate + r * q2;
    let rest = r * r2;
    assert(amount * rate == 1_000_000 * whole + rest) by (nonlinear_arith)
        requires
            amount == q * 1_000_000 + r,
            rate == q2 * 1_000_000 + r2,
            whole == q * rate + r * q2,
            rest == r * r2,
    ;
}

/// A rate of zero charges nothing, and nothing is charged on an amount of zero.
pub proof fn lemma_fee_of_zero(amount: nat, rate: nat)
    ensures
        fee_of(amount, 0) == 0,
        fee_of(0, rate) == 0,
{
}

/// At a rate of at most the denominator the fee never exceeds the amount, so it always
/// fits wherever the amount does.
pub proof fn lemma_fee_within_amount(amount: nat, rate: nat)
    requires
        rate <= 1_000_000,
    ensures
        fee_of(amount, rate) <= amount,
{
    assert(amount * rate <= amount * 1_000_000) by (nonlinear_arith)
        requires
            rate <= 1_000_000,
    ;
}

/// A larger amount never owes a smaller fee at the same rate.
pub proof fn lemma_fee_monotonic(smaller: nat, larger: nat, rate: nat)
    requires
        smaller <= larger,
    ensures
        fee_of(smaller, rate) <= fee_of(larger, rate),
{
    assert(smaller * rate <= larger * rate) by (nonlinear_arith)
        requires
            smaller <= larger,
    ;
}

/// Computes the fee on `amount` at `rate` parts per million, rounded down.
///
/// The product is never formed in 128 bits, so the result is exact whenever it can be
/// held at all; `None` says that the fee itself exceeds a `Balance`.
pub fn compute_fee(amount: Balance, rate: u128) -> (fee: Option<Balance>)
    ensures
        fee == if fee_fits(amount as nat, rate as nat) {
            Some(fee_of(amount as nat, rate as nat) as u128)
        } else {
            None
        },
{
    let q: u128 = amount / FEE_DENOMINATOR;
    let r: u128 = amount % FEE_DENOMINATOR;
    let q2: u128 = rate / FEE_DENOMINATOR;
    let r2: u128 = rate % FEE_DENOMINATOR;
    proof {
        lemma_fee_by_parts(amount as nat, rate as nat);
        assert(0 <= r * q2 <= 999_999 * q2) by (nonlinear_arith)
            requires
                0 <= r <= 999_999,
                0 <= q2,
        ;
        assert(0 <= r * r2 <= 999_999 * 999_999) by (nonlinear_arith)
            requires
                0 <= r <= 999_999,
                0 <= r2 <= 999_999,
        ;
    }
    let whole: u128 = match q.checked_mul(rate) {
        Some(w) => w,
        None => {
            return None;
        },
    };
    let cross: u128 = r * q2;
    let rest: u128 = (r * r2) / FEE_DENOMINATOR;
    match whole.checked_add(cross) {
        Some(partial) => partial.checked_add(rest),
        None => None,
    }
}

} // verus!
