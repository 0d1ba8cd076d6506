//! The fee that the owner collects on a contribution.

use vstd::prelude::*;

use crate::state::CommissionParams;

verus! {

/// The number of atomic units that make one whole: a [`Decimal`] has 18 fractional digits.
pub const DECIMAL_FRACTIONAL: u128 = 1_000_000_000_000_000_000;

/// The largest proportional part that an auction can be created with: 25%.
pub const MAX_COMMISSION_PART: u128 = 250_000_000_000_000_000;

/// A fixed-point number with 18 fractional digits, held as its count of atomic units:
/// `Decimal { atomics: 1_000_000_000_000_000_000 }` is 1.0.
#[derive(Clone, Copy, Debug, PartialEq, Eq)]
pub struct Decimal {
    pub atomics: u128,
}

impl Decimal {
    /// The decimal that is `atomics` atomic units large.
    pub fn new(atomics: u128) -> (d: Decimal)
        ensures
            d.atomics == atomics,
    {
        Decimal { atomics }
    }

    /// `x` hundredths.
    pub fn percent(x: u64) -> (d: Decimal)
        ensures
            d.atomics == x * 10_000_000_000_000_000,
    {
        let atomics: u128 = (x as u128) * 10_000_000_000_000_000u128;
        Decimal { atomics }
    }
}

/// `amount * atomics / 10^18`, rounded up to the next integer.
pub open spec fn scaled_ceil(amount: nat, atomics: nat) -> nat {
    let product = amount * atomics;
    if product % (DECIMAL_FRACTIONAL as nat) == 0 {
        product / (DECIMAL_FRACTIONAL as nat)
    } else {
        product / (DECIMAL_FRACTIONAL as nat) + 1
    }
}

/// The fee owed on a contribution of `gross_amount`: the proportional part rounded up, raised
/// to the flat minimum where it falls short of it.
pub open spec fn commission_fee(gross_amount: nat, policy: CommissionParams) -> nat {
    let proportional = scaled_ceil(gross_amount, policy.part.atomics as nat);
    if proportional < policy.minimum_tokens {
        policy.minimum_tokens as nat
    } else {
        proportional
    }
}

/// A rate of at most 1.0 never scales an amount beyond itself, rounding included.
pub proof fn lemma_scaled_ceil_bounded(amount: nat, atomics: nat)
    requires
        atomics <= DECIMAL_FRACTIONAL,
    ensures
        scaled_ceil(amount, atomics) <= amount,
{
    let product = amount * atomics;
    let whole = amount * (DECIMAL_FRACTIONAL as nat);
    assert(product <= whole) by (nonlinear_arith)
        requires
            product == amount * atomics,
            whole == amount * (DECIMAL_FRACTIONAL as nat),
            atomics <= DECIMAL_FRACTIONAL,
    ;
    assert(whole == amount * 1_000_000_000_000_000_000);
}

/// Calls `cosmwasm_std::Uint128::mul_ceil` with a `cosmwasm_std::Decimal` of the same atomic
/// units as the fraction. Unproved: that the call multiplies `amount` by
/// `rate.atomics / 10^18` in 256 bits and rounds the quotient up. The call panics where that
/// does not fit 128 bits, which `requires` leaves out.
#[verifier::external_body]
fn mul_ceil(amount: u128, rate: Decimal) -> (product: u128)
    requires
        scaled_ceil(amount as nat, rate.atomics as nat) <= u128::MAX,
    ensures
        product == scaled_ceil(amount as nat, rate.atomics as nat),
{
    cosmwasm_std::Uint128::new(amount).mul_ceil(cosmwasm_std::Decimal::raw(rate.atomics)).u128()
}

/// The commission on a contribution of `gross_amount` under `policy`. Whether the contribution
/// covers the fee is for the caller to decide.
pub fn compute_commission(gross_amount: u128, policy: &CommissionParams) -> (fee: u128)
    requires
        policy.part.atomics <= DECIMAL_FRACTIONAL,
    ensures
        fee == commission_fee(gross_amount as nat, *policy),
{
    proof {
        lemma_scaled_ceil_bounded(gross_amount as nat, policy.part.atomics as nat);
    }
    let proportional: u128 = mul_ceil(gross_amount, policy.part);
    if proportional < policy.minimum_tokens {
        policy.minimum_tokens
    } else {
        proportional
    }
}

} // verus!
