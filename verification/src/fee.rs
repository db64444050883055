//! The fee calculator: a pure function of gross amount, classification and
//! policy.
//!
//! The fee is the configured percentage of the gross amount, with truncating
//! integer division: the amount is multiplied by the rate's atomics and the
//! product divided by `100 * RATE_SCALE`, which equals dividing by the rate
//! scale first and then by 100.

use vstd::prelude::*;
use vstd::arithmetic::div_mod::{lemma_div_is_ordered, lemma_div_multiples_vanish};
use vstd::arithmetic::mul::{lemma_mul_inequality, lemma_mul_is_commutative, lemma_mul_nonnegative};
use crate::classify::decodes_to_swap;
use crate::rate::RATE_SCALE;
use crate::state::{opt_config_wf, SwapFeeConfig, TokenState};

verus! {

/// The fee owed for a transfer of `amount` under `config` when the payload
/// classification is `is_swap`: zero unless a policy is stored, enabled and
/// the transfer is swap-triggering; otherwise the truncated percentage.
pub open spec fn spec_fee_amount(amount: u128, is_swap: bool, config: Option<SwapFeeConfig>) -> int {
    match config {
        None => 0,
        Some(c) => if c.enable_swap_fee && is_swap {
            amount as int * c.swap_percent_fee.value() as int / (100 * RATE_SCALE as int)
        } else {
            0
        },
    }
}

/// The fee owed by a transfer of `amount` with payload `payload` under the
/// policy stored in `pre`.
pub open spec fn stored_fee(pre: TokenState, amount: u128, payload: Seq<u8>) -> int {
    spec_fee_amount(amount, decodes_to_swap(payload), pre.swap_fee_config)
}

/// Fee bound: for every valid policy, `0 <= fee <= amount`.
pub proof fn lemma_fee_bound(amount: u128, is_swap: bool, config: Option<SwapFeeConfig>)
    requires
        opt_config_wf(config),
    ensures
        0 <= spec_fee_amount(amount, is_swap, config) <= amount,
{
    match config {
        None => {}
        Some(c) => {
            if c.enable_swap_fee && is_swap {
                let a = amount as int;
                let r = c.swap_percent_fee.value() as int;
                let d = 100 * (RATE_SCALE as int);
                lemma_mul_nonnegative(a, r);
                lemma_div_is_ordered(0, a * r, d);
                lemma_mul_inequality(r, d, a);
                lemma_mul_is_commutative(a, r);
                lemma_mul_is_commutative(a, d);
                lemma_div_is_ordered(a * r, a * d, d);
                lemma_div_multiples_vanish(a, d);
            }
        }
    }
}

/// Relies on `cosmwasm_std::Uint128::multiply_ratio`, which returns
/// `self * numerator / denominator` with the division floored, and panics
/// only when the denominator is zero or the result does not fit in 128 bits.
#[verifier::external_body]
fn mul_ratio(amount: u128, numerator: u128, denominator: u128) -> (r: u128)
    requires
        denominator > 0,
        amount as int * numerator as int / (denominator as int) <= u128::MAX,
    ensures
        r == amount as int * numerator as int / (denominator as int),
{
    cosmwasm_std::Uint128::new(amount).multiply_ratio(numerator, denominator).u128()
}

/// Computes the fee for a transfer of `amount` classified as `is_swap`
/// under `config`. Pure and total: no error path, and the fee never exceeds
/// the gross amount.
pub fn fee_amount(amount: u128, is_swap: bool, config: &Option<SwapFeeConfig>) -> (fee: u128)
    requires
        opt_config_wf(*config),
    ensures
        fee == spec_fee_amount(amount, is_swap, *config),
        fee <= amount,
{
    proof {
        lemma_fee_bound(amount, is_swap, *config);
    }
    match config {
        None => 0,
        Some(c) => {
            if c.enable_swap_fee && is_swap {
                mul_ratio(amount, c.swap_percent_fee.atomics(), 100 * RATE_SCALE)
            } else {
                0
            }
        }
    }
}

} // verus!
