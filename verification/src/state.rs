//! The persisted fee policy and the contract's mutable state.

use vstd::prelude::*;
use crate::addr::valid_addr;
use crate::allowances::AllowanceStore;
use crate::balances::BalanceStore;
use crate::rate::FeeRate;

verus! {

/// The singleton fee policy. Absence of a stored policy is a valid,
/// permanent state meaning "no fee ever applied"; it is distinct from a
/// stored policy with `enable_swap_fee == false`.
pub struct SwapFeeConfig {
    /// The identity authorized to mutate the policy.
    pub fee_admin: String,
    /// Whether swap-triggering transfers are taxed at all.
    pub enable_swap_fee: bool,
    /// The percentage taken from every swap-triggering transfer.
    pub swap_percent_fee: FeeRate,
    /// The identity credited with collected fees.
    pub fee_receiver: String,
}

impl SwapFeeConfig {
    /// Both identities are well formed and the rate is within 100 percent.
    pub open spec fn wf(self) -> bool {
        &&& valid_addr(self.fee_admin@)
        &&& valid_addr(self.fee_receiver@)
        &&& self.swap_percent_fee.valid()
    }
}

/// Well-formedness of an optional stored policy.
pub open spec fn opt_config_wf(c: Option<SwapFeeConfig>) -> bool {
    match c {
        None => true,
        Some(cfg) => cfg.wf(),
    }
}

/// The whole mutable state of the token contract, as far as the fee-aware
/// transfer path reads or writes it.
pub struct TokenState {
    /// The balance ledger.
    pub balances: BalanceStore,
    /// The allowance ledger consumed by delegated transfers.
    pub allowances: AllowanceStore,
    /// The optional fee policy.
    pub swap_fee_config: Option<SwapFeeConfig>,
}

impl TokenState {
    /// Every component is well formed.
    pub open spec fn wf(self) -> bool {
        &&& self.balances.wf()
        &&& self.allowances.wf()
        &&& opt_config_wf(self.swap_fee_config)
    }
}

} // verus!
