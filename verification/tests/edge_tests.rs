//! Error paths, edge cases and the fee formula on concrete values.

use swap_fee_token::classify::is_swap_trigger;
use swap_fee_token::contract::{execute, instantiate, migrate, query};
use swap_fee_token::error::ContractError;
use swap_fee_token::fee::fee_amount;
use swap_fee_token::msg::{
    ExecuteMsg, ExecuteResponse, QueryMsg, QueryResponse, SwapFeeConfigResponse,
};
use swap_fee_token::rate::{FeeRate, RATE_SCALE};
use swap_fee_token::state::{SwapFeeConfig, TokenState};

const OWNER: &str = "mock_owner";
const FEE_ADMIN: &str = "mock_fee_admin";
const FEE_RECEIVER: &str = "mock_fee_receiver";

fn swap_payload() -> Vec<u8> {
    cosmwasm_std::to_json_vec(&terraswap::pair::Cw20HookMsg::Swap {
        belief_price: None,
        max_spread: None,
        to: None,
        deadline: None,
    })
    .unwrap()
}

fn instantiate_with(pct: u64, enable: bool) -> TokenState {
    let initial = vec![(OWNER.to_string(), 1_000_000_000u128)];
    instantiate(
        &initial,
        Some(SwapFeeConfigResponse {
            fee_admin: FEE_ADMIN.to_string(),
            enable_swap_fee: enable,
            swap_percent_fee: FeeRate::from_percent(pct),
            fee_receiver: FEE_RECEIVER.to_string(),
        }),
    )
    .unwrap()
}

fn balance_of(state: &TokenState, addr: &str) -> u128 {
    match query(state, QueryMsg::Balance { address: addr.to_string() }) {
        QueryResponse::Balance { balance } => balance,
        other => panic!("unexpected query response: {:?}", other),
    }
}

fn sample_config(pct: u64, enable: bool) -> SwapFeeConfig {
    SwapFeeConfig {
        fee_admin: FEE_ADMIN.to_string(),
        enable_swap_fee: enable,
        swap_percent_fee: FeeRate::from_percent(pct),
        fee_receiver: FEE_RECEIVER.to_string(),
    }
}

#[test]
fn test_classifier_total_on_any_bytes() {
    assert!(is_swap_trigger(&swap_payload()));
    assert!(!is_swap_trigger(&Vec::new()));
    assert!(!is_swap_trigger(&vec![0xff, 0x00, 0x7b]));
    assert!(!is_swap_trigger(&b"{\"withdraw_liquidity\":{}}".to_vec()));
    // Deterministic: the same bytes classify the same way again.
    assert!(is_swap_trigger(&swap_payload()));
}

#[test]
fn test_fee_amount_formula() {
    let cfg = Some(sample_config(10, true));
    assert_eq!(fee_amount(10_000_000, true, &cfg), 1_000_000);
    assert_eq!(fee_amount(10_000_000, false, &cfg), 0);
    assert_eq!(fee_amount(0, true, &cfg), 0);
    // truncating division: 10% of 333 is 33, not 33.3
    assert_eq!(fee_amount(333, true, &cfg), 33);
    // no policy, disabled policy
    assert_eq!(fee_amount(10_000_000, true, &None), 0);
    assert_eq!(fee_amount(10_000_000, true, &Some(sample_config(10, false))), 0);
    // 100 percent: the fee equals the gross amount
    assert_eq!(fee_amount(10_000_000, true, &Some(sample_config(100, true))), 10_000_000);
}

#[test]
fn test_fee_rate_constructors() {
    assert_eq!(FeeRate::from_percent(10).atomics(), 10 * RATE_SCALE);
    assert_eq!(FeeRate::from_atomics(5 * RATE_SCALE), Some(FeeRate::from_percent(5)));
    assert_eq!(FeeRate::from_atomics(100 * RATE_SCALE + 1), None);
}

#[test]
fn test_send_zero_amount() {
    let mut state = instantiate_with(10, true);
    let err = execute(
        &mut state,
        &OWNER.to_string(),
        ExecuteMsg::Send {
            contract: "dex_contract".to_string(),
            amount: 0,
            msg: swap_payload(),
        },
    )
    .unwrap_err();
    assert_eq!(err, ContractError::InvalidZeroAmount);
    assert_eq!(balance_of(&state, OWNER), 1_000_000_000);
}

#[test]
fn test_send_insufficient_funds() {
    let mut state = instantiate_with(10, true);
    let err = execute(
        &mut state,
        &OWNER.to_string(),
        ExecuteMsg::Send {
            contract: "dex_contract".to_string(),
            amount: 2_000_000_000,
            msg: swap_payload(),
        },
    )
    .unwrap_err();
    assert_eq!(err, ContractError::InsufficientFunds);
    // no partial fee transfer is observable
    assert_eq!(balance_of(&state, OWNER), 1_000_000_000);
    assert_eq!(balance_of(&state, FEE_RECEIVER), 0);
}

#[test]
fn test_send_malformed_contract() {
    let mut state = instantiate_with(10, true);
    let err = execute(
        &mut state,
        &OWNER.to_string(),
        ExecuteMsg::Send {
            contract: "NOT OK".to_string(),
            amount: 10_000_000,
            msg: swap_payload(),
        },
    )
    .unwrap_err();
    assert_eq!(err, ContractError::InvalidAddress);
    assert_eq!(balance_of(&state, OWNER), 1_000_000_000);
}

#[test]
fn test_hundred_percent_fee_rejected_whole() {
    // Edge case: with a 100 percent fee the principal would be zero; the
    // principal leg's zero-amount rule rejects the request as a whole, and
    // the already-computed fee leg is not observable.
    let mut state = instantiate_with(100, true);
    let err = execute(
        &mut state,
        &OWNER.to_string(),
        ExecuteMsg::Send {
            contract: "dex_contract".to_string(),
            amount: 10_000_000,
            msg: swap_payload(),
        },
    )
    .unwrap_err();
    assert_eq!(err, ContractError::InvalidZeroAmount);
    assert_eq!(balance_of(&state, OWNER), 1_000_000_000);
    assert_eq!(balance_of(&state, FEE_RECEIVER), 0);
    assert_eq!(balance_of(&state, "dex_contract"), 0);
}

#[test]
fn test_no_policy_passthrough_send() {
    let initial = vec![(OWNER.to_string(), 1_000_000_000u128)];
    let mut state = instantiate(&initial, None).unwrap();
    let res = execute(
        &mut state,
        &OWNER.to_string(),
        ExecuteMsg::Send {
            contract: "dex_contract".to_string(),
            amount: 10_000_000,
            msg: swap_payload(),
        },
    )
    .unwrap();
    match res {
        ExecuteResponse::Send(resp) => {
            assert_eq!(resp.fee_amount, None);
            assert_eq!(resp.notification.amount, 10_000_000);
        }
        other => panic!("unexpected response: {:?}", other),
    }
    assert_eq!(balance_of(&state, "dex_contract"), 10_000_000);
}

#[test]
fn test_disabled_flag_passthrough_send() {
    let mut state = instantiate_with(10, false);
    let res = execute(
        &mut state,
        &OWNER.to_string(),
        ExecuteMsg::Send {
            contract: "dex_contract".to_string(),
            amount: 10_000_000,
            msg: swap_payload(),
        },
    )
    .unwrap();
    match res {
        ExecuteResponse::Send(resp) => {
            assert_eq!(resp.fee_amount, None);
            assert_eq!(resp.notification.amount, 10_000_000);
        }
        other => panic!("unexpected response: {:?}", other),
    }
    assert_eq!(balance_of(&state, FEE_RECEIVER), 0);
    assert_eq!(balance_of(&state, "dex_contract"), 10_000_000);
}

#[test]
fn test_send_from_without_allowance() {
    let mut state = instantiate_with(10, true);
    let err = execute(
        &mut state,
        &"mock_sender".to_string(),
        ExecuteMsg::SendFrom {
            owner: OWNER.to_string(),
            contract: "dex_contract".to_string(),
            amount: 10_000_000,
            msg: swap_payload(),
        },
    )
    .unwrap_err();
    assert_eq!(err, ContractError::InsufficientAllowance);
    assert_eq!(balance_of(&state, OWNER), 1_000_000_000);
    assert_eq!(balance_of(&state, FEE_RECEIVER), 0);
}

#[test]
fn test_increase_allowance_own_account() {
    let mut state = instantiate_with(10, true);
    let err = execute(
        &mut state,
        &OWNER.to_string(),
        ExecuteMsg::IncreaseAllowance { spender: OWNER.to_string(), amount: 1 },
    )
    .unwrap_err();
    assert_eq!(err, ContractError::CannotSetOwnAccount);
}

#[test]
fn test_update_with_malformed_identity() {
    let mut state = instantiate_with(10, true);
    let err = execute(
        &mut state,
        &FEE_ADMIN.to_string(),
        ExecuteMsg::UpdateSwapFeeConfig {
            fee_admin: Some("Bad Admin".to_string()),
            enable_swap_fee: None,
            swap_percent_fee: None,
            fee_receiver: None,
        },
    )
    .unwrap_err();
    assert_eq!(err, ContractError::InvalidAddress);
    // the stored policy is unchanged
    match query(&state, QueryMsg::SwapFeeConfig {}) {
        QueryResponse::SwapFeeConfig { config } => {
            assert_eq!(config.fee_admin, FEE_ADMIN.to_string());
        }
        other => panic!("unexpected query response: {:?}", other),
    }
}

#[test]
fn test_query_without_policy_returns_default() {
    let initial = vec![(OWNER.to_string(), 1_000_000_000u128)];
    let state = instantiate(&initial, None).unwrap();
    match query(&state, QueryMsg::SwapFeeConfig {}) {
        QueryResponse::SwapFeeConfig { config } => {
            assert_eq!(config.fee_admin, "".to_string());
            assert!(!config.enable_swap_fee);
            assert_eq!(config.swap_percent_fee.atomics(), 0);
            assert_eq!(config.fee_receiver, "".to_string());
        }
        other => panic!("unexpected query response: {:?}", other),
    }
}

#[test]
fn test_instantiate_rejects_malformed_initial_address() {
    let initial = vec![("Bad Address".to_string(), 1u128)];
    match instantiate(&initial, None) {
        Err(e) => assert_eq!(e, ContractError::InvalidAddress),
        Ok(_) => panic!("instantiation accepted a malformed address"),
    }
}

#[test]
fn test_migrate_is_a_no_op() {
    let mut state = instantiate_with(10, true);
    migrate(&mut state).unwrap();
    assert_eq!(balance_of(&state, OWNER), 1_000_000_000);
}

#[test]
fn test_send_largest_amount_without_policy() {
    // The ledger handles the full 128-bit range: with no policy, the whole
    // supply can move in one plain notify-send.
    let initial = vec![(OWNER.to_string(), u128::MAX)];
    let mut state = instantiate(&initial, None).unwrap();
    let res = execute(
        &mut state,
        &OWNER.to_string(),
        ExecuteMsg::Send {
            contract: "dex_contract".to_string(),
            amount: u128::MAX,
            msg: swap_payload(),
        },
    )
    .unwrap();
    match res {
        ExecuteResponse::Send(resp) => assert_eq!(resp.notification.amount, u128::MAX),
        other => panic!("unexpected response: {:?}", other),
    }
    assert_eq!(balance_of(&state, OWNER), 0);
    assert_eq!(balance_of(&state, "dex_contract"), u128::MAX);
}
