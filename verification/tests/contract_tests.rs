//! The fee-aware transfer path end to end: instantiation, sends with and
//! without a swap payload, delegated sends, and policy administration.

use swap_fee_token::contract::{execute, instantiate, query, query_allowance};
use swap_fee_token::error::ContractError;
use swap_fee_token::msg::{
    ExecuteMsg, ExecuteResponse, QueryMsg, QueryResponse, SwapFeeConfigResponse,
};
use swap_fee_token::rate::FeeRate;
use swap_fee_token::state::TokenState;

const OWNER: &str = "mock_owner";
const SENDER: &str = "mock_sender";
const FEE_ADMIN: &str = "mock_fee_admin";
const FEE_RECEIVER: &str = "mock_fee_receiver";

fn swap_payload() -> Vec<u8> {
    cosmwasm_std::to_json_vec(&terraswap::pair::Cw20HookMsg::Swap {
        belief_price: None,
        max_spread: None,
        to: None,
        deadline: None,
    })
    .unwrap()
}

fn get_default_instantiate_config() -> Option<SwapFeeConfigResponse> {
    Some(SwapFeeConfigResponse {
        fee_admin: FEE_ADMIN.to_string(),
        enable_swap_fee: true,
        swap_percent_fee: FeeRate::from_percent(10),
        fee_receiver: FEE_RECEIVER.to_string(),
    })
}

fn default_instantiate() -> TokenState {
    let initial = vec![(OWNER.to_string(), 1_000_000_000u128)];
    instantiate(&initial, get_default_instantiate_config()).unwrap()
}

fn balance_of(state: &TokenState, addr: &str) -> u128 {
    match query(state, QueryMsg::Balance { address: addr.to_string() }) {
        QueryResponse::Balance { balance } => balance,
        other => panic!("unexpected query response: {:?}", other),
    }
}

fn config_of(state: &TokenState) -> SwapFeeConfigResponse {
    match query(state, QueryMsg::SwapFeeConfig {}) {
        QueryResponse::SwapFeeConfig { config } => config,
        other => panic!("unexpected query response: {:?}", other),
    }
}

#[test]
fn test_update_sawp_fee_config() {
    let mut state = default_instantiate();

    // Querying initial config
    let config = config_of(&state);
    assert_eq!(config.fee_admin, FEE_ADMIN.to_string());
    assert!(config.enable_swap_fee);
    assert_eq!(config.swap_percent_fee, FeeRate::from_percent(10));
    assert_eq!(config.fee_receiver, FEE_RECEIVER.to_string());

    // Cannot update swap fee config by non fee admin
    let err = execute(
        &mut state,
        &OWNER.to_string(),
        ExecuteMsg::UpdateSwapFeeConfig {
            fee_admin: None,
            enable_swap_fee: None,
            swap_percent_fee: None,
            fee_receiver: None,
        },
    )
    .unwrap_err();
    assert_eq!(err, ContractError::Unauthorized);

    // Update swap fee config
    execute(
        &mut state,
        &FEE_ADMIN.to_string(),
        ExecuteMsg::UpdateSwapFeeConfig {
            fee_admin: Option::from("new_fee_admin".to_string()),
            enable_swap_fee: Option::from(false),
            swap_percent_fee: Option::from(FeeRate::from_percent(5)),
            fee_receiver: Option::from("new_fee_receiver".to_string()),
        },
    )
    .unwrap();

    let config = config_of(&state);
    assert_eq!(config.fee_admin, "new_fee_admin".to_string());
    assert!(!config.enable_swap_fee);
    assert_eq!(config.swap_percent_fee, FeeRate::from_percent(5));
    assert_eq!(config.fee_receiver, "new_fee_receiver".to_string());
}

#[test]
fn test_send() {
    let mut state = default_instantiate();
    let swap_msg = swap_payload();

    // Send tokens to smart contract with swap msg
    let res = execute(
        &mut state,
        &OWNER.to_string(),
        ExecuteMsg::Send {
            contract: "dex_contract".to_string(),
            amount: 10_000_000,
            msg: swap_msg.clone(),
        },
    )
    .unwrap();

    // The smart contract should receive the amount of tokens decreased by the swap fee
    match res {
        ExecuteResponse::Send(resp) => {
            assert_eq!(resp.notification.sender, OWNER.to_string());
            assert_eq!(resp.notification.amount, 9_000_000);
            assert_eq!(resp.notification.contract, "dex_contract".to_string());
            assert_eq!(resp.notification.payload, swap_msg);
        }
        other => panic!("unexpected response: {:?}", other),
    }

    // Checking if fee was transfered to the fee receiver address
    assert_eq!(balance_of(&state, FEE_RECEIVER), 1_000_000);
}

#[test]
fn test_send_from() {
    let mut state = default_instantiate();
    let swap_msg = swap_payload();

    // Increase allowance for the sender address
    execute(
        &mut state,
        &OWNER.to_string(),
        ExecuteMsg::IncreaseAllowance { spender: SENDER.to_string(), amount: 10_000_000 },
    )
    .unwrap();

    // Send tokens to smart contract with swap msg
    let res = execute(
        &mut state,
        &SENDER.to_string(),
        ExecuteMsg::SendFrom {
            owner: OWNER.to_string(),
            contract: "dex_contract".to_string(),
            amount: 10_000_000,
            msg: swap_msg.clone(),
        },
    )
    .unwrap();

    // The smart contract should receive the amount of tokens decreased by the swap fee
    match res {
        ExecuteResponse::Send(resp) => {
            assert_eq!(resp.notification.sender, SENDER.to_string());
            assert_eq!(resp.notification.amount, 9_000_000);
            assert_eq!(resp.notification.contract, "dex_contract".to_string());
            assert_eq!(resp.notification.payload, swap_msg);
        }
        other => panic!("unexpected response: {:?}", other),
    }

    // Checking if fee was transfered to the fee receiver address
    assert_eq!(balance_of(&state, FEE_RECEIVER), 1_000_000);
}

#[test]
fn test_send_swap_scenario_balances() {
    // Scenario: 10% policy, a recognized swap payload, amount 10,000,000.
    let mut state = default_instantiate();
    let res = execute(
        &mut state,
        &OWNER.to_string(),
        ExecuteMsg::Send {
            contract: "dex_contract".to_string(),
            amount: 10_000_000,
            msg: swap_payload(),
        },
    )
    .unwrap();
    match res {
        ExecuteResponse::Send(resp) => {
            assert_eq!(resp.amount, 10_000_000);
            assert_eq!(resp.fee_amount, Some(1_000_000));
            assert_eq!(resp.from, OWNER.to_string());
            assert_eq!(resp.to, "dex_contract".to_string());
            assert_eq!(resp.by, None);
        }
        other => panic!("unexpected response: {:?}", other),
    }
    // The sender's balance decreases by exactly the gross amount.
    assert_eq!(balance_of(&state, OWNER), 1_000_000_000 - 10_000_000);
    assert_eq!(balance_of(&state, FEE_RECEIVER), 1_000_000);
    assert_eq!(balance_of(&state, "dex_contract"), 9_000_000);
}

#[test]
fn test_send_non_swap_payload() {
    // Scenario: same policy, a payload that decodes to a different variant:
    // no fee, the contract receives the full amount.
    let mut state = default_instantiate();
    let other_msg = cosmwasm_std::to_json_vec(&terraswap::pair::Cw20HookMsg::WithdrawLiquidity {
        min_assets: None,
        deadline: None,
    })
    .unwrap();
    let res = execute(
        &mut state,
        &OWNER.to_string(),
        ExecuteMsg::Send {
            contract: "dex_contract".to_string(),
            amount: 10_000_000,
            msg: other_msg,
        },
    )
    .unwrap();
    match res {
        ExecuteResponse::Send(resp) => {
            assert_eq!(resp.fee_amount, None);
            assert_eq!(resp.notification.amount, 10_000_000);
        }
        other => panic!("unexpected response: {:?}", other),
    }
    assert_eq!(balance_of(&state, FEE_RECEIVER), 0);
    assert_eq!(balance_of(&state, "dex_contract"), 10_000_000);
}

#[test]
fn test_send_garbage_payload() {
    // An undecodable payload is a normal "not a swap" outcome.
    let mut state = default_instantiate();
    let res = execute(
        &mut state,
        &OWNER.to_string(),
        ExecuteMsg::Send {
            contract: "dex_contract".to_string(),
            amount: 10_000_000,
            msg: vec![0xde, 0xad, 0xbe, 0xef],
        },
    )
    .unwrap();
    match res {
        ExecuteResponse::Send(resp) => {
            assert_eq!(resp.fee_amount, None);
            assert_eq!(resp.notification.amount, 10_000_000);
        }
        other => panic!("unexpected response: {:?}", other),
    }
    assert_eq!(balance_of(&state, FEE_RECEIVER), 0);
}

#[test]
fn test_send_from_allowance_consumed_by_principal() {
    // Scenario: the delegated principal call consumes allowance equal to the
    // principal, not the original gross amount.
    let mut state = default_instantiate();
    execute(
        &mut state,
        &OWNER.to_string(),
        ExecuteMsg::IncreaseAllowance { spender: SENDER.to_string(), amount: 10_000_000 },
    )
    .unwrap();
    execute(
        &mut state,
        &SENDER.to_string(),
        ExecuteMsg::SendFrom {
            owner: OWNER.to_string(),
            contract: "dex_contract".to_string(),
            amount: 10_000_000,
            msg: swap_payload(),
        },
    )
    .unwrap();
    // fee 1,000,000 debited from the owner and credited to the receiver
    assert_eq!(balance_of(&state, OWNER), 1_000_000_000 - 10_000_000);
    assert_eq!(balance_of(&state, FEE_RECEIVER), 1_000_000);
    assert_eq!(balance_of(&state, "dex_contract"), 9_000_000);
    // remaining allowance: 10,000,000 - 9,000,000
    let remaining = query_allowance(&state, &OWNER.to_string(), &SENDER.to_string());
    assert_eq!(remaining, 1_000_000);
}
