//! The fee-aware transfer orchestrator and the policy administration
//! operations.
//!
//! Every outbound notify-send first consults the stored fee policy and the
//! payload classifier. When a non-zero fee is owed, the transfer is split
//! atomically: the fee leg moves directly from the payer to the configured
//! fee receiver, and the principal leg is delegated to the plain notify-send
//! primitive. All preconditions of both legs are checked before any balance
//! is touched, so a failed request leaves the state unchanged.

use vstd::prelude::*;
use crate::addr::{check_addr, valid_addr};
use crate::allowances::{zero_allowances, AllowanceStore};
use crate::balances::{zero_balances, BalanceStore};
use crate::classify::is_swap_trigger;
use crate::error::ContractError;
use crate::fee::{fee_amount, stored_fee};
use crate::msg::{ActionTag, ExecuteMsg, ExecuteResponse, QueryMsg, QueryResponse, ReceiveNotification, SendResponse, SwapFeeConfigResponse};
use crate::rate::FeeRate;
use crate::state::{SwapFeeConfig, TokenState};

verus! {

/// The balances map after moving `amount` from `from` to `to`: the debit is
/// applied first, then the credit, so a move from an account to itself
/// leaves it unchanged.
pub open spec fn move_coins(
    m: Map<Seq<char>, u128>,
    from: Seq<char>,
    to: Seq<char>,
    amount: u128,
) -> Map<Seq<char>, u128> {
    let debited = m.insert(from, (m[from] - amount) as u128);
    debited.insert(to, (debited[to] + amount) as u128)
}

/// The error a plain notify-send reports, if any: a zero amount, a
/// malformed recipient, or a balance short of the full amount.
pub open spec fn plain_send_err(
    pre: TokenState,
    sender: Seq<char>,
    contract: Seq<char>,
    amount: u128,
) -> Option<ContractError> {
    if amount == 0 {
        Some(ContractError::InvalidZeroAmount)
    } else if !valid_addr(contract) {
        Some(ContractError::InvalidAddress)
    } else if pre.balances@[sender] < amount {
        Some(ContractError::InsufficientFunds)
    } else {
        None
    }
}

/// The successful outcome of a plain notify-send: the full amount moves
/// from the sender to the contract, nothing else changes, and the response
/// carries no fee attribute and exactly one notification for the full
/// amount.
pub open spec fn plain_send_ok(
    pre: TokenState,
    post: TokenState,
    resp: SendResponse,
    sender: Seq<char>,
    contract: Seq<char>,
    amount: u128,
    payload: Seq<u8>,
) -> bool {
    &&& post.balances@ == move_coins(pre.balances@, sender, contract, amount)
    &&& post.allowances@ == pre.allowances@
    &&& post.swap_fee_config == pre.swap_fee_config
    &&& resp.action == ActionTag::Send
    &&& resp.from@ == sender
    &&& resp.to@ == contract
    &&& resp.by is None
    &&& resp.amount == amount
    &&& resp.fee_amount is None
    &&& resp.notification.contract@ == contract
    &&& resp.notification.sender@ == sender
    &&& resp.notification.amount == amount
    &&& resp.notification.payload@ == payload
}

/// The complete behaviour of the plain notify-send.
pub open spec fn plain_send_post(
    pre: TokenState,
    post: TokenState,
    r: Result<SendResponse, ContractError>,
    sender: Seq<char>,
    contract: Seq<char>,
    amount: u128,
    payload: Seq<u8>,
) -> bool {
    match r {
        Ok(resp) => plain_send_err(pre, sender, contract, amount) is None && plain_send_ok(
            pre,
            post,
            resp,
            sender,
            contract,
            amount,
            payload,
        ),
        Err(e) => post == pre && plain_send_err(pre, sender, contract, amount) == Some(e),
    }
}

/// The plain notify-send primitive: transfers `amount` from `sender` to
/// `contract` and produces the receive-notification, with no fee logic.
pub fn plain_send(
    state: &mut TokenState,
    sender: &String,
    contract: &String,
    amount: u128,
    payload: Vec<u8>,
) -> (r: Result<SendResponse, ContractError>)
    requires
        old(state).wf(),
        contract@ == sender@ || old(state).balances@[contract@] + amount <= u128::MAX,
    ensures
        final(state).wf(),
        plain_send_post(*old(state), *final(state), r, sender@, contract@, amount, payload@),
{
    if amount == 0 {
        return Err(ContractError::InvalidZeroAmount);
    }
    if !check_addr(contract) {
        return Err(ContractError::InvalidAddress);
    }
    let bal = state.balances.balance_of(sender);
    if bal < amount {
        return Err(ContractError::InsufficientFunds);
    }
    state.balances.debit(sender, amount);
    state.balances.credit(contract, amount);
    Ok(
        SendResponse {
            action: ActionTag::Send,
            from: sender.clone(),
            to: contract.clone(),
            by: None,
            amount,
            fee_amount: None,
            notification: ReceiveNotification {
                contract: contract.clone(),
                sender: sender.clone(),
                amount,
                payload,
            },
        },
    )
}

/// The error a plain delegated notify-send reports, if any.
pub open spec fn plain_send_from_err(
    pre: TokenState,
    executor: Seq<char>,
    owner: Seq<char>,
    contract: Seq<char>,
    amount: u128,
) -> Option<ContractError> {
    if amount == 0 {
        Some(ContractError::InvalidZeroAmount)
    } else if !valid_addr(owner) {
        Some(ContractError::InvalidAddress)
    } else if !valid_addr(contract) {
        Some(ContractError::InvalidAddress)
    } else if pre.allowances@[(owner, executor)] < amount {
        Some(ContractError::InsufficientAllowance)
    } else if pre.balances@[owner] < amount {
        Some(ContractError::InsufficientFunds)
    } else {
        None
    }
}

/// The successful outcome of a plain delegated notify-send: the full amount
/// moves from the owner to the contract, the executor's allowance is
/// consumed by exactly that amount, and the notification names the executor
/// as sender.
pub open spec fn plain_send_from_ok(
    pre: TokenState,
    post: TokenState,
    resp: SendResponse,
    executor: Seq<char>,
    owner: Seq<char>,
    contract: Seq<char>,
    amount: u128,
    payload: Seq<u8>,
) -> bool {
    &&& post.balances@ == move_coins(pre.balances@, owner, contract, amount)
    &&& post.allowances@ == pre.allowances@.insert(
        (owner, executor),
        (pre.allowances@[(owner, executor)] - amount) as u128,
    )
    &&& post.swap_fee_config == pre.swap_fee_config
    &&& resp.action == ActionTag::SendFrom
    &&& resp.from@ == owner
    &&& resp.to@ == contract
    &&& resp.by matches Some(b) && b@ == executor
    &&& resp.amount == amount
    &&& resp.fee_amount is None
    &&& resp.notification.contract@ == contract
    &&& resp.notification.sender@ == executor
    &&& resp.notification.amount == amount
    &&& resp.notification.payload@ == payload
}

/// The complete behaviour of the plain delegated notify-send.
pub open spec fn plain_send_from_post(
    pre: TokenState,
    post: TokenState,
    r: Result<SendResponse, ContractError>,
    executor: Seq<char>,
    owner: Seq<char>,
    contract: Seq<char>,
    amount: u128,
    payload: Seq<u8>,
) -> bool {
    match r {
        Ok(resp) => plain_send_from_err(pre, executor, owner, contract, amount) is None
            && plain_send_from_ok(pre, post, resp, executor, owner, contract, amount, payload),
        Err(e) => post == pre && plain_send_from_err(pre, executor, owner, contract, amount)
            == Some(e),
    }
}

/// The plain delegated notify-send primitive: transfers `amount` from
/// `owner` to `contract` under the allowance granted to `executor`, and
/// produces the receive-notification, with no fee logic.
pub fn plain_send_from(
    state: &mut TokenState,
    executor: &String,
    owner: &String,
    contract: &String,
    amount: u128,
    payload: Vec<u8>,
) -> (r: Result<SendResponse, ContractError>)
    requires
        old(state).wf(),
        contract@ == owner@ || old(state).balances@[contract@] + amount <= u128::MAX,
    ensures
        final(state).wf(),
        plain_send_from_post(
            *old(state),
            *final(state),
            r,
            executor@,
            owner@,
            contract@,
            amount,
            payload@,
        ),
{
    if amount == 0 {
        return Err(ContractError::InvalidZeroAmount);
    }
    if !check_addr(owner) {
        return Err(ContractError::InvalidAddress);
    }
    if !check_addr(contract) {
        return Err(ContractError::InvalidAddress);
    }
    let allow = state.allowances.allowance_of(owner, executor);
    if allow < amount {
        return Err(ContractError::InsufficientAllowance);
    }
    let bal = state.balances.balance_of(owner);
    if bal < amount {
        return Err(ContractError::InsufficientFunds);
    }
    state.allowances.deduct(owner, executor, amount);
    state.balances.debit(owner, amount);
    state.balances.credit(contract, amount);
    Ok(
        SendResponse {
            action: ActionTag::SendFrom,
            from: owner.clone(),
            to: contract.clone(),
            by: Some(executor.clone()),
            amount,
            fee_amount: None,
            notification: ReceiveNotification {
                contract: contract.clone(),
                sender: executor.clone(),
                amount,
                payload,
            },
        },
    )
}

/// The error the fee-aware notify-send reports, if any. With a zero fee it
/// is exactly the plain primitive's rule; with a non-zero fee the whole
/// request is rejected before any mutation when the recipient is malformed,
/// when the principal leg would be zero (a 100 percent fee), or when the
/// payer cannot cover fee and principal together.
pub open spec fn execute_send_err(
    pre: TokenState,
    sender: Seq<char>,
    contract: Seq<char>,
    amount: u128,
    payload: Seq<u8>,
) -> Option<ContractError> {
    let fee = stored_fee(pre, amount, payload);
    if fee == 0 {
        plain_send_err(pre, sender, contract, amount)
    } else if !valid_addr(contract) {
        Some(ContractError::InvalidAddress)
    } else if amount - fee == 0 {
        Some(ContractError::InvalidZeroAmount)
    } else if pre.balances@[sender] < amount {
        Some(ContractError::InsufficientFunds)
    } else {
        None
    }
}

/// The successful outcome of a taxed notify-send: the fee moves from the
/// payer to the configured fee receiver, the principal moves to the
/// contract, and the single notification covers exactly the principal.
pub open spec fn taxed_send_ok(
    pre: TokenState,
    post: TokenState,
    resp: SendResponse,
    sender: Seq<char>,
    contract: Seq<char>,
    amount: u128,
    fee: u128,
    payload: Seq<u8>,
) -> bool {
    &&& pre.swap_fee_config matches Some(c) && post.balances@ == move_coins(
        move_coins(pre.balances@, sender, c.fee_receiver@, fee),
        sender,
        contract,
        (amount - fee) as u128,
    )
    &&& post.allowances@ == pre.allowances@
    &&& post.swap_fee_config == pre.swap_fee_config
    &&& resp.action == ActionTag::Send
    &&& resp.from@ == sender
    &&& resp.to@ == contract
    &&& resp.by is None
    &&& resp.amount == amount
    &&& resp.fee_amount == Some(fee)
    &&& resp.notification.contract@ == contract
    &&& resp.notification.sender@ == sender
    &&& resp.notification.amount == amount - fee
    &&& resp.notification.payload@ == payload
}

/// The complete behaviour of the fee-aware notify-send. With a zero stored
/// fee it coincides with the plain primitive's behaviour.
pub open spec fn send_post(
    pre: TokenState,
    post: TokenState,
    r: Result<SendResponse, ContractError>,
    sender: Seq<char>,
    contract: Seq<char>,
    amount: u128,
    payload: Seq<u8>,
) -> bool {
    let fee = stored_fee(pre, amount, payload);
    if fee == 0 {
        plain_send_post(pre, post, r, sender, contract, amount, payload)
    } else {
        match r {
            Ok(resp) => execute_send_err(pre, sender, contract, amount, payload) is None
                && taxed_send_ok(pre, post, resp, sender, contract, amount, fee as u128, payload),
            Err(e) => post == pre && execute_send_err(pre, sender, contract, amount, payload)
                == Some(e),
        }
    }
}

/// The fee-aware notify-send: computes the fee owed by the payload under
/// the stored policy, collects it from the sender for the fee receiver, and
/// delegates the principal to the plain notify-send. All checks precede all
/// mutations, so an error leaves the state untouched.
pub fn execute_send(
    state: &mut TokenState,
    sender: &String,
    contract: &String,
    amount: u128,
    payload: Vec<u8>,
) -> (r: Result<SendResponse, ContractError>)
    requires
        old(state).wf(),
        contract@ == sender@ || old(state).balances@[contract@] + amount <= u128::MAX,
        match old(state).swap_fee_config {
            Some(c) => c.fee_receiver@ == sender@ || old(state).balances@[c.fee_receiver@] + amount
                <= u128::MAX,
            None => true,
        },
    ensures
        final(state).wf(),
        send_post(*old(state), *final(state), r, sender@, contract@, amount, payload@),
{
    let is_swap = is_swap_trigger(&payload);
    let fee = fee_amount(amount, is_swap, &state.swap_fee_config);
    if fee == 0 {
        return plain_send(state, sender, contract, amount, payload);
    }
    // A non-zero fee implies a stored, enabled policy.
    let receiver: String = match &state.swap_fee_config {
        Some(c) => c.fee_receiver.clone(),
        None => String::new(),
    };
    if !check_addr(contract) {
        return Err(ContractError::InvalidAddress);
    }
    let principal = amount - fee;
    if principal == 0 {
        return Err(ContractError::InvalidZeroAmount);
    }
    let bal = state.balances.balance_of(sender);
    if bal < amount {
        return Err(ContractError::InsufficientFunds);
    }
    state.balances.debit(sender, fee);
    state.balances.credit(&receiver, fee);
    proof {
        assert(state.balances@[sender@] >= principal);
    }
    let res = plain_send(state, sender, contract, principal, payload);
    match res {
        Ok(inner) => Ok(
            SendResponse {
                action: ActionTag::Send,
                from: sender.clone(),
                to: contract.clone(),
                by: None,
                amount,
                fee_amount: Some(fee),
                notification: inner.notification,
            },
        ),
        Err(e) => {
            proof {
                assert(false);
            }
            Err(e)
        }
    }
}

/// The error the fee-aware delegated notify-send reports, if any. With a
/// zero fee it is exactly the plain primitive's rule; with a non-zero fee
/// the allowance must cover the principal leg only, while the owner's
/// balance must cover fee and principal together.
pub open spec fn execute_send_from_err(
    pre: TokenState,
    executor: Seq<char>,
    owner: Seq<char>,
    contract: Seq<char>,
    amount: u128,
    payload: Seq<u8>,
) -> Option<ContractError> {
    let fee = stored_fee(pre, amount, payload);
    if fee == 0 {
        plain_send_from_err(pre, executor, owner, contract, amount)
    } else if !valid_addr(owner) {
        Some(ContractError::InvalidAddress)
    } else if !valid_addr(contract) {
        Some(ContractError::InvalidAddress)
    } else if amount - fee == 0 {
        Some(ContractError::InvalidZeroAmount)
    } else if pre.allowances@[(owner, executor)] < amount - fee {
        Some(ContractError::InsufficientAllowance)
    } else if pre.balances@[owner] < amount {
        Some(ContractError::InsufficientFunds)
    } else {
        None
    }
}

/// The successful outcome of a taxed delegated notify-send: the fee moves
/// from the owner to the fee receiver without touching the allowance, and
/// the delegated principal leg consumes allowance equal to the principal
/// only.
pub open spec fn taxed_send_from_ok(
    pre: TokenState,
    post: TokenState,
    resp: SendResponse,
    executor: Seq<char>,
    owner: Seq<char>,
    contract: Seq<char>,
    amount: u128,
    fee: u128,
    payload: Seq<u8>,
) -> bool {
    &&& pre.swap_fee_config matches Some(c) && post.balances@ == move_coins(
        move_coins(pre.balances@, owner, c.fee_receiver@, fee),
        owner,
        contract,
        (amount - fee) as u128,
    )
    &&& post.allowances@ == pre.allowances@.insert(
        (owner, executor),
        (pre.allowances@[(owner, executor)] - (amount - fee)) as u128,
    )
    &&& post.swap_fee_config == pre.swap_fee_config
    &&& resp.action == ActionTag::SendFrom
    &&& resp.from@ == owner
    &&& resp.to@ == contract
    &&& resp.by matches Some(b) && b@ == executor
    &&& resp.amount == amount
    &&& resp.fee_amount == Some(fee)
    &&& resp.notification.contract@ == contract
    &&& resp.notification.sender@ == executor
    &&& resp.notification.amount == amount - fee
    &&& resp.notification.payload@ == payload
}

/// The complete behaviour of the fee-aware delegated notify-send. With a
/// zero stored fee it coincides with the plain primitive's behaviour.
pub open spec fn send_from_post(
    pre: TokenState,
    post: TokenState,
    r: Result<SendResponse, ContractError>,
    executor: Seq<char>,
    owner: Seq<char>,
    contract: Seq<char>,
    amount: u128,
    payload: Seq<u8>,
) -> bool {
    let fee = stored_fee(pre, amount, payload);
    if fee == 0 {
        plain_send_from_post(pre, post, r, executor, owner, contract, amount, payload)
    } else {
        match r {
            Ok(resp) => execute_send_from_err(pre, executor, owner, contract, amount, payload)
                is None && taxed_send_from_ok(
                pre,
                post,
                resp,
                executor,
                owner,
                contract,
                amount,
                fee as u128,
                payload,
            ),
            Err(e) => post == pre && execute_send_from_err(
                pre,
                executor,
                owner,
                contract,
                amount,
                payload,
            ) == Some(e),
        }
    }
}

/// The fee-aware delegated notify-send: like `execute_send`, but the fee is
/// debited from `owner` under the authority already established for the
/// request, and only the principal leg consumes the executor's allowance.
pub fn execute_send_from(
    state: &mut TokenState,
    executor: &String,
    owner: &String,
    contract: &String,
    amount: u128,
    payload: Vec<u8>,
) -> (r: Result<SendResponse, ContractError>)
    requires
        old(state).wf(),
        contract@ == owner@ || old(state).balances@[contract@] + amount <= u128::MAX,
        match old(state).swap_fee_config {
            Some(c) => c.fee_receiver@ == owner@ || old(state).balances@[c.fee_receiver@] + amount
                <= u128::MAX,
            None => true,
        },
    ensures
        final(state).wf(),
        send_from_post(
            *old(state),
            *final(state),
            r,
            executor@,
            owner@,
            contract@,
            amount,
            payload@,
        ),
{
    let is_swap = is_swap_trigger(&payload);
    let fee = fee_amount(amount, is_swap, &state.swap_fee_config);
    if fee == 0 {
        return plain_send_from(state, executor, owner, contract, amount, payload);
    }
    // A non-zero fee implies a stored, enabled policy.
    let receiver: String = match &state.swap_fee_config {
        Some(c) => c.fee_receiver.clone(),
        None => String::new(),
    };
    if !check_addr(owner) {
        return Err(ContractError::InvalidAddress);
    }
    if !check_addr(contract) {
        return Err(ContractError::InvalidAddress);
    }
    let principal = amount - fee;
    if principal == 0 {
        return Err(ContractError::InvalidZeroAmount);
    }
    let allow = state.allowances.allowance_of(owner, executor);
    if allow < principal {
        return Err(ContractError::InsufficientAllowance);
    }
    let bal = state.balances.balance_of(owner);
    if bal < amount {
        return Err(ContractError::InsufficientFunds);
    }
    state.balances.debit(owner, fee);
    state.balances.credit(&receiver, fee);
    proof {
        assert(state.balances@[owner@] >= principal);
        assert(state.allowances@[(owner@, executor@)] >= principal);
    }
    let res = plain_send_from(state, executor, owner, contract, principal, payload);
    match res {
        Ok(inner) => Ok(
            SendResponse {
                action: ActionTag::SendFrom,
                from: owner.clone(),
                to: contract.clone(),
                by: Some(executor.clone()),
                amount,
                fee_amount: Some(fee),
                notification: inner.notification,
            },
        ),
        Err(e) => {
            proof {
                assert(false);
            }
            Err(e)
        }
    }
}

/// The error the policy update reports, if any: no stored policy or a
/// caller other than the stored admin is an authorization failure; a
/// malformed replacement identity is a validation failure, the new admin
/// checked before the new receiver.
pub open spec fn update_err(
    pre: TokenState,
    sender: Seq<char>,
    fee_admin: Option<String>,
    fee_receiver: Option<String>,
) -> Option<ContractError> {
    match pre.swap_fee_config {
        None => Some(ContractError::Unauthorized),
        Some(c) => if sender != c.fee_admin@ {
            Some(ContractError::Unauthorized)
        } else if fee_admin matches Some(a) && !valid_addr(a@) {
            Some(ContractError::InvalidAddress)
        } else if fee_receiver matches Some(rv) && !valid_addr(rv@) {
            Some(ContractError::InvalidAddress)
        } else {
            None
        },
    }
}

/// The stored policy after a successful partial update: each field present
/// in the request replaces the stored one, each absent field is retained.
pub open spec fn merged_config(
    c: SwapFeeConfig,
    fee_admin: Option<String>,
    enable_swap_fee: Option<bool>,
    swap_percent_fee: Option<FeeRate>,
    fee_receiver: Option<String>,
) -> SwapFeeConfig {
    SwapFeeConfig {
        fee_admin: match fee_admin {
            Some(a) => a,
            None => c.fee_admin,
        },
        enable_swap_fee: match enable_swap_fee {
            Some(b) => b,
            None => c.enable_swap_fee,
        },
        swap_percent_fee: match swap_percent_fee {
            Some(fr) => fr,
            None => c.swap_percent_fee,
        },
        fee_receiver: match fee_receiver {
            Some(rv) => rv,
            None => c.fee_receiver,
        },
    }
}

/// The complete behaviour of the policy update.
pub open spec fn update_post(
    pre: TokenState,
    post: TokenState,
    r: Result<(), ContractError>,
    sender: Seq<char>,
    fee_admin: Option<String>,
    enable_swap_fee: Option<bool>,
    swap_percent_fee: Option<FeeRate>,
    fee_receiver: Option<String>,
) -> bool {
    match r {
        Ok(u) => {
            &&& update_err(pre, sender, fee_admin, fee_receiver) is None
            &&& pre.swap_fee_config matches Some(c) && post.swap_fee_config == Some(
                merged_config(c, fee_admin, enable_swap_fee, swap_percent_fee, fee_receiver),
            )
            &&& post.balances == pre.balances
            &&& post.allowances == pre.allowances
        },
        Err(e) => post == pre && update_err(pre, sender, fee_admin, fee_receiver) == Some(e),
    }
}

/// The authorization-gated mutation of the stored fee policy: only the
/// current `fee_admin` may change it, each field independently, and a
/// request with no fields is an idempotent no-op save.
pub fn update_swap_fee_config(
    state: &mut TokenState,
    sender: &String,
    fee_admin: Option<String>,
    enable_swap_fee: Option<bool>,
    swap_percent_fee: Option<FeeRate>,
    fee_receiver: Option<String>,
) -> (r: Result<(), ContractError>)
    requires
        old(state).wf(),
        match swap_percent_fee {
            Some(fr) => fr.valid(),
            None => true,
        },
    ensures
        final(state).wf(),
        update_post(
            *old(state),
            *final(state),
            r,
            sender@,
            fee_admin,
            enable_swap_fee,
            swap_percent_fee,
            fee_receiver,
        ),
{
    let new_config = match &state.swap_fee_config {
        None => {
            return Err(ContractError::Unauthorized);
        }
        Some(cfg) => {
            if !sender.eq(&cfg.fee_admin) {
                return Err(ContractError::Unauthorized);
            }
            let new_admin: String = match fee_admin {
                Some(a) => {
                    if !check_addr(&a) {
                        return Err(ContractError::InvalidAddress);
                    }
                    a
                }
                None => cfg.fee_admin.clone(),
            };
            let new_receiver: String = match fee_receiver {
                Some(rv) => {
                    if !check_addr(&rv) {
                        return Err(ContractError::InvalidAddress);
                    }
                    rv
                }
                None => cfg.fee_receiver.clone(),
            };
            let new_enable: bool = match enable_swap_fee {
                Some(b) => b,
                None => cfg.enable_swap_fee,
            };
            let new_rate: FeeRate = match swap_percent_fee {
                Some(fr) => fr,
                None => cfg.swap_percent_fee,
            };
            SwapFeeConfig {
                fee_admin: new_admin,
                enable_swap_fee: new_enable,
                swap_percent_fee: new_rate,
                fee_receiver: new_receiver,
            }
        }
    };
    state.swap_fee_config = Some(new_config);
    Ok(())
}

/// Returns the stored policy, or the zero-valued default record when none
/// is stored: never an error for "not configured".
pub fn query_swap_fee_config(state: &TokenState) -> (r: SwapFeeConfigResponse)
    ensures
        config_response_ok(r, state.swap_fee_config),
{
    match &state.swap_fee_config {
        Some(c) => SwapFeeConfigResponse {
            fee_admin: c.fee_admin.clone(),
            enable_swap_fee: c.enable_swap_fee,
            swap_percent_fee: c.swap_percent_fee,
            fee_receiver: c.fee_receiver.clone(),
        },
        None => SwapFeeConfigResponse {
            fee_admin: String::new(),
            enable_swap_fee: false,
            swap_percent_fee: FeeRate::from_percent(0),
            fee_receiver: String::new(),
        },
    }
}

/// The balance of `address`, zero for an account never credited.
pub fn query_balance(state: &TokenState, address: &String) -> (r: u128)
    requires
        state.wf(),
    ensures
        r == state.balances@[address@],
{
    state.balances.balance_of(address)
}

/// The remaining allowance `owner` has granted `spender`, zero when none.
pub fn query_allowance(state: &TokenState, owner: &String, spender: &String) -> (r: u128)
    requires
        state.wf(),
    ensures
        r == state.allowances@[(owner@, spender@)],
{
    state.allowances.allowance_of(owner, spender)
}

/// The error an allowance grant reports, if any.
pub open spec fn increase_allowance_err(owner: Seq<char>, spender: Seq<char>) -> Option<
    ContractError,
> {
    if !valid_addr(spender) {
        Some(ContractError::InvalidAddress)
    } else if spender == owner {
        Some(ContractError::CannotSetOwnAccount)
    } else {
        None
    }
}

/// The complete behaviour of an allowance grant.
pub open spec fn increase_allowance_post(
    pre: TokenState,
    post: TokenState,
    r: Result<(), ContractError>,
    owner: Seq<char>,
    spender: Seq<char>,
    amount: u128,
) -> bool {
    match r {
        Ok(u) => {
            &&& increase_allowance_err(owner, spender) is None
            &&& post.allowances@ == pre.allowances@.insert(
                (owner, spender),
                (pre.allowances@[(owner, spender)] + amount) as u128,
            )
            &&& post.balances == pre.balances
            &&& post.swap_fee_config == pre.swap_fee_config
        },
        Err(e) => post == pre && increase_allowance_err(owner, spender) == Some(e),
    }
}

/// Grants `spender` an additional allowance of `amount` from `owner`, as
/// the delegated transfer path consumes it.
pub fn increase_allowance(
    state: &mut TokenState,
    owner: &String,
    spender: &String,
    amount: u128,
) -> (r: Result<(), ContractError>)
    requires
        old(state).wf(),
        old(state).allowances@[(owner@, spender@)] + amount <= u128::MAX,
    ensures
        final(state).wf(),
        increase_allowance_post(*old(state), *final(state), r, owner@, spender@, amount),
{
    if !check_addr(spender) {
        return Err(ContractError::InvalidAddress);
    }
    if spender.eq(owner) {
        return Err(ContractError::CannotSetOwnAccount);
    }
    state.allowances.increase(owner, spender, amount);
    Ok(())
}


/// The total of a list of initial balances.
pub open spec fn sum_amounts(s: Seq<(String, u128)>) -> int
    decreases s.len(),
{
    if s.len() == 0 {
        0
    } else {
        s[0].1 + sum_amounts(s.subrange(1, s.len() as int))
    }
}

proof fn lemma_sum_nonneg(s: Seq<(String, u128)>)
    ensures
        sum_amounts(s) >= 0,
    decreases s.len(),
{
    if s.len() > 0 {
        lemma_sum_nonneg(s.subrange(1, s.len() as int));
    }
}

/// Every address in a list of initial balances is well formed.
pub open spec fn all_addrs_valid(s: Seq<(String, u128)>) -> bool {
    forall|i: int| 0 <= i < s.len() ==> valid_addr((#[trigger] s[i]).0@)
}

/// The balances map after crediting each initial balance in order,
/// starting from the empty ledger. A repeated address accumulates.
pub open spec fn credited_balances(s: Seq<(String, u128)>) -> Map<Seq<char>, u128>
    decreases s.len(),
{
    if s.len() == 0 {
        zero_balances()
    } else {
        let m = credited_balances(s.drop_last());
        m.insert(s.last().0@, (m[s.last().0@] + s.last().1) as u128)
    }
}

/// The error instantiation reports, if any: a malformed initial-balance
/// address, then a malformed identity in the optional initial policy.
pub open spec fn instantiate_err(
    initial_balances: Seq<(String, u128)>,
    swap_fee_config: Option<SwapFeeConfigResponse>,
) -> Option<ContractError> {
    if !all_addrs_valid(initial_balances) {
        Some(ContractError::InvalidAddress)
    } else {
        match swap_fee_config {
            None => None,
            Some(c) => if !valid_addr(c.fee_admin@) {
                Some(ContractError::InvalidAddress)
            } else if !valid_addr(c.fee_receiver@) {
                Some(ContractError::InvalidAddress)
            } else {
                None
            },
        }
    }
}

/// The policy seeded by instantiation, when one is supplied.
pub open spec fn seeded_config(swap_fee_config: Option<SwapFeeConfigResponse>) -> Option<
    SwapFeeConfig,
> {
    match swap_fee_config {
        None => None,
        Some(c) => Some(
            SwapFeeConfig {
                fee_admin: c.fee_admin,
                enable_swap_fee: c.enable_swap_fee,
                swap_percent_fee: c.swap_percent_fee,
                fee_receiver: c.fee_receiver,
            },
        ),
    }
}

/// Bootstraps the contract state: credits each initial balance and seeds
/// the optional fee policy, validating every identity first. An error
/// creates no state at all.
pub fn instantiate(
    initial_balances: &Vec<(String, u128)>,
    swap_fee_config: Option<SwapFeeConfigResponse>,
) -> (r: Result<TokenState, ContractError>)
    requires
        sum_amounts(initial_balances@) <= u128::MAX,
        match swap_fee_config {
            Some(c) => c.swap_percent_fee.valid(),
            None => true,
        },
    ensures
        match r {
            Ok(ts) => {
                &&& instantiate_err(initial_balances@, swap_fee_config) is None
                &&& ts.wf()
                &&& ts.balances@ == credited_balances(initial_balances@)
                &&& ts.allowances@ == zero_allowances()
                &&& ts.swap_fee_config == seeded_config(swap_fee_config)
            },
            Err(e) => instantiate_err(initial_balances@, swap_fee_config) == Some(e),
        },
{
    let ghost all = initial_balances@;
    let n = initial_balances.len();
    let mut i: usize = 0;
    while i < n
        invariant
            n == all.len(),
            all == initial_balances@,
            i <= n,
            forall|j: int| 0 <= j < i ==> valid_addr((#[trigger] all[j]).0@),
        decreases n - i,
    {
        if !check_addr(&initial_balances[i].0) {
            proof {
                assert(!valid_addr(all[i as int].0@));
            }
            return Err(ContractError::InvalidAddress);
        }
        i = i + 1;
    }
    let config: Option<SwapFeeConfig> = match swap_fee_config {
        None => None,
        Some(c) => {
            if !check_addr(&c.fee_admin) {
                return Err(ContractError::InvalidAddress);
            }
            if !check_addr(&c.fee_receiver) {
                return Err(ContractError::InvalidAddress);
            }
            Some(
                SwapFeeConfig {
                    fee_admin: c.fee_admin,
                    enable_swap_fee: c.enable_swap_fee,
                    swap_percent_fee: c.swap_percent_fee,
                    fee_receiver: c.fee_receiver,
                },
            )
        }
    };
    let mut balances = BalanceStore::new();
    let ghost mut total: int = 0;
    let mut k: usize = 0;
    proof {
        assert(all.take(0) =~= Seq::<(String, u128)>::empty());
        assert(all.subrange(0, n as int) =~= all);
    }
    while k < n
        invariant
            n == all.len(),
            all == initial_balances@,
            k <= n,
            balances.wf(),
            balances@ == credited_balances(all.take(k as int)),
            total + sum_amounts(all.subrange(k as int, n as int)) == sum_amounts(all),
            sum_amounts(all) <= u128::MAX,
            forall|key: Seq<char>| #[trigger] balances@[key] <= total,
            0 <= total,
        decreases n - k,
    {
        let amount = initial_balances[k].1;
        proof {
            let rest = all.subrange(k as int, n as int);
            assert(rest.subrange(1, rest.len() as int) =~= all.subrange(k as int + 1, n as int));
            lemma_sum_nonneg(all.subrange(k as int + 1, n as int));
            assert(total + amount <= u128::MAX);
        }
        balances.credit(&initial_balances[k].0, amount);
        proof {
            total = total + amount;
            assert(all.take(k as int + 1).drop_last() =~= all.take(k as int));
            assert(all.take(k as int + 1).last() == all[k as int]);
        }
        k = k + 1;
    }
    proof {
        assert(all.take(n as int) =~= all);
    }
    Ok(
        TokenState {
            balances,
            allowances: AllowanceStore::new(),
            swap_fee_config: config,
        },
    )
}


/// A query response record matches the stored policy, or is the zero-valued
/// default when none is stored.
pub open spec fn config_response_ok(r: SwapFeeConfigResponse, stored: Option<SwapFeeConfig>) -> bool {
    match stored {
        Some(c) => {
            &&& r.fee_admin@ == c.fee_admin@
            &&& r.enable_swap_fee == c.enable_swap_fee
            &&& r.swap_percent_fee == c.swap_percent_fee
            &&& r.fee_receiver@ == c.fee_receiver@
        },
        None => {
            &&& r.fee_admin@ == Seq::<char>::empty()
            &&& r.enable_swap_fee == false
            &&& r.swap_percent_fee.value() == 0
            &&& r.fee_receiver@ == Seq::<char>::empty()
        },
    }
}

/// Dispatches a state-mutating request from `sender` to the operation that
/// handles it.
pub fn execute(state: &mut TokenState, sender: &String, msg: ExecuteMsg) -> (r: Result<
    ExecuteResponse,
    ContractError,
>)
    requires
        old(state).wf(),
        match msg {
            ExecuteMsg::Send { contract, amount, .. } => (contract@ == sender@ || old(
                state,
            ).balances@[contract@] + amount <= u128::MAX) && match old(state).swap_fee_config {
                Some(c) => c.fee_receiver@ == sender@ || old(state).balances@[c.fee_receiver@]
                    + amount <= u128::MAX,
                None => true,
            },
            ExecuteMsg::SendFrom { owner, contract, amount, .. } => (contract@ == owner@ || old(
                state,
            ).balances@[contract@] + amount <= u128::MAX) && match old(state).swap_fee_config {
                Some(c) => c.fee_receiver@ == owner@ || old(state).balances@[c.fee_receiver@]
                    + amount <= u128::MAX,
                None => true,
            },
            ExecuteMsg::IncreaseAllowance { spender, amount } => old(state).allowances@[
                (sender@, spender@)
            ] + amount <= u128::MAX,
            ExecuteMsg::UpdateSwapFeeConfig { swap_percent_fee, .. } => match swap_percent_fee {
                Some(fr) => fr.valid(),
                None => true,
            },
        },
    ensures
        final(state).wf(),
        match msg {
            ExecuteMsg::Send { contract, amount, msg: payload } => match r {
                Ok(er) => er matches ExecuteResponse::Send(resp) && send_post(
                    *old(state),
                    *final(state),
                    Ok(resp),
                    sender@,
                    contract@,
                    amount,
                    payload@,
                ),
                Err(e) => send_post(
                    *old(state),
                    *final(state),
                    Err(e),
                    sender@,
                    contract@,
                    amount,
                    payload@,
                ),
            },
            ExecuteMsg::SendFrom { owner, contract, amount, msg: payload } => match r {
                Ok(er) => er matches ExecuteResponse::Send(resp) && send_from_post(
                    *old(state),
                    *final(state),
                    Ok(resp),
                    sender@,
                    owner@,
                    contract@,
                    amount,
                    payload@,
                ),
                Err(e) => send_from_post(
                    *old(state),
                    *final(state),
                    Err(e),
                    sender@,
                    owner@,
                    contract@,
                    amount,
                    payload@,
                ),
            },
            ExecuteMsg::IncreaseAllowance { spender, amount } => match r {
                Ok(er) => er is IncreaseAllowance && increase_allowance_post(
                    *old(state),
                    *final(state),
                    Ok(()),
                    sender@,
                    spender@,
                    amount,
                ),
                Err(e) => increase_allowance_post(
                    *old(state),
                    *final(state),
                    Err(e),
                    sender@,
                    spender@,
                    amount,
                ),
            },
            ExecuteMsg::UpdateSwapFeeConfig {
                fee_admin,
                enable_swap_fee,
                swap_percent_fee,
                fee_receiver,
            } => match r {
                Ok(er) => er is UpdateSwapFeeConfig && update_post(
                    *old(state),
                    *final(state),
                    Ok(()),
                    sender@,
                    fee_admin,
                    enable_swap_fee,
                    swap_percent_fee,
                    fee_receiver,
                ),
                Err(e) => update_post(
                    *old(state),
                    *final(state),
                    Err(e),
                    sender@,
                    fee_admin,
                    enable_swap_fee,
                    swap_percent_fee,
                    fee_receiver,
                ),
            },
        },
{
    match msg {
        ExecuteMsg::Send { contract, amount, msg: payload } => {
            match execute_send(state, sender, &contract, amount, payload) {
                Ok(resp) => Ok(ExecuteResponse::Send(resp)),
                Err(e) => Err(e),
            }
        }
        ExecuteMsg::SendFrom { owner, contract, amount, msg: payload } => {
            match execute_send_from(state, sender, &owner, &contract, amount, payload) {
                Ok(resp) => Ok(ExecuteResponse::Send(resp)),
                Err(e) => Err(e),
            }
        }
        ExecuteMsg::IncreaseAllowance { spender, amount } => {
            match increase_allowance(state, sender, &spender, amount) {
                Ok(_) => Ok(ExecuteResponse::IncreaseAllowance),
                Err(e) => Err(e),
            }
        }
        ExecuteMsg::UpdateSwapFeeConfig {
            fee_admin,
            enable_swap_fee,
            swap_percent_fee,
            fee_receiver,
        } => {
            match update_swap_fee_config(
                state,
                sender,
                fee_admin,
                enable_swap_fee,
                swap_percent_fee,
                fee_receiver,
            ) {
                Ok(_) => Ok(ExecuteResponse::UpdateSwapFeeConfig),
                Err(e) => Err(e),
            }
        }
    }
}

/// Answers a read-only request.
pub fn query(state: &TokenState, msg: QueryMsg) -> (r: QueryResponse)
    requires
        state.wf(),
    ensures
        match msg {
            QueryMsg::Balance { address } => r matches QueryResponse::Balance { balance }
                && balance == state.balances@[address@],
            QueryMsg::SwapFeeConfig {  } => r matches QueryResponse::SwapFeeConfig { config }
                && config_response_ok(config, state.swap_fee_config),
        },
{
    match msg {
        QueryMsg::Balance { address } => QueryResponse::Balance {
            balance: query_balance(state, &address),
        },
        QueryMsg::SwapFeeConfig {  } => QueryResponse::SwapFeeConfig {
            config: query_swap_fee_config(state),
        },
    }
}

/// The no-op migration hook: every part of the state is carried over
/// unchanged.
pub fn migrate(state: &mut TokenState) -> (r: Result<(), ContractError>)
    ensures
        *final(state) == *old(state),
        r is Ok,
{
    Ok(())
}

} // verus!
