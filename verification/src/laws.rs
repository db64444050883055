//! General theorems about the fee-aware transfer path, stated over the same
//! spec functions the operations' contracts use.

use vstd::prelude::*;
use crate::classify::decodes_to_swap;
use crate::contract::{
    move_coins, plain_send_from_post, plain_send_post, send_from_post, send_post, update_post,
};
use crate::error::ContractError;
use crate::fee::{lemma_fee_bound, stored_fee};
use crate::msg::SendResponse;
use crate::rate::FeeRate;
use crate::state::{opt_config_wf, TokenState};

verus! {

/// Conservation of a single transfer leg: moving `amount` between two
/// distinct accounts debits and credits exactly that amount.
pub proof fn lemma_plain_transfer_conservation(
    m: Map<Seq<char>, u128>,
    payer: Seq<char>,
    contract: Seq<char>,
    amount: u128,
)
    requires
        payer != contract,
        m[payer] >= amount,
        m[contract] + amount <= u128::MAX,
    ensures
        ({
            let post = move_coins(m, payer, contract, amount);
            &&& m[payer] == post[payer] + amount
            &&& post[contract] == m[contract] + amount
        }),
{
}

/// Conservation of a split transfer: when payer, fee receiver and recipient
/// contract are pairwise distinct, the payer loses exactly `fee +
/// principal`, the fee receiver gains exactly `fee`, and the contract gains
/// exactly `principal`.
pub proof fn lemma_taxed_transfer_conservation(
    m: Map<Seq<char>, u128>,
    payer: Seq<char>,
    receiver: Seq<char>,
    contract: Seq<char>,
    fee: u128,
    principal: u128,
)
    requires
        payer != receiver,
        payer != contract,
        receiver != contract,
        m[payer] >= fee + principal,
        m[receiver] + fee <= u128::MAX,
        m[contract] + principal <= u128::MAX,
    ensures
        ({
            let post = move_coins(move_coins(m, payer, receiver, fee), payer, contract, principal);
            &&& m[payer] == post[payer] + fee + principal
            &&& post[receiver] == m[receiver] + fee
            &&& post[contract] == m[contract] + principal
        }),
{
}

/// No-policy passthrough: with no stored policy the fee is zero for every
/// payload, and the fee-aware notify-send has exactly the plain
/// primitive's behaviour.
pub proof fn lemma_no_policy_passthrough(
    pre: TokenState,
    post: TokenState,
    r: Result<SendResponse, ContractError>,
    sender: Seq<char>,
    contract: Seq<char>,
    amount: u128,
    payload: Seq<u8>,
)
    requires
        pre.swap_fee_config is None,
    ensures
        stored_fee(pre, amount, payload) == 0,
        send_post(pre, post, r, sender, contract, amount, payload) == plain_send_post(
            pre,
            post,
            r,
            sender,
            contract,
            amount,
            payload,
        ),
{
}

/// No-policy passthrough for the delegated notify-send.
pub proof fn lemma_no_policy_passthrough_from(
    pre: TokenState,
    post: TokenState,
    r: Result<SendResponse, ContractError>,
    executor: Seq<char>,
    owner: Seq<char>,
    contract: Seq<char>,
    amount: u128,
    payload: Seq<u8>,
)
    requires
        pre.swap_fee_config is None,
    ensures
        stored_fee(pre, amount, payload) == 0,
        send_from_post(pre, post, r, executor, owner, contract, amount, payload)
            == plain_send_from_post(pre, post, r, executor, owner, contract, amount, payload),
{
}

/// Disabled-flag passthrough: a stored policy with `enable_swap_fee ==
/// false` behaves exactly like no policy, regardless of the payload.
pub proof fn lemma_disabled_flag_passthrough(
    pre: TokenState,
    post: TokenState,
    r: Result<SendResponse, ContractError>,
    sender: Seq<char>,
    contract: Seq<char>,
    amount: u128,
    payload: Seq<u8>,
)
    requires
        pre.swap_fee_config matches Some(c) && !c.enable_swap_fee,
    ensures
        stored_fee(pre, amount, payload) == 0,
        send_post(pre, post, r, sender, contract, amount, payload) == plain_send_post(
            pre,
            post,
            r,
            sender,
            contract,
            amount,
            payload,
        ),
{
}

/// Disabled-flag passthrough for the delegated notify-send.
pub proof fn lemma_disabled_flag_passthrough_from(
    pre: TokenState,
    post: TokenState,
    r: Result<SendResponse, ContractError>,
    executor: Seq<char>,
    owner: Seq<char>,
    contract: Seq<char>,
    amount: u128,
    payload: Seq<u8>,
)
    requires
        pre.swap_fee_config matches Some(c) && !c.enable_swap_fee,
    ensures
        stored_fee(pre, amount, payload) == 0,
        send_from_post(pre, post, r, executor, owner, contract, amount, payload)
            == plain_send_from_post(pre, post, r, executor, owner, contract, amount, payload),
{
}

/// Conservation of a successful taxed notify-send with pairwise-distinct
/// parties: the sender loses exactly the gross amount, the fee receiver
/// gains exactly the fee, the contract is credited and notified of exactly
/// the principal.
pub proof fn lemma_send_conservation(
    pre: TokenState,
    post: TokenState,
    resp: SendResponse,
    sender: Seq<char>,
    contract: Seq<char>,
    receiver: Seq<char>,
    amount: u128,
    payload: Seq<u8>,
)
    requires
        opt_config_wf(pre.swap_fee_config),
        send_post(pre, post, Ok(resp), sender, contract, amount, payload),
        pre.swap_fee_config matches Some(c) && c.fee_receiver@ == receiver,
        stored_fee(pre, amount, payload) > 0,
        sender != contract,
        sender != receiver,
        receiver != contract,
        pre.balances@[receiver] + amount <= u128::MAX,
        pre.balances@[contract] + amount <= u128::MAX,
    ensures
        ({
            let fee = stored_fee(pre, amount, payload);
            &&& pre.balances@[sender] == post.balances@[sender] + amount
            &&& post.balances@[receiver] == pre.balances@[receiver] + fee
            &&& post.balances@[contract] == pre.balances@[contract] + (amount - fee)
            &&& resp.notification.amount == amount - fee
            &&& post.allowances@ == pre.allowances@
        }),
{
    lemma_fee_bound(amount, decodes_to_swap(payload), pre.swap_fee_config);
    let fee = stored_fee(pre, amount, payload) as u128;
    let principal = (amount - fee) as u128;
    lemma_taxed_transfer_conservation(pre.balances@, sender, receiver, contract, fee, principal);
}

/// Conservation of a successful taxed delegated notify-send with
/// pairwise-distinct parties: additionally, the executor's allowance is
/// consumed by exactly the principal, not the gross amount.
pub proof fn lemma_send_from_conservation(
    pre: TokenState,
    post: TokenState,
    resp: SendResponse,
    executor: Seq<char>,
    owner: Seq<char>,
    contract: Seq<char>,
    receiver: Seq<char>,
    amount: u128,
    payload: Seq<u8>,
)
    requires
        opt_config_wf(pre.swap_fee_config),
        send_from_post(pre, post, Ok(resp), executor, owner, contract, amount, payload),
        pre.swap_fee_config matches Some(c) && c.fee_receiver@ == receiver,
        stored_fee(pre, amount, payload) > 0,
        owner != contract,
        owner != receiver,
        receiver != contract,
        pre.balances@[receiver] + amount <= u128::MAX,
        pre.balances@[contract] + amount <= u128::MAX,
    ensures
        ({
            let fee = stored_fee(pre, amount, payload);
            &&& pre.balances@[owner] == post.balances@[owner] + amount
            &&& post.balances@[receiver] == pre.balances@[receiver] + fee
            &&& post.balances@[contract] == pre.balances@[contract] + (amount - fee)
            &&& resp.notification.amount == amount - fee
            &&& post.allowances@ == pre.allowances@.insert(
                (owner, executor),
                (pre.allowances@[(owner, executor)] - (amount - fee)) as u128,
            )
        }),
{
    lemma_fee_bound(amount, decodes_to_swap(payload), pre.swap_fee_config);
    let fee = stored_fee(pre, amount, payload) as u128;
    let principal = (amount - fee) as u128;
    lemma_taxed_transfer_conservation(pre.balances@, owner, receiver, contract, fee, principal);
}


/// Authorization gate: an update attempted with no stored policy, or by any
/// identity other than the stored `fee_admin`, fails with the authorization
/// error and leaves the whole state unchanged, whatever fields it carries.
pub proof fn lemma_update_authorization_gate(
    pre: TokenState,
    post: TokenState,
    r: Result<(), ContractError>,
    sender: Seq<char>,
    fee_admin: Option<String>,
    enable_swap_fee: Option<bool>,
    swap_percent_fee: Option<FeeRate>,
    fee_receiver: Option<String>,
)
    requires
        update_post(
            pre,
            post,
            r,
            sender,
            fee_admin,
            enable_swap_fee,
            swap_percent_fee,
            fee_receiver,
        ),
        match pre.swap_fee_config {
            None => true,
            Some(c) => sender != c.fee_admin@,
        },
    ensures
        r == Err::<(), ContractError>(ContractError::Unauthorized),
        post == pre,
{
}

} // verus!
