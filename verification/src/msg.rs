//! Message and response shapes of the fee-aware operations.

use vstd::prelude::*;
use crate::rate::FeeRate;

verus! {

/// Which entry operation produced a response.
#[derive(Clone, Copy, Debug, PartialEq, Eq, Structural)]
pub enum ActionTag {
    /// A sender-authorized notify-send.
    Send,
    /// A delegated notify-send on behalf of an owner.
    SendFrom,
}

/// The receive-notification delivered to the recipient contract: the
/// transferred amount together with the original payload.
#[derive(Debug)]
pub struct ReceiveNotification {
    /// The contract notified.
    pub contract: String,
    /// The identity the notification names as the sender.
    pub sender: String,
    /// The amount the recipient contract is told it received.
    pub amount: u128,
    /// The opaque payload, forwarded verbatim.
    pub payload: Vec<u8>,
}

/// The observable outcome of a successful notify-send: the response
/// attributes and the single receive-notification produced.
#[derive(Debug)]
pub struct SendResponse {
    /// The action tag.
    pub action: ActionTag,
    /// The payer the transfer was debited from.
    pub from: String,
    /// The recipient contract.
    pub to: String,
    /// For a delegated send, the authorizing executor.
    pub by: Option<String>,
    /// The original gross amount.
    pub amount: u128,
    /// The fee actually collected; `None` on the plain path.
    pub fee_amount: Option<u128>,
    /// The receive-notification for the principal leg.
    pub notification: ReceiveNotification,
}

/// The state-mutating requests the fee-aware core handles. The remaining
/// token-standard requests (plain transfer, burn, mint, the other allowance
/// operations) are served verbatim by the reused token-standard library.
pub enum ExecuteMsg {
    /// Fee-aware notify-send.
    Send {
        /// The recipient contract.
        contract: String,
        /// The gross amount.
        amount: u128,
        /// The opaque payload forwarded with the notification.
        msg: Vec<u8>,
    },
    /// Fee-aware delegated notify-send.
    SendFrom {
        /// The account whose balance is debited.
        owner: String,
        /// The recipient contract.
        contract: String,
        /// The gross amount.
        amount: u128,
        /// The opaque payload forwarded with the notification.
        msg: Vec<u8>,
    },
    /// Grant of additional allowance, as the delegated flow consumes it.
    IncreaseAllowance {
        /// The account granted the allowance.
        spender: String,
        /// The additional allowance.
        amount: u128,
    },
    /// Partial update of the stored fee policy.
    UpdateSwapFeeConfig {
        /// Replacement admin, when present.
        fee_admin: Option<String>,
        /// Replacement enable flag, when present.
        enable_swap_fee: Option<bool>,
        /// Replacement percentage, when present.
        swap_percent_fee: Option<FeeRate>,
        /// Replacement fee receiver, when present.
        fee_receiver: Option<String>,
    },
}

/// The response of a handled state-mutating request.
#[derive(Debug)]
pub enum ExecuteResponse {
    /// The outcome of a notify-send, fee-aware or plain.
    Send(SendResponse),
    /// An allowance was granted.
    IncreaseAllowance,
    /// The fee policy was updated.
    UpdateSwapFeeConfig,
}

/// The read-only requests the fee-aware core answers.
pub enum QueryMsg {
    /// The balance of one account.
    Balance {
        /// The account queried.
        address: String,
    },
    /// The stored fee policy, or its zero-valued default.
    SwapFeeConfig {},
}

/// The answer to a read-only request.
#[derive(Debug)]
pub enum QueryResponse {
    /// The balance of the queried account.
    Balance {
        /// The amount held.
        balance: u128,
    },
    /// The stored fee policy, or its zero-valued default.
    SwapFeeConfig {
        /// The policy record.
        config: SwapFeeConfigResponse,
    },
}

/// The stored fee policy as queried, and as supplied at instantiation:
/// identities still in their raw string form.
#[derive(Debug)]
pub struct SwapFeeConfigResponse {
    /// The identity authorized to mutate the policy.
    pub fee_admin: String,
    /// Whether swap-triggering transfers are taxed.
    pub enable_swap_fee: bool,
    /// The percentage taken from every swap-triggering transfer.
    pub swap_percent_fee: FeeRate,
    /// The identity credited with collected fees.
    pub fee_receiver: String,
}

} // verus!
