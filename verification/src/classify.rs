//! The payload classifier.
//!
//! A transfer's opaque payload is swap-triggering exactly when it decodes to
//! the well-known swap-hook message's `Swap` variant. Any decode failure,
//! decode into a different variant, or malformed payload is the normal
//! "not a swap" outcome, never an error.

use vstd::prelude::*;

verus! {

/// Whether a byte string decodes to the recognized swap-hook `Swap` message.
/// The decoding is a pure function of the bytes, shared with the outside
/// decoder through this name.
pub uninterp spec fn decodes_to_swap(payload: Seq<u8>) -> bool;

/// Relies on `cosmwasm_std::from_json` applied to the serde shape of
/// `terraswap::pair::Cw20HookMsg`: whether the bytes deserialize into the
/// `Swap` variant depends on the bytes alone, and a failed decode is an
/// ordinary `Err` value, not a panic.
#[verifier::external_body]
fn payload_is_swap(payload: &Vec<u8>) -> (r: bool)
    ensures
        r == decodes_to_swap(payload@),
{
    matches!(
        cosmwasm_std::from_json::<terraswap::pair::Cw20HookMsg>(payload.as_slice()),
        Ok(terraswap::pair::Cw20HookMsg::Swap { .. })
    )
}

/// Classifies a transfer payload. Total and side-effect free: garbage bytes
/// simply classify as "not a swap".
pub fn is_swap_trigger(payload: &Vec<u8>) -> (r: bool)
    ensures
        r == decodes_to_swap(payload@),
{
    payload_is_swap(payload)
}

} // verus!
