//! A fungible-token ledger extension that interposes a conditional fee on
//! outbound transfers that are part of a decentralized-exchange swap flow.
//!
//! The core is the fee-aware transfer path: it detects whether an outgoing
//! notify-send carries a swap-triggering payload, computes a fee from the
//! configured percentage, atomically splits the transfer into a fee leg and a
//! principal leg, and forwards the principal to the plain notify-send
//! primitive.

pub mod addr;
pub mod allowances;
pub mod balances;
pub mod classify;
pub mod contract;
pub mod error;
pub mod fee;
pub mod laws;
pub mod msg;
pub mod rate;
pub mod state;
