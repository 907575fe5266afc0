//! The ways in which a cycle of the watcher or of a relayer can fail.

use vstd::prelude::*;

verus! {

/// Why a cycle was abandoned. No kind ends the process: the driver of a loop
/// reports the error, sleeps and starts the next cycle.
#[derive(Clone, Debug, PartialEq, Eq)]
pub enum BridgeError {
    /// A call to a chain node failed or timed out.
    Transport,
    /// A log or a response could not be parsed.
    Decode,
    /// The confirmations at hand do not carry enough voting power.
    InsufficientSignatures,
    /// A submitted transaction reverted in the bridge contract.
    ContractRevert,
    /// A claims transaction was accepted, but the native chain's event nonce
    /// did not advance; `tx_hash` names the transaction to inspect.
    InvalidBridgeState { tx_hash: String, last_event_nonce: u64 },
    /// The process was told to stop while the cycle ran.
    Cancelled,
}

} // verus!
