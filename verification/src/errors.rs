//! Error taxonomy. A verifying-key mismatch at startup is fatal: the process
//! must not run, since every proof it generated would be rejected. Every
//! other failure is cycle-local: it is logged and the next cycle re-plans
//! from fresh on-chain state.

use vstd::prelude::*;

verus! {

/// Why a relay attempt failed.
#[derive(Debug, PartialEq, Eq)]
pub enum RelayError {
    /// The transaction was mined but its receipt status is false: the
    /// contract call reverted on chain.
    Reverted,
    /// The custodial relay service kept failing until the retry bound was
    /// spent.
    ServiceFailed,
    /// The confirmation wait timed out before enough confirmations arrived.
    ConfirmationTimeout,
}

/// Every failure the operator distinguishes.
#[derive(Debug, PartialEq, Eq)]
pub enum OperatorError {
    /// The proving backend's verifying key differs from the one authorized
    /// in the contract.
    VkeyMismatch,
    /// The proving backend could not produce a proof for the request.
    ProofGenerationFailed,
    /// Relaying the proof did not end in a confirmed, successful transaction.
    Relay(RelayError),
    /// The forward probe found no justified block up to the farthest
    /// reachable one: a justification-indexer anomaly.
    SearchExhausted,
}

/// Only a verifying-key mismatch stops the process; everything else is
/// absorbed by the operator loop and retried from fresh state next cycle.
pub fn is_fatal(e: &OperatorError) -> (r: bool)
    ensures
        r <==> e is VkeyMismatch,
{
    match e {
        OperatorError::VkeyMismatch => true,
        _ => false,
    }
}

} // verus!
