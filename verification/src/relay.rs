//! Relay submission: turn a generated proof into a confirmed destination
//! chain transaction, over one of two paths fixed by configuration — a
//! custodial relay service that signs and broadcasts on the operator's
//! behalf (with a bounded retry), or self-signed local broadcasting with a
//! confirmation wait and a receipt-status check.

use vstd::prelude::*;
use crate::errors::RelayError;

verus! {

/// How many times a custodial relay submission is attempted before the
/// failure surfaces as cycle-local.
pub const NUM_RELAY_RETRIES: u32 = 3;

/// Confirmations a self-signed transaction waits for.
pub const NUM_CONFIRMATIONS: u64 = 3;

/// Bound, in seconds, on the self-signed confirmation wait.
pub const RELAY_TIMEOUT_SECONDS: u64 = 60;

/// A proof artifact as the proving backend hands it over: the proof bytes
/// and the public-outputs bytes it commits to.
pub struct ProofArtifact {
    pub proof_bytes: Vec<u8>,
    pub public_values: Vec<u8>,
}

/// The two payloads a relay sends to the contract. Under a mock-proving
/// configuration the proof bytes are replaced with an empty payload; the
/// public-outputs bytes are always sent unmodified.
pub fn relay_payload(proof: ProofArtifact, mock_mode: bool) -> (r: (Vec<u8>, Vec<u8>))
    ensures
        r.1@ == proof.public_values@,
        mock_mode ==> r.0@ == Seq::<u8>::empty(),
        !mock_mode ==> r.0@ == proof.proof_bytes@,
{
    if mock_mode {
        (Vec::new(), proof.public_values)
    } else {
        (proof.proof_bytes, proof.public_values)
    }
}

/// What a confirmed transaction's receipt shows.
pub struct TxReceipt {
    pub status: bool,
    pub transaction_hash: Vec<u8>,
}

/// Judge a mined transaction by its receipt: a false status means the call
/// reverted on chain, and the relay failed even though a transaction hash
/// exists.
pub fn interpret_receipt(receipt: TxReceipt) -> (r: Result<Vec<u8>, RelayError>)
    ensures
        receipt.status ==> (r matches Ok(h) && h@ == receipt.transaction_hash@),
        !receipt.status ==> (r matches Err(e) && e is Reverted),
{
    if receipt.status {
        Ok(receipt.transaction_hash)
    } else {
        Err(RelayError::Reverted)
    }
}

/// Judge the whole confirmation wait: no receipt within the bounded wait is
/// a timeout failure, a receipt is judged by its status.
pub fn interpret_confirmation(outcome: Option<TxReceipt>) -> (r: Result<Vec<u8>, RelayError>)
    ensures
        outcome is None ==> (r matches Err(e) && e is ConfirmationTimeout),
        outcome matches Some(rec) ==> {
            &&& rec.status ==> (r matches Ok(h) && h@ == rec.transaction_hash@)
            &&& !rec.status ==> (r matches Err(e) && e is Reverted)
        },
{
    match outcome {
        Some(receipt) => interpret_receipt(receipt),
        None => Err(RelayError::ConfirmationTimeout),
    }
}

/// What the custodial relay service is asked to sign and broadcast.
pub struct KmsRelayRequest {
    pub chain_id: u64,
    pub address: String,
    pub calldata: String,
    pub platform_request: bool,
}

/// The relay path fixed by configuration, with everything the path needs
/// that is known before the first attempt.
pub enum RelayPlan {
    /// Hand the encoded call to the custodial relay service.
    Custodial(KmsRelayRequest),
    /// Sign and broadcast locally, then wait out the confirmations.
    SelfSigned { num_confirmations: u64, timeout_seconds: u64 },
}

/// Build the relay plan for one encoded contract call. `address` is the
/// contract's checksummed address and `calldata` the encoded rotate or
/// commit-header-range call.
pub fn plan_relay(use_kms_relayer: bool, chain_id: u64, address: String, calldata: String) -> (r:
    RelayPlan)
    ensures
        use_kms_relayer <==> r is Custodial,
        r matches RelayPlan::Custodial(q) ==> {
            &&& q.chain_id == chain_id
            &&& q.address@ == address@
            &&& q.calldata@ == calldata@
            &&& !q.platform_request
        },
        r matches RelayPlan::SelfSigned { num_confirmations, timeout_seconds } ==> {
            &&& num_confirmations == NUM_CONFIRMATIONS
            &&& timeout_seconds == RELAY_TIMEOUT_SECONDS
        },
{
    if use_kms_relayer {
        RelayPlan::Custodial(
            KmsRelayRequest { chain_id, address, calldata, platform_request: false },
        )
    } else {
        RelayPlan::SelfSigned {
            num_confirmations: NUM_CONFIRMATIONS,
            timeout_seconds: RELAY_TIMEOUT_SECONDS,
        }
    }
}

/// Retry state of a custodial relay submission: how many attempts are still
/// allowed, the pending one included.
pub struct CustodialRelay {
    pub attempts_remaining: u32,
}

/// Start a custodial submission with the full retry budget.
pub fn begin_custodial_relay() -> (s: CustodialRelay)
    ensures
        s.attempts_remaining == NUM_RELAY_RETRIES,
{
    CustodialRelay { attempts_remaining: NUM_RELAY_RETRIES }
}

impl CustodialRelay {
    /// Account for one failed attempt: retry while budget is left, else give
    /// the failure up as cycle-local.
    pub fn on_attempt_failure(self) -> (r: Result<CustodialRelay, RelayError>)
        ensures
            self.attempts_remaining <= 1 ==> (r matches Err(e) && e is ServiceFailed),
            self.attempts_remaining > 1 ==> (r matches Ok(s) && s.attempts_remaining
                == self.attempts_remaining - 1),
    {
        if self.attempts_remaining <= 1 {
            Err(RelayError::ServiceFailed)
        } else {
            Ok(CustodialRelay { attempts_remaining: self.attempts_remaining - 1 })
        }
    }
}

/// Pricing and sequencing of one self-signed transaction. The gas limit and
/// fee cap follow the chain-specific policy; the nonce is the operator's
/// next, owned and sequenced by this single instance.
pub struct TxParams {
    pub gas_limit: u128,
    pub max_fee_per_gas: u128,
    pub nonce: u64,
    pub num_confirmations: u64,
    pub timeout_seconds: u64,
}

/// Fix the parameters of a self-signed broadcast.
pub fn self_signed_params(gas_limit: u128, max_fee_per_gas: u128, nonce: u64) -> (p: TxParams)
    ensures
        p.gas_limit == gas_limit,
        p.max_fee_per_gas == max_fee_per_gas,
        p.nonce == nonce,
        p.num_confirmations == NUM_CONFIRMATIONS,
        p.timeout_seconds == RELAY_TIMEOUT_SECONDS,
{
    TxParams {
        gas_limit,
        max_fee_per_gas,
        nonce,
        num_confirmations: NUM_CONFIRMATIONS,
        timeout_seconds: RELAY_TIMEOUT_SECONDS,
    }
}

} // verus!
