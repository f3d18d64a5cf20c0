//! Proof requests: the typed inputs handed to the proving backend, one per
//! consensus fact. Constructed per cycle and consumed immediately.

use vstd::prelude::*;

verus! {

/// The two consensus facts the operator proves.
pub enum ProofRequest {
    /// Prove the transition from authority set `current_authority_set_id`
    /// to its successor.
    Rotate { current_authority_set_id: u64 },
    /// Prove finality of the blocks from `trusted_block` (exclusive) to
    /// `target_block` (inclusive) under one authority set, within the
    /// contract's live commitment-tree capacity.
    HeaderRange { trusted_block: u32, target_block: u32, commitment_tree_size: u32 },
}

/// Build the request for a rotate proof.
pub fn rotate_request(current_authority_set_id: u64) -> (r: ProofRequest)
    ensures
        r == (ProofRequest::Rotate { current_authority_set_id }),
{
    ProofRequest::Rotate { current_authority_set_id }
}

/// Build the request for a header-range proof.
pub fn header_range_request(trusted_block: u32, target_block: u32, commitment_tree_size: u32) -> (r:
    ProofRequest)
    ensures
        r == (ProofRequest::HeaderRange { trusted_block, target_block, commitment_tree_size }),
{
    ProofRequest::HeaderRange { trusted_block, target_block, commitment_tree_size }
}

} // verus!
