//! Read-only snapshots of the destination-chain bridge contract: the fields
//! the planner needs, derived from raw contract reads. A stored authority-set
//! hash of all zero bytes means the set has not been committed yet.

use vstd::prelude::*;

verus! {

/// Contract fields needed to plan a rotate.
pub struct RotateContractData {
    pub current_block: u32,
    pub next_authority_set_hash_exists: bool,
}

/// Contract and chain fields needed to plan a header-range step.
pub struct HeaderRangeContractData {
    pub vectorx_latest_block: u32,
    pub avail_current_block: u32,
    pub header_range_commitment_tree_size: u32,
    pub next_authority_set_hash_exists: bool,
}

/// A stored hash marks its authority set as committed exactly when it is not
/// the all-zero hash.
pub fn hash_present(hash: &Vec<u8>) -> (r: bool)
    ensures
        r <==> exists|i: int| 0 <= i < hash@.len() && hash@[i] != 0,
{
    let mut k: usize = 0;
    while k < hash.len()
        invariant
            k <= hash@.len(),
            forall|i: int| 0 <= i < k ==> hash@[i] == 0,
        decreases hash@.len() - k,
    {
        if hash[k] != 0 {
            return true;
        }
        k = k + 1;
    }
    false
}

/// Assemble the rotate-planning snapshot from the contract's latest block and
/// the stored hash for the next authority set.
pub fn rotate_contract_data(current_block: u32, next_authority_set_hash: &Vec<u8>) -> (d:
    RotateContractData)
    ensures
        d.current_block == current_block,
        d.next_authority_set_hash_exists <==> exists|i: int|
            0 <= i < next_authority_set_hash@.len() && next_authority_set_hash@[i] != 0,
{
    RotateContractData {
        current_block,
        next_authority_set_hash_exists: hash_present(next_authority_set_hash),
    }
}

/// Assemble the header-range-planning snapshot from the contract reads and
/// the source chain's head block.
pub fn header_range_contract_data(
    vectorx_latest_block: u32,
    avail_current_block: u32,
    header_range_commitment_tree_size: u32,
    next_authority_set_hash: &Vec<u8>,
) -> (d: HeaderRangeContractData)
    ensures
        d.vectorx_latest_block == vectorx_latest_block,
        d.avail_current_block == avail_current_block,
        d.header_range_commitment_tree_size == header_range_commitment_tree_size,
        d.next_authority_set_hash_exists <==> exists|i: int|
            0 <= i < next_authority_set_hash@.len() && next_authority_set_hash@[i] != 0,
{
    HeaderRangeContractData {
        vectorx_latest_block,
        avail_current_block,
        header_range_commitment_tree_size,
        next_authority_set_hash_exists: hash_present(next_authority_set_hash),
    }
}

} // verus!
