//! Synchronization planner: decides whether a rotate proof is due and which
//! target block a header-range proof should advance the contract to.

use vstd::prelude::*;
use crate::contract::{HeaderRangeContractData, RotateContractData};
use crate::search;

verus! {

/// Decide whether a rotate is due. `current_authority_set_id` is the
/// authority set of the block before the contract's latest committed block,
/// `head_authority_set_id` the set of the block before the source chain's
/// head. A rotate is due exactly when the chain has moved past the
/// contract's committed epoch and the contract has not yet absorbed the next
/// authority set's hash; this prevents redundant rotate submissions.
pub fn find_rotate(
    current_authority_set_id: u64,
    head_authority_set_id: u64,
    data: &RotateContractData,
) -> (r: Option<u64>)
    ensures
        r == (if current_authority_set_id < head_authority_set_id
                && !data.next_authority_set_hash_exists {
            Some(current_authority_set_id)
        } else {
            None::<u64>
        }),
{
    if current_authority_set_id < head_authority_set_id && !data.next_authority_set_hash_exists {
        Some(current_authority_set_id)
    } else {
        None
    }
}

/// Which authority set a header-range proof should be requested under, or
/// nothing when the contract sits exactly at an epoch boundary whose next
/// authority set is not committed yet (a rotate must happen first).
pub open spec fn spec_plan_set_id(
    latest_block: u32,
    last_justified_block: u32,
    current_authority_set_id: u64,
    next_authority_set_hash_exists: bool,
) -> Option<u64>
    recommends
        current_authority_set_id < u64::MAX,
{
    if latest_block == last_justified_block {
        if !next_authority_set_hash_exists {
            None
        } else {
            Some((current_authority_set_id + 1) as u64)
        }
    } else {
        Some(current_authority_set_id)
    }
}

/// Choose the authority set for the header-range search.
/// `last_justified_block` is the last block justified by the contract's
/// current authority set.
pub fn plan_header_range_set_id(
    data: &HeaderRangeContractData,
    current_authority_set_id: u64,
    last_justified_block: u32,
) -> (r: Option<u64>)
    requires
        current_authority_set_id < u64::MAX,
    ensures
        r == spec_plan_set_id(
            data.vectorx_latest_block,
            last_justified_block,
            current_authority_set_id,
            data.next_authority_set_hash_exists,
        ),
{
    if data.vectorx_latest_block == last_justified_block {
        if !data.next_authority_set_hash_exists {
            None
        } else {
            Some(current_authority_set_id + 1)
        }
    } else {
        Some(current_authority_set_id)
    }
}

/// Plan a header-range step: pick the authority set, search for the block to
/// step to, and pair it with the contract's latest block as the range to
/// prove. `last_justified_block` is the last block justified by the
/// contract's current set; `search_last_justified_block` the last block
/// justified by the set the plan settled on; `justified[i]` answers whether
/// block `candidate + i` of the probe window has a justification.
pub fn find_header_range(
    ideal_block_interval: u32,
    data: &HeaderRangeContractData,
    current_authority_set_id: u64,
    last_justified_block: u32,
    search_last_justified_block: u32,
    justified: &Vec<bool>,
) -> (r: Option<(u32, u32)>)
    requires
        current_authority_set_id < u64::MAX,
        ideal_block_interval > 0,
        data.vectorx_latest_block + data.header_range_commitment_tree_size <= u32::MAX,
        justified@.len() == search::window_len(
            ideal_block_interval,
            data.header_range_commitment_tree_size,
            data.vectorx_latest_block,
            data.avail_current_block,
            search_last_justified_block,
        ),
    ensures
        r == (match spec_plan_set_id(
            data.vectorx_latest_block,
            last_justified_block,
            current_authority_set_id,
            data.next_authority_set_hash_exists,
        ) {
            None => None::<(u32, u32)>,
            Some(_) => match search::spec_search(
                ideal_block_interval,
                data.header_range_commitment_tree_size,
                data.vectorx_latest_block,
                data.avail_current_block,
                search_last_justified_block,
                justified@,
            ) {
                Some(b) => Some((data.vectorx_latest_block, b)),
                None => None,
            },
        }),
{
    let set_id = plan_header_range_set_id(data, current_authority_set_id, last_justified_block);
    if set_id.is_none() {
        return None;
    }
    let block_to_step_to = search::run_search(
        ideal_block_interval,
        data.header_range_commitment_tree_size,
        data.vectorx_latest_block,
        data.avail_current_block,
        search_last_justified_block,
        justified,
    );
    match block_to_step_to {
        Some(b) => Some((data.vectorx_latest_block, b)),
        None => None,
    }
}

} // verus!
