//! Block search: find the highest justifiable block a header-range proof can
//! step to, within the contract's commitment-tree capacity and the source
//! chain's actual progress.
//!
//! Whether a given block has a justification is known only to the outside
//! justification indexer, so the search is a step machine: `begin_search`
//! either answers at once or yields a [`BlockSearch`] that names the next
//! block to ask about, and [`BlockSearch::step`] consumes the answer.
//! [`run_search`] drives the machine over answers gathered up front and
//! carries the full functional contract.

use vstd::prelude::*;

verus! {

/// An epoch boundary takes priority over interval-aligned steps: stepping to
/// the last justified block of the current epoch unblocks the next rotate.
pub open spec fn boundary_hit(last_justified_block: u32, current_block: u32, tree_size: u32) -> bool {
    last_justified_block != 0 && last_justified_block <= current_block + tree_size
}

/// The farthest block reachable in one header-range proof: `tree_size` blocks
/// past the contract's current block, capped by the chain's head.
pub open spec fn max_valid_block(tree_size: u32, current_block: u32, chain_head_block: u32) -> int {
    if current_block + tree_size <= chain_head_block {
        current_block + tree_size
    } else {
        chain_head_block as int
    }
}

/// The farthest reachable block rounded down to a multiple of the ideal
/// interval; the forward probe starts here.
pub open spec fn rounded_candidate(
    ideal_interval: u32,
    tree_size: u32,
    current_block: u32,
    chain_head_block: u32,
) -> int
    recommends
        ideal_interval > 0,
{
    let mv = max_valid_block(tree_size, current_block, chain_head_block);
    mv - (mv % (ideal_interval as int))
}

/// Index of the first `true` in `justified` at or after `i`.
pub open spec fn first_justified_from(justified: Seq<bool>, i: int) -> Option<int>
    decreases justified.len() - i,
{
    if i < 0 || i >= justified.len() {
        None
    } else if justified[i] {
        Some(i)
    } else {
        first_justified_from(justified, i + 1)
    }
}

/// How many justification answers the probe can consume: one per block from
/// the rounded candidate up to the farthest reachable block, and none when
/// the search is settled before probing.
pub open spec fn window_len(
    ideal_interval: u32,
    tree_size: u32,
    current_block: u32,
    chain_head_block: u32,
    last_justified_block: u32,
) -> int
    recommends
        ideal_interval > 0,
{
    if boundary_hit(last_justified_block, current_block, tree_size) {
        0
    } else {
        let c = rounded_candidate(ideal_interval, tree_size, current_block, chain_head_block);
        if c <= current_block {
            0
        } else {
            max_valid_block(tree_size, current_block, chain_head_block) - c + 1
        }
    }
}

/// The complete search result, given the justification answers for the probe
/// window (`justified[i]` answers for block `candidate + i`).
pub open spec fn spec_search(
    ideal_interval: u32,
    tree_size: u32,
    current_block: u32,
    chain_head_block: u32,
    last_justified_block: u32,
    justified: Seq<bool>,
) -> Option<u32>
    recommends
        ideal_interval > 0,
        current_block + tree_size <= u32::MAX,
        justified.len() == window_len(
            ideal_interval,
            tree_size,
            current_block,
            chain_head_block,
            last_justified_block,
        ),
{
    if boundary_hit(last_justified_block, current_block, tree_size) {
        Some(last_justified_block)
    } else {
        let candidate = rounded_candidate(ideal_interval, tree_size, current_block, chain_head_block);
        if candidate <= current_block {
            None
        } else {
            match first_justified_from(justified, 0) {
                Some(i) => Some((candidate + i) as u32),
                None => None,
            }
        }
    }
}

/// A probe in progress: `probe` is the next block whose justification is
/// needed. The ghost `answers` records that every block already asked about
/// lacked a justification.
pub struct BlockSearch {
    pub probe: u32,
    pub candidate: u32,
    pub max_valid: u32,
    pub current_block: u32,
    pub answers: Ghost<Seq<bool>>,
}

/// Outcome of starting a search.
pub enum SearchStart {
    /// The last justified block of the epoch is in range: step to it directly.
    Boundary(u32),
    /// The rounded candidate does not pass the contract's current block.
    NoProgress,
    /// A justification answer is needed for the machine's `probe` block.
    Probe(BlockSearch),
}

/// Outcome of one probe step.
pub enum SearchNext {
    /// The probed block is justified: step to it.
    Found(u32),
    /// Every block up to the farthest reachable one lacked a justification.
    Exhausted,
    /// A justification answer is needed for the next block up.
    Probing(BlockSearch),
}

impl BlockSearch {
    pub open spec fn wf(self) -> bool {
        &&& self.current_block < self.candidate
        &&& self.candidate <= self.probe
        &&& self.probe <= self.max_valid
        &&& self.probe == self.candidate + self.answers@.len()
        &&& forall|i: int| 0 <= i < self.answers@.len() ==> !self.answers@[i]
    }

    /// The block whose justification the machine asks about next.
    pub fn next_block(&self) -> (b: u32)
        ensures
            b == self.probe,
    {
        self.probe
    }

    /// Consume the indexer's answer for the `probe` block.
    pub fn step(self, justified: bool) -> (r: SearchNext)
        requires
            self.wf(),
        ensures
            justified <==> (r matches SearchNext::Found(b) && b == self.probe),
            r matches SearchNext::Found(b) ==> {
                &&& b == self.candidate + self.answers@.len()
                &&& self.current_block < b <= self.max_valid
            },
            (!justified && self.probe == self.max_valid) <==> r is Exhausted,
            r matches SearchNext::Probing(s) ==> {
                &&& !justified
                &&& s.wf()
                &&& s.probe == self.probe + 1
                &&& s.candidate == self.candidate
                &&& s.max_valid == self.max_valid
                &&& s.current_block == self.current_block
                &&& s.answers@ == self.answers@.push(false)
            },
            (!justified && self.probe < self.max_valid) ==> r is Probing,
    {
        if justified {
            SearchNext::Found(self.probe)
        } else if self.probe == self.max_valid {
            SearchNext::Exhausted
        } else {
            SearchNext::Probing(
                BlockSearch {
                    probe: self.probe + 1,
                    candidate: self.candidate,
                    max_valid: self.max_valid,
                    current_block: self.current_block,
                    answers: Ghost(self.answers@.push(false)),
                },
            )
        }
    }
}

/// Start a search for the block to step to.
pub fn begin_search(
    ideal_interval: u32,
    tree_size: u32,
    current_block: u32,
    chain_head_block: u32,
    last_justified_block: u32,
) -> (r: SearchStart)
    requires
        ideal_interval > 0,
        current_block + tree_size <= u32::MAX,
    ensures
        (r is Boundary) <==> boundary_hit(last_justified_block, current_block, tree_size),
        r matches SearchStart::Boundary(b) ==> b == last_justified_block,
        (r is NoProgress) <==> (!boundary_hit(last_justified_block, current_block, tree_size)
            && rounded_candidate(ideal_interval, tree_size, current_block, chain_head_block)
                <= current_block),
        r matches SearchStart::Probe(s) ==> {
            &&& s.wf()
            &&& s.candidate == rounded_candidate(ideal_interval, tree_size, current_block, chain_head_block)
            &&& s.probe == s.candidate
            &&& s.max_valid == max_valid_block(tree_size, current_block, chain_head_block)
            &&& s.current_block == current_block
            &&& s.answers@ == Seq::<bool>::empty()
        },
{
    if last_justified_block != 0 && last_justified_block <= current_block + tree_size {
        return SearchStart::Boundary(last_justified_block);
    }
    let reach: u32 = current_block + tree_size;
    let max_valid: u32 = if reach <= chain_head_block {
        reach
    } else {
        chain_head_block
    };
    proof {
        assert(max_valid as int % ideal_interval as int <= max_valid as int) by (nonlinear_arith)
            requires
                ideal_interval > 0,
                max_valid >= 0,
        ;
    }
    let candidate: u32 = max_valid - max_valid % ideal_interval;
    if candidate <= current_block {
        SearchStart::NoProgress
    } else {
        SearchStart::Probe(
            BlockSearch {
                probe: candidate,
                candidate,
                max_valid,
                current_block,
                answers: Ghost(Seq::empty()),
            },
        )
    }
}

/// Drive the whole search when the justification answers for the probe
/// window are already at hand: `justified[i]` answers for block
/// `candidate + i`.
pub fn run_search(
    ideal_interval: u32,
    tree_size: u32,
    current_block: u32,
    chain_head_block: u32,
    last_justified_block: u32,
    justified: &Vec<bool>,
) -> (r: Option<u32>)
    requires
        ideal_interval > 0,
        current_block + tree_size <= u32::MAX,
        justified@.len() == window_len(
            ideal_interval,
            tree_size,
            current_block,
            chain_head_block,
            last_justified_block,
        ),
    ensures
        r == spec_search(
            ideal_interval,
            tree_size,
            current_block,
            chain_head_block,
            last_justified_block,
            justified@,
        ),
{
    let start = begin_search(
        ideal_interval,
        tree_size,
        current_block,
        chain_head_block,
        last_justified_block,
    );
    let mut state = match start {
        SearchStart::Boundary(b) => {
            return Some(b);
        },
        SearchStart::NoProgress => {
            return None;
        },
        SearchStart::Probe(s) => s,
    };
    loop
        invariant
            state.wf(),
            !boundary_hit(last_justified_block, current_block, tree_size),
            state.candidate == rounded_candidate(ideal_interval, tree_size, current_block, chain_head_block),
            state.max_valid == max_valid_block(tree_size, current_block, chain_head_block),
            state.current_block == current_block,
            current_block < state.candidate,
            justified@.len() == state.max_valid - state.candidate + 1,
            forall|j: int| 0 <= j < state.answers@.len() ==> !justified@[j],
            first_justified_from(justified@, 0) == first_justified_from(
                justified@,
                state.answers@.len() as int,
            ),
        decreases state.max_valid - state.probe,
    {
        let idx: usize = (state.probe - state.candidate) as usize;
        proof {
            assert(idx == state.answers@.len());
            assert(idx < justified@.len());
        }
        let answer: bool = justified[idx];
        match state.step(answer) {
            SearchNext::Found(b) => {
                proof {
                    assert(first_justified_from(justified@, idx as int) == Some(idx as int));
                }
                return Some(b);
            },
            SearchNext::Exhausted => {
                proof {
                    assert(idx == justified@.len() - 1);
                    assert(first_justified_from(justified@, idx as int)
                        == first_justified_from(justified@, idx + 1));
                    assert(first_justified_from(justified@, idx + 1) is None);
                }
                return None;
            },
            SearchNext::Probing(s2) => {
                proof {
                    assert(first_justified_from(justified@, idx as int)
                        == first_justified_from(justified@, idx + 1));
                    assert(forall|j: int| 0 <= j < s2.answers@.len() ==> !justified@[j]);
                }
                state = s2;
            },
        }
    }
}

proof fn lemma_first_justified_props(justified: Seq<bool>, i: int, k: int)
    requires
        first_justified_from(justified, i) == Some(k),
    ensures
        i <= k < justified.len(),
        justified[k],
        forall|j: int| i <= j < k ==> !justified[j],
    decreases justified.len() - i,
{
    if 0 <= i < justified.len() && !justified[i] {
        lemma_first_justified_props(justified, i + 1, k);
    }
}

/// Law: a block the forward probe settles on lies strictly above the
/// contract's current block and never beyond the farthest reachable block.
pub proof fn lemma_search_result_in_bounds(
    ideal_interval: u32,
    tree_size: u32,
    current_block: u32,
    chain_head_block: u32,
    last_justified_block: u32,
    justified: Seq<bool>,
)
    requires
        ideal_interval > 0,
        current_block + tree_size <= u32::MAX,
        justified.len() == window_len(
            ideal_interval,
            tree_size,
            current_block,
            chain_head_block,
            last_justified_block,
        ),
        !boundary_hit(last_justified_block, current_block, tree_size),
    ensures
        spec_search(
            ideal_interval,
            tree_size,
            current_block,
            chain_head_block,
            last_justified_block,
            justified,
        ) matches Some(b) ==> current_block < b
            <= max_valid_block(tree_size, current_block, chain_head_block),
{
    let r = spec_search(
        ideal_interval,
        tree_size,
        current_block,
        chain_head_block,
        last_justified_block,
        justified,
    );
    if r is Some {
        let candidate = rounded_candidate(ideal_interval, tree_size, current_block, chain_head_block);
        let i = first_justified_from(justified, 0)->Some_0;
        lemma_first_justified_props(justified, 0, i);
    }
}

/// Law: when the probe path settles on a block, it is the smallest block at
/// or above the rounded candidate whose justification is present.
pub proof fn lemma_search_result_smallest(
    ideal_interval: u32,
    tree_size: u32,
    current_block: u32,
    chain_head_block: u32,
    last_justified_block: u32,
    justified: Seq<bool>,
)
    requires
        ideal_interval > 0,
        current_block + tree_size <= u32::MAX,
        justified.len() == window_len(
            ideal_interval,
            tree_size,
            current_block,
            chain_head_block,
            last_justified_block,
        ),
        !boundary_hit(last_justified_block, current_block, tree_size),
    ensures
        spec_search(
            ideal_interval,
            tree_size,
            current_block,
            chain_head_block,
            last_justified_block,
            justified,
        ) matches Some(b) ==> {
            let candidate = rounded_candidate(
                ideal_interval,
                tree_size,
                current_block,
                chain_head_block,
            );
            &&& justified[b - candidate]
            &&& forall|j: int| 0 <= j < b - candidate ==> !justified[j]
        },
{
    let r = spec_search(
        ideal_interval,
        tree_size,
        current_block,
        chain_head_block,
        last_justified_block,
        justified,
    );
    if r is Some {
        let candidate = rounded_candidate(ideal_interval, tree_size, current_block, chain_head_block);
        let i = first_justified_from(justified, 0)->Some_0;
        lemma_first_justified_props(justified, 0, i);
    }
}

} // verus!
