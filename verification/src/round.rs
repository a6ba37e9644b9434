//! One mining round, seen from the coordinator: which incoming solution is
//! stale, which is accepted, and why an accepted solution keeps the chain
//! valid when appended.
use vstd::prelude::*;
use vstd::string::StringExecFns;

use crate::block::Block;
use crate::block::block_hash_ok;
use crate::block::calculate_hash;
use crate::block::has_leading_zeros;
use crate::block::meets_difficulty;
use crate::blockchain::chain_wf;
use crate::blockchain::lemma_append_keeps_validity;
use crate::hashing::block_hash;

verus! {

/// The round's acceptance rule for a candidate next block, re-derived from
/// scratch: it must carry the next index, link to the head block's hash,
/// be honest about its own hash, and meet the round's difficulty.
pub open spec fn solution_accepted(head: Block, b: Block, difficulty: nat) -> bool {
    &&& b.index == head.index + 1
    &&& b.previous_hash@ == head.hash@
    &&& block_hash_ok(b)
    &&& has_leading_zeros(b.hash@, difficulty)
}

/// A result is stale when its index is not the successor of the chain
/// head's index: it was mined for a position already filled (or never
/// reachable). Stale results are discarded silently, by design.
pub fn is_stale(head: &Block, candidate: &Block) -> (r: bool)
    ensures
        r == (candidate.index != head.index + 1),
{
    head.index == u32::MAX || candidate.index != head.index + 1
}

/// The round's acceptance check: recomputes the candidate's hash with
/// `calculate_hash` and checks index, link and difficulty, as the chain
/// validation does.
pub fn accept_solution(head: &Block, candidate: &Block, difficulty: u32) -> (r: bool)
    ensures
        r == solution_accepted(*head, *candidate, difficulty as nat),
{
    if head.index == u32::MAX || candidate.index != head.index + 1 {
        return false;
    }
    if candidate.previous_hash != head.hash {
        return false;
    }
    let recalculated = calculate_hash(
        candidate.index,
        candidate.timestamp,
        candidate.data.as_str(),
        candidate.previous_hash.as_str(),
        candidate.nonce,
    );
    if candidate.hash != recalculated {
        return false;
    }
    meets_difficulty(candidate.hash.as_str(), difficulty)
}

/// A round at difficulty `d` accepts only a block whose hash has at least
/// `d` leading '0' characters; one with fewer is rejected.
pub proof fn lemma_accepted_meets_difficulty(head: Block, b: Block, difficulty: nat)
    ensures
        solution_accepted(head, b, difficulty) ==> has_leading_zeros(b.hash@, difficulty),
        !has_leading_zeros(b.hash@, difficulty) ==> !solution_accepted(head, b, difficulty),
{
}

/// Appending an accepted solution to a well-formed chain leaves the chain
/// well formed: acceptance re-checks exactly what full-chain validation
/// will re-derive later.
pub proof fn lemma_accepted_append_valid(chain: Seq<Block>, b: Block, difficulty: nat)
    requires
        chain_wf(chain),
        chain.len() >= 1,
        solution_accepted(chain.last(), b, difficulty),
    ensures
        chain_wf(chain.push(b)),
{
    lemma_append_keeps_validity(chain, b);
}

/// The block hash is deterministic: equal fields give the equal hash, in
/// any two computations.
pub proof fn lemma_hash_deterministic(
    index1: nat,
    timestamp1: nat,
    data1: Seq<char>,
    previous_hash1: Seq<char>,
    nonce1: nat,
    index2: nat,
    timestamp2: nat,
    data2: Seq<char>,
    previous_hash2: Seq<char>,
    nonce2: nat,
)
    requires
        index1 == index2,
        timestamp1 == timestamp2,
        data1 == data2,
        previous_hash1 == previous_hash2,
        nonce1 == nonce2,
    ensures
        block_hash(index1, timestamp1, data1, previous_hash1, nonce1) == block_hash(
            index2,
            timestamp2,
            data2,
            previous_hash2,
            nonce2,
        ),
{
}

} // verus!
