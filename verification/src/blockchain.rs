//! The append-only chain: an ordered sequence of blocks starting at the
//! genesis block, with full-chain validation that re-derives every hash.
use vstd::prelude::*;
use vstd::string::StringExecFns;

use crate::block::Block;
use crate::block::block_hash_ok;
use crate::block::calculate_hash;

verus! {

/// The chain, the active difficulty, and the pending payload entries for
/// the next mined block.
#[derive(Debug, Clone)]
pub struct Blockchain {
    pub chain: Vec<Block>,
    pub difficulty: u32,
    pub mempool: Vec<String>,
}

/// Block `i` of a chain is linked and honest: its `previous_hash` is the
/// hash of the block before it, and its stored hash is the hash of its own
/// fields.
pub open spec fn linked_at(chain: Seq<Block>, i: int) -> bool {
    &&& chain[i].previous_hash@ == chain[i - 1].hash@
    &&& block_hash_ok(chain[i])
}

/// Every block after the genesis is linked and honest. A chain of one
/// block (or none) is well formed.
pub open spec fn chain_wf(chain: Seq<Block>) -> bool {
    forall|i: int| 1 <= i < chain.len() ==> #[trigger] linked_at(chain, i)
}

impl Blockchain {
    /// A fresh chain holding only the genesis block, at difficulty 1 with
    /// an empty mempool.
    pub fn new() -> (bc: Blockchain)
        ensures
            bc.chain@.len() == 1,
            bc.chain@[0].index == 0,
            bc.chain@[0].data@ == "Genesis"@,
            bc.chain@[0].previous_hash@ == "0"@,
            bc.chain@[0].nonce == 0,
            block_hash_ok(bc.chain@[0]),
            chain_wf(bc.chain@),
            bc.difficulty == 1,
            bc.mempool@.len() == 0,
    {
        let genesis_block = Block::new(0, String::from_str("Genesis"), String::from_str("0"));
        Blockchain { chain: vec![genesis_block], difficulty: 1, mempool: Vec::new() }
    }

    /// Pushes a block to the end of the chain unconditionally — the caller
    /// is responsible for having validated it first — and returns the
    /// appended block's index.
    pub fn add_block(&mut self, block: Block) -> (r: u32)
        ensures
            final(self).chain@ == old(self).chain@.push(block),
            final(self).difficulty == old(self).difficulty,
            final(self).mempool == old(self).mempool,
            r == block.index,
    {
        let block_index = block.index;
        self.chain.push(block);
        block_index
    }

    /// Full-chain validation: re-derives every non-genesis block's hash
    /// and re-checks every link, returning false at the first violation.
    pub fn is_valid(&self) -> (r: bool)
        ensures
            r == chain_wf(self.chain@),
    {
        let n = self.chain.len();
        let mut i: usize = 1;
        while i < n
            invariant
                1 <= i,
                forall|j: int| 1 <= j < i ==> #[trigger] linked_at(self.chain@, j),
            decreases n - i,
        {
            let current_block = &self.chain[i];
            let previous_block = &self.chain[i - 1];

            if current_block.previous_hash != previous_block.hash {
                proof {
                    assert(!linked_at(self.chain@, i as int));
                }
                return false;
            }

            let recalculated_hash = calculate_hash(
                current_block.index,
                current_block.timestamp,
                current_block.data.as_str(),
                current_block.previous_hash.as_str(),
                current_block.nonce,
            );

            if current_block.hash != recalculated_hash {
                proof {
                    assert(!linked_at(self.chain@, i as int));
                }
                return false;
            }

            i += 1;
        }
        true
    }

    /// A copy of the whole chain, for status reporting and for freezing a
    /// round's view of it.
    pub fn snapshot(&self) -> (c: Vec<Block>)
        ensures
            c@ == self.chain@,
    {
        let mut out: Vec<Block> = Vec::new();
        let mut i: usize = 0;
        while i < self.chain.len()
            invariant
                i <= self.chain@.len(),
                out@ == self.chain@.take(i as int),
            decreases self.chain@.len() - i,
        {
            out.push(self.chain[i].duplicate());
            proof {
                assert(out@ =~= self.chain@.take(i + 1 as int));
            }
            i += 1;
        }
        proof {
            assert(out@ =~= self.chain@);
        }
        out
    }
}

/// Mutating a non-genesis block invalidates the chain whenever the change
/// breaks the block's own hash or its link to the block before it. A
/// change to `data`, `index`, `timestamp` or `nonce` that leaves the stored
/// hash unequal to the recomputed hash is such a break, as is any change to
/// `previous_hash` or to `hash` itself away from the matching value.
pub proof fn lemma_mutated_block_invalid(chain: Seq<Block>, i: int, b: Block)
    requires
        1 <= i < chain.len(),
        !block_hash_ok(b) || b.previous_hash@ != chain[i - 1].hash@,
    ensures
        !chain_wf(chain.update(i, b)),
{
    let mutated = chain.update(i, b);
    assert(mutated[i] == b);
    assert(mutated[i - 1] == chain[i - 1]);
    assert(!linked_at(mutated, i));
}

/// A well-formed chain stays well formed under append exactly when the new
/// block is linked to the old head and honest about its own hash.
pub proof fn lemma_append_keeps_validity(chain: Seq<Block>, b: Block)
    requires
        chain_wf(chain),
        chain.len() >= 1,
        b.previous_hash@ == chain.last().hash@,
        block_hash_ok(b),
    ensures
        chain_wf(chain.push(b)),
{
    let pushed = chain.push(b);
    assert forall|i: int| 1 <= i < pushed.len() implies #[trigger] linked_at(pushed, i) by {
        if i < chain.len() {
            assert(linked_at(chain, i));
            assert(pushed[i] == chain[i]);
            assert(pushed[i - 1] == chain[i - 1]);
        } else {
            assert(pushed[i] == b);
            assert(pushed[i - 1] == chain.last());
        }
    }
}

} // verus!
