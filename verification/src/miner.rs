//! Miners and the mining search. A `Miner` is a pool member; a
//! `MiningWorker` is one searcher over a frozen chain snapshot, stepping
//! through nonces until one qualifies or cancellation is observed.
use vstd::prelude::*;
use vstd::string::StringExecFns;
use rand::RngExt;

use crate::block::Block;
use crate::block::block_hash_ok;
use crate::block::calculate_hash;
use crate::block::has_leading_zeros;
use crate::block::meets_difficulty;
use crate::block::now_seconds;
use crate::blockchain::Blockchain;
use crate::hashing::block_hash;

verus! {

/// One pool member: its pool-assigned id and its reward balance.
#[derive(Debug, Clone)]
pub struct Miner {
    pub id: u32,
    pub coins: u32,
}

impl Miner {
    /// A fresh miner with a zero balance.
    pub fn new(id: u32) -> (m: Miner)
        ensures
            m.id == id,
            m.coins == 0,
    {
        Miner { id, coins: 0 }
    }

    /// One attempt of the brute-force search: stamps the candidate with
    /// the current time, hashes it, and returns the block only if the hash
    /// meets the difficulty. The exact decision for a fixed timestamp is
    /// `try_nonce`; here the timestamp is whatever the clock gave.
    pub fn mine(
        index: u32,
        data: String,
        previous_hash: String,
        difficulty: u32,
        nonce: u64,
    ) -> (r: Option<Block>)
        ensures
            difficulty == 0 ==> r is Some,
            match r {
                Some(b) => {
                    &&& b.index == index
                    &&& b.data == data
                    &&& b.previous_hash == previous_hash
                    &&& b.nonce == nonce
                    &&& block_hash_ok(b)
                    &&& has_leading_zeros(b.hash@, difficulty as nat)
                },
                None => true,
            },
    {
        let timestamp = now_seconds();
        try_nonce(index, timestamp, data, previous_hash, difficulty, nonce)
    }
}

/// Whether `nonce` wins for the candidate block at a fixed timestamp: the
/// block is built, hashed, and kept exactly when its hash has at least
/// `difficulty` leading '0' characters.
pub fn try_nonce(
    index: u32,
    timestamp: u64,
    data: String,
    previous_hash: String,
    difficulty: u32,
    nonce: u64,
) -> (r: Option<Block>)
    ensures
        ({
            let h = block_hash(
                index as nat,
                timestamp as nat,
                data@,
                previous_hash@,
                nonce as nat,
            );
            match r {
                Some(b) => {
                    &&& has_leading_zeros(h, difficulty as nat)
                    &&& b.index == index
                    &&& b.timestamp == timestamp
                    &&& b.data == data
                    &&& b.previous_hash == previous_hash
                    &&& b.nonce == nonce
                    &&& b.hash@ == h
                },
                None => !has_leading_zeros(h, difficulty as nat),
            }
        }),
{
    let hash = calculate_hash(index, timestamp, data.as_str(), previous_hash.as_str(), nonce);
    if meets_difficulty(hash.as_str(), difficulty) {
        Some(Block { index, timestamp, data, previous_hash, hash, nonce })
    } else {
        None
    }
}

/// Relies on rand::rng and rand::RngExt::random: a starting nonce drawn from
/// a uniform random 64-bit distribution. Nothing is promised of the value.
#[verifier::external_body]
pub(crate) fn random_nonce() -> u64 {
    rand::rng().random()
}

/// The worker's position in its state machine. A worker enters
/// `Searching` the moment it is created over a round snapshot; `Found`
/// and `Cancelled` are terminal.
#[derive(Debug, Clone, Copy, PartialEq, Eq, Structural)]
pub enum WorkerStatus {
    Searching,
    Found,
    Cancelled,
}

/// One mining worker: the frozen round snapshot it searches against (next
/// index, head hash, joined payload, difficulty) plus its own search
/// position.
#[derive(Debug, Clone)]
pub struct MiningWorker {
    pub miner_id: u32,
    pub next_index: u32,
    pub data: String,
    pub previous_hash: String,
    pub difficulty: u32,
    pub nonce: u64,
    pub status: WorkerStatus,
}

/// The worker `w` is a fresh searcher for the miner with this id over this
/// chain snapshot: successor index and hash of the head block, joined
/// mempool payload, the snapshot's difficulty.
pub open spec fn worker_for(w: MiningWorker, miner_id: u32, blockchain: Blockchain) -> bool {
    &&& w.miner_id == miner_id
    &&& w.next_index == blockchain.chain@.last().index + 1
    &&& w.data@ == joined_with_commas(mempool_view(blockchain.mempool@))
    &&& w.previous_hash@ == blockchain.chain@.last().hash@
    &&& w.difficulty == blockchain.difficulty
    &&& w.status is Searching
}

/// Two worker states carry the same frozen round snapshot and identity.
pub open spec fn same_task(a: MiningWorker, b: MiningWorker) -> bool {
    &&& a.miner_id == b.miner_id
    &&& a.next_index == b.next_index
    &&& a.data == b.data
    &&& a.previous_hash == b.previous_hash
    &&& a.difficulty == b.difficulty
}

impl MiningWorker {
    /// Starts a worker over a frozen snapshot of the chain: the head
    /// block's successor index and hash, the joined mempool payload, and
    /// the active difficulty. The starting nonce is drawn at random so
    /// that workers do not all search the same nonces.
    pub fn new(miner_id: u32, blockchain: &Blockchain) -> (w: MiningWorker)
        requires
            blockchain.chain@.len() > 0,
            blockchain.chain@.last().index < u32::MAX,
        ensures
            w.miner_id == miner_id,
            w.next_index == blockchain.chain@.last().index + 1,
            w.data@ == joined_with_commas(mempool_view(blockchain.mempool@)),
            w.previous_hash@ == blockchain.chain@.last().hash@,
            w.difficulty == blockchain.difficulty,
            w.status is Searching,
    {
        let prev_block = &blockchain.chain[blockchain.chain.len() - 1];
        MiningWorker {
            miner_id,
            next_index: prev_block.index + 1,
            data: join_mempool(&blockchain.mempool),
            previous_hash: prev_block.hash.clone(),
            difficulty: blockchain.difficulty,
            nonce: random_nonce(),
            status: WorkerStatus::Searching,
        }
    }

    /// One iteration of the search loop. A cancellation signal observed
    /// while searching moves the worker to `Cancelled` without emitting; a
    /// winning nonce moves it to `Found` and emits the block; otherwise the
    /// nonce advances (wrapping at the end of the 64-bit space) and the
    /// search goes on. A worker already in a terminal state changes nothing
    /// and emits nothing — in particular, a cancelled worker never emits.
    pub fn step(&mut self, cancel_requested: bool) -> (r: Option<Block>)
        ensures
            same_task(*old(self), *final(self)),
            !(old(self).status is Searching) ==> *final(self) == *old(self) && r is None,
            old(self).status is Searching && !cancel_requested && old(self).difficulty == 0
                ==> r is Some,
            old(self).status is Searching && cancel_requested ==> {
                &&& final(self).status is Cancelled
                &&& final(self).nonce == old(self).nonce
                &&& r is None
            },
            old(self).status is Searching && !cancel_requested ==> match r {
                Some(b) => {
                    &&& final(self).status is Found
                    &&& final(self).nonce == old(self).nonce
                    &&& b.index == old(self).next_index
                    &&& b.data == old(self).data
                    &&& b.previous_hash == old(self).previous_hash
                    &&& b.nonce == old(self).nonce
                    &&& block_hash_ok(b)
                    &&& has_leading_zeros(b.hash@, old(self).difficulty as nat)
                },
                None => {
                    &&& final(self).status is Searching
                    &&& final(self).nonce == (if old(self).nonce == u64::MAX {
                        0u64
                    } else {
                        (old(self).nonce + 1) as u64
                    })
                },
            },
    {
        match self.status {
            WorkerStatus::Searching => {},
            _ => {
                return None;
            },
        }
        if cancel_requested {
            self.status = WorkerStatus::Cancelled;
            return None;
        }
        let attempt = Miner::mine(
            self.next_index,
            self.data.clone(),
            self.previous_hash.clone(),
            self.difficulty,
            self.nonce,
        );
        match attempt {
            Some(block) => {
                self.status = WorkerStatus::Found;
                Some(block)
            },
            None => {
                self.nonce = if self.nonce == u64::MAX {
                    0
                } else {
                    self.nonce + 1
                };
                None
            },
        }
    }
}

/// The mempool entries' characters, in order.
pub open spec fn mempool_view(mempool: Seq<String>) -> Seq<Seq<char>> {
    mempool.map_values(|s: String| s@)
}

/// The mempool entries joined with a ',' between consecutive entries, the
/// way the pending payloads are concatenated into one block payload.
pub open spec fn joined_with_commas(parts: Seq<Seq<char>>) -> Seq<char>
    decreases parts.len(),
{
    if parts.len() == 0 {
        Seq::empty()
    } else if parts.len() == 1 {
        parts[0]
    } else {
        joined_with_commas(parts.drop_last()) + seq![','] + parts.last()
    }
}

/// Concatenates the pending mempool entries with ',' separators into the
/// payload of the next mined block.
pub fn join_mempool(mempool: &Vec<String>) -> (s: String)
    ensures
        s@ == joined_with_commas(mempool_view(mempool@)),
{
    let ghost parts = mempool_view(mempool@);
    let mut s = String::new();
    let mut i: usize = 0;
    while i < mempool.len()
        invariant
            i <= mempool@.len(),
            s@ == joined_with_commas(parts.take(i as int)),
        decreases mempool@.len() - i,
    {
        proof {
            reveal_strlit(",");
        }
        if i > 0 {
            s.append(",");
        }
        s.append(mempool[i].as_str());
        proof {
            assert(parts[i as int] == mempool@[i as int]@);
            if i > 0 {
                assert(parts.take(i as int + 1).drop_last() =~= parts.take(i as int));
                assert(parts.take(i as int + 1).last() == parts[i as int]);
                assert(","@ =~= seq![',']);
                assert(s@ =~= joined_with_commas(parts.take(i as int + 1)));
            } else {
                assert(parts.take(1)[0] == parts[0]);
                assert(s@ =~= joined_with_commas(parts.take(1)));
            }
        }
        i += 1;
    }
    proof {
        assert(parts.take(mempool@.len() as int) =~= parts);
    }
    s
}

} // verus!
