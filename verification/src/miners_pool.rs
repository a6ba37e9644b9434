//! The pool of miners: membership (add, remove, reward) and the lifecycle
//! of one mining round (start the workers, signal cancellation to all of
//! them). The pool owns the miner records; the round's workers are handed
//! out to whoever runs them.
use vstd::prelude::*;

use crate::blockchain::Blockchain;
use crate::miner::Miner;
use crate::miner::MiningWorker;
use crate::miner::worker_for;

verus! {

/// The pool: its members, the next id to hand out, and how many workers of
/// the current round still hold an unsignalled cancellation handle.
pub struct MinersPool {
    pub miners: Vec<Miner>,
    pub next_id: u32,
    pub active_workers: usize,
}

/// The chain snapshot a round can start against: it has a head block, and
/// the head leaves room for a successor index.
pub open spec fn round_snapshot_ok(blockchain: Blockchain) -> bool {
    &&& blockchain.chain@.len() > 0
    &&& blockchain.chain@.last().index < u32::MAX
}

/// There is a member with this id.
pub open spec fn has_miner(miners: Seq<Miner>, id: u32) -> bool {
    exists|i: int| 0 <= i < miners.len() && #[trigger] miners[i].id == id
}

/// A reward balance one unit higher, held at the top of its range.
pub open spec fn bumped_coins(c: u32) -> u32 {
    if c < u32::MAX {
        (c + 1) as u32
    } else {
        c
    }
}

/// The `n` members created next when the first of them gets id
/// `first_id`: sequential ids, zero balances.
pub open spec fn fresh_miners(first_id: u32, n: nat) -> Seq<Miner> {
    Seq::new(n, |k: int| (Miner { id: (first_id + k) as u32, coins: 0 }))
}

impl MinersPool {
    /// Member ids are pool-unique — in fact strictly increasing along the
    /// list — and all below the next id to be handed out.
    pub open spec fn wf(self) -> bool {
        &&& forall|i: int, j: int|
            0 <= i < j < self.miners@.len() ==> #[trigger] self.miners@[i].id
                < #[trigger] self.miners@[j].id
        &&& forall|i: int|
            0 <= i < self.miners@.len() ==> 1 <= #[trigger] self.miners@[i].id < self.next_id
        &&& self.next_id >= 1
    }

    /// An empty pool with no round running.
    pub fn new() -> (p: MinersPool)
        ensures
            p.wf(),
            p.miners@.len() == 0,
            p.next_id == 1,
            p.active_workers == 0,
    {
        MinersPool { miners: Vec::new(), next_id: 1, active_workers: 0 }
    }

    /// How many miners the pool holds.
    pub fn pool_size(&self) -> (n: usize)
        ensures
            n == self.miners@.len(),
    {
        self.miners.len()
    }

    /// Appends one new member with the next pool-unique id and a zero
    /// balance, and returns the id it was given.
    pub fn add_miner(&mut self) -> (id: u32)
        requires
            old(self).wf(),
            old(self).next_id < u32::MAX,
        ensures
            final(self).wf(),
            id == old(self).next_id,
            final(self).miners@ == old(self).miners@.push((Miner { id: id, coins: 0 })),
            final(self).next_id == old(self).next_id + 1,
            final(self).active_workers == old(self).active_workers,
    {
        let id = self.next_id;
        let miner = Miner::new(id);
        self.miners.push(miner);
        self.next_id = id + 1;
        id
    }

    /// Appends `n` new members with sequential pool-unique ids and zero
    /// balances.
    pub fn add_miners(&mut self, n: u32)
        requires
            old(self).wf(),
            old(self).next_id + n <= u32::MAX,
        ensures
            final(self).wf(),
            final(self).miners@ == old(self).miners@ + fresh_miners(old(self).next_id, n as nat),
            final(self).next_id == old(self).next_id + n,
            final(self).active_workers == old(self).active_workers,
    {
        let mut added: u32 = 0;
        while added < n
            invariant
                added <= n,
                self.wf(),
                self.next_id == old(self).next_id + added,
                self.miners@ == old(self).miners@ + fresh_miners(old(self).next_id, added as nat),
                self.active_workers == old(self).active_workers,
            decreases n - added,
        {
            self.add_miner();
            added = added + 1;
            proof {
                assert(self.miners@ =~= old(self).miners@ + fresh_miners(
                    old(self).next_id,
                    added as nat,
                ));
            }
        }
        proof {
            assert(self.miners@ =~= old(self).miners@ + fresh_miners(old(self).next_id, n as nat));
        }
    }

    /// Removes the member with this id and says whether one was found;
    /// an unknown id is a no-op, not an error.
    pub fn remove_miner(&mut self, miner_id: u32) -> (found: bool)
        requires
            old(self).wf(),
        ensures
            final(self).wf(),
            final(self).next_id == old(self).next_id,
            final(self).active_workers == old(self).active_workers,
            found == has_miner(old(self).miners@, miner_id),
            !found ==> final(self).miners@ == old(self).miners@,
            found ==> exists|i: int|
                0 <= i < old(self).miners@.len() && #[trigger] old(self).miners@[i].id == miner_id
                    && final(self).miners@ == old(self).miners@.remove(i),
    {
        let n = self.miners.len();
        let mut i: usize = 0;
        while i < n
            invariant
                i <= n,
                *self == *old(self),
                n == self.miners@.len(),
                forall|k: int| 0 <= k < i ==> #[trigger] self.miners@[k].id != miner_id,
            decreases n - i,
        {
            if self.miners[i].id == miner_id {
                let ghost before = self.miners@;
                self.miners.remove(i);
                proof {
                    assert(before[i as int].id == miner_id);
                    assert(self.miners@ == before.remove(i as int));
                    assert forall|a: int, b: int|
                        0 <= a < b < self.miners@.len() implies #[trigger] self.miners@[a].id
                        < #[trigger] self.miners@[b].id by {
                        let a0 = if a < i { a } else { a + 1 };
                        let b0 = if b < i { b } else { b + 1 };
                        assert(self.miners@[a] == before[a0]);
                        assert(self.miners@[b] == before[b0]);
                        assert(before[a0].id < before[b0].id);
                    }
                }
                return true;
            }
            i += 1;
        }
        proof {
            assert(!has_miner(self.miners@, miner_id));
        }
        false
    }

    /// Credits the member with this id one reward unit; an unknown id is a
    /// no-op.
    pub fn reward(&mut self, miner_id: u32) -> (found: bool)
        requires
            old(self).wf(),
        ensures
            final(self).wf(),
            final(self).next_id == old(self).next_id,
            final(self).active_workers == old(self).active_workers,
            found == has_miner(old(self).miners@, miner_id),
            !found ==> final(self).miners@ == old(self).miners@,
            found ==> exists|i: int|
                0 <= i < old(self).miners@.len() && #[trigger] old(self).miners@[i].id == miner_id
                    && final(self).miners@ == old(self).miners@.update(
                    i,
                    (Miner { id: miner_id, coins: bumped_coins(old(self).miners@[i].coins) }),
                ),
    {
        let n = self.miners.len();
        let mut i: usize = 0;
        while i < n
            invariant
                i <= n,
                *self == *old(self),
                n == self.miners@.len(),
                forall|k: int| 0 <= k < i ==> #[trigger] self.miners@[k].id != miner_id,
            decreases n - i,
        {
            if self.miners[i].id == miner_id {
                let ghost before = self.miners@;
                let coins = self.miners[i].coins;
                let bumped = if coins < u32::MAX {
                    coins + 1
                } else {
                    coins
                };
                self.miners[i] = Miner { id: miner_id, coins: bumped };
                proof {
                    assert(before[i as int].id == miner_id);
                    assert(self.miners@ == before.update(
                        i as int,
                        (Miner { id: miner_id, coins: bumped_coins(before[i as int].coins) }),
                    ));
                    assert forall|a: int, b: int|
                        0 <= a < b < self.miners@.len() implies #[trigger] self.miners@[a].id
                        < #[trigger] self.miners@[b].id by {
                        assert(before[a].id < before[b].id);
                        assert(self.miners@[a].id == before[a].id);
                        assert(self.miners@[b].id == before[b].id);
                    }
                }
                return true;
            }
            i += 1;
        }
        proof {
            assert(!has_miner(self.miners@, miner_id));
        }
        false
    }

    /// Starts one round: one worker per current member, each against the
    /// same frozen snapshot of the chain, and records that this many
    /// workers now hold a cancellation handle. Any previous round must
    /// already have been stopped. With no miners the round is a legal
    /// no-op that can never produce a result.
    pub fn start_mining(&mut self, blockchain: Blockchain) -> (workers: Vec<MiningWorker>)
        requires
            old(self).active_workers == 0,
            round_snapshot_ok(blockchain),
        ensures
            final(self).miners == old(self).miners,
            final(self).next_id == old(self).next_id,
            final(self).active_workers == old(self).miners@.len(),
            workers@.len() == old(self).miners@.len(),
            forall|k: int|
                0 <= k < workers@.len() ==> worker_for(
                    #[trigger] workers@[k],
                    old(self).miners@[k].id,
                    blockchain,
                ),
    {
        let mut workers: Vec<MiningWorker> = Vec::new();
        let mut i: usize = 0;
        while i < self.miners.len()
            invariant
                i <= self.miners@.len(),
                workers@.len() == i,
                forall|k: int|
                    0 <= k < i ==> worker_for(
                        #[trigger] workers@[k],
                        self.miners@[k].id,
                        blockchain,
                    ),
            decreases self.miners@.len() - i,
        {
            let miner_id = self.miners[i].id;
            let worker = MiningWorker::new(miner_id, &blockchain);
            workers.push(worker);
            i += 1;
        }
        self.active_workers = self.miners.len();
        workers
    }

    /// Signals cancellation to every worker of the current round and
    /// forgets their handles. Idempotent: with no round running it is a
    /// no-op, not an error.
    pub fn stop_mining(&mut self)
        ensures
            final(self).miners == old(self).miners,
            final(self).next_id == old(self).next_id,
            final(self).active_workers == 0,
    {
        self.active_workers = 0;
    }
}

} // verus!
