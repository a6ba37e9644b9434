use blockchain_sim::blockchain::Blockchain;
use blockchain_sim::block::meets_difficulty;
use blockchain_sim::miner::try_nonce;
use blockchain_sim::miner::join_mempool;
use blockchain_sim::miner::MiningWorker;
use blockchain_sim::miner::WorkerStatus;
use blockchain_sim::round::accept_solution;
use blockchain_sim::round::is_stale;

/// Mine one block at difficulty 1 on top of the genesis with mempool
/// ["foo", "bar"]: the hash starts with '0', the block links to the
/// genesis, and the chain of two validates.
#[test]
fn mine_one_block_at_difficulty_one() {
    let mut bc = Blockchain::new();
    bc.difficulty = 1;
    bc.mempool = vec!["foo".to_string(), "bar".to_string()];

    let mut worker = MiningWorker::new(7, &bc);
    assert!(matches!(worker.status, WorkerStatus::Searching));

    let mut mined = None;
    while mined.is_none() {
        mined = worker.step(false);
    }
    let block = mined.unwrap();
    assert!(matches!(worker.status, WorkerStatus::Found));

    assert!(block.hash.starts_with('0'));
    assert_eq!(block.index, 1);
    assert_eq!(block.data, "foo,bar");
    assert_eq!(block.previous_hash, bc.chain[0].hash);
    assert!(accept_solution(&bc.chain[0], &block, 1));

    bc.mempool.clear();
    bc.add_block(block);
    assert_eq!(bc.chain.len(), 2);
    assert!(bc.is_valid());
}

/// The mempool entries are joined with commas into one payload.
#[test]
fn mempool_joins_with_commas() {
    assert_eq!(join_mempool(&vec![]), "");
    assert_eq!(join_mempool(&vec!["foo".to_string()]), "foo");
    assert_eq!(join_mempool(&vec!["foo".to_string(), "bar".to_string()]), "foo,bar");
    assert_eq!(
        join_mempool(&vec!["a".to_string(), "".to_string(), "c".to_string()]),
        "a,,c"
    );
}

fn block_without_leading_zero(previous_hash: &str) -> blockchain_sim::block::Block {
    // Difficulty 0 accepts every nonce; walk nonces until one hashes to a
    // string that does not start with '0'.
    let mut nonce = 0u64;
    loop {
        let b = try_nonce(
            1,
            1700000000,
            "payload".to_string(),
            previous_hash.to_string(),
            0,
            nonce,
        )
        .unwrap();
        if !b.hash.starts_with('0') {
            return b;
        }
        nonce += 1;
    }
}

/// A round only accepts a block whose hash has at least `difficulty`
/// leading '0' characters: a hand-built block with fewer is rejected.
#[test]
fn block_below_difficulty_is_rejected() {
    let bc = Blockchain::new();
    let b = block_without_leading_zero(&bc.chain[0].hash);
    assert!(!meets_difficulty(&b.hash, 1));
    assert!(!accept_solution(&bc.chain[0], &b, 1));
    // The same block is fine for a difficulty-0 round.
    assert!(accept_solution(&bc.chain[0], &b, 0));
}

/// `try_nonce` keeps a candidate exactly when its hash meets the
/// difficulty.
#[test]
fn try_nonce_respects_difficulty() {
    let b = block_without_leading_zero("0");
    // The same five fields hash identically, so at difficulty 1 the very
    // same attempt must be refused.
    let refused = try_nonce(b.index, b.timestamp, b.data.clone(), b.previous_hash.clone(), 1, b.nonce);
    assert!(refused.is_none());
}

/// At difficulty 0 every attempt succeeds, whatever the clock says: the
/// empty required prefix is always matched.
#[test]
fn mine_at_difficulty_zero_always_succeeds() {
    for nonce in 0..10u64 {
        let b = blockchain_sim::miner::Miner::mine(
            1,
            "payload".to_string(),
            "0".to_string(),
            0,
            nonce,
        );
        assert!(b.is_some());
    }
}

/// A tampered hash is rejected by the acceptance check even when it shows
/// enough leading zeros.
#[test]
fn dishonest_hash_is_rejected() {
    let bc = Blockchain::new();
    let mut b = block_without_leading_zero(&bc.chain[0].hash);
    b.hash = "0".repeat(64);
    assert!(meets_difficulty(&b.hash, 1));
    assert!(!accept_solution(&bc.chain[0], &b, 1));
}

/// A result whose index is not the chain's next expected index is stale
/// and is discarded; one with the expected index is not.
#[test]
fn stale_results_are_detected_by_index() {
    let bc = Blockchain::new();
    let head = &bc.chain[0];
    let fresh = try_nonce(1, 1700000000, "p".to_string(), head.hash.clone(), 0, 1).unwrap();
    assert!(!is_stale(head, &fresh));
    let mut stale = fresh.clone();
    stale.index = 0;
    assert!(is_stale(head, &stale));
    let mut ahead = fresh.clone();
    ahead.index = 2;
    assert!(is_stale(head, &ahead));
}

/// A worker that observes cancellation stops without emitting, and never
/// emits afterwards.
#[test]
fn cancelled_worker_never_emits() {
    let mut bc = Blockchain::new();
    bc.difficulty = 0;
    bc.mempool = vec!["foo".to_string()];
    let mut worker = MiningWorker::new(1, &bc);

    let emitted = worker.step(true);
    assert!(emitted.is_none());
    assert!(matches!(worker.status, WorkerStatus::Cancelled));

    for _ in 0..100 {
        // Even without further cancellation signals, and at a difficulty
        // every nonce meets, a cancelled worker stays silent.
        assert!(worker.step(false).is_none());
        assert!(matches!(worker.status, WorkerStatus::Cancelled));
    }
}

/// `Found` is terminal: a winning worker emits once and then does nothing.
#[test]
fn found_worker_emits_only_once() {
    let mut bc = Blockchain::new();
    bc.difficulty = 0;
    let mut worker = MiningWorker::new(1, &bc);
    let first = worker.step(false);
    assert!(first.is_some());
    assert!(matches!(worker.status, WorkerStatus::Found));
    assert!(worker.step(false).is_none());
    assert!(worker.step(true).is_none());
    assert!(matches!(worker.status, WorkerStatus::Found));
}
