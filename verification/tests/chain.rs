use blockchain_sim::block::calculate_hash;
use blockchain_sim::blockchain::Blockchain;
use blockchain_sim::hashing::u64_to_dec_string;
use blockchain_sim::miner::try_nonce;

/// A genesis-only chain is valid.
#[test]
fn genesis_chain_is_valid() {
    let bc = Blockchain::new();
    assert_eq!(bc.chain.len(), 1);
    assert_eq!(bc.chain[0].index, 0);
    assert_eq!(bc.chain[0].data, "Genesis");
    assert_eq!(bc.chain[0].previous_hash, "0");
    assert_eq!(bc.chain[0].nonce, 0);
    assert_eq!(bc.difficulty, 1);
    assert!(bc.mempool.is_empty());
    assert!(bc.is_valid());
}

/// Block hashes are 64 lowercase hex characters, as a hex-encoded SHA-256
/// digest must be.
#[test]
fn hash_is_lowercase_hex_of_length_64() {
    let bc = Blockchain::new();
    let h = &bc.chain[0].hash;
    assert_eq!(h.len(), 64);
    assert!(h.chars().all(|c| c.is_ascii_hexdigit() && !c.is_ascii_uppercase()));
    let other = calculate_hash(3, 1700000000, "abc", "00ff", 99);
    assert_eq!(other.len(), 64);
    assert!(other.chars().all(|c| c.is_ascii_hexdigit() && !c.is_ascii_uppercase()));
}

/// Identical inputs always give the identical hash.
#[test]
fn calculate_hash_is_deterministic() {
    let a = calculate_hash(1, 1700000000, "foo,bar", "0", 42);
    let b = calculate_hash(1, 1700000000, "foo,bar", "0", 42);
    assert_eq!(a, b);
}

/// Changing any one field changes the hash (no collision at test scale).
#[test]
fn calculate_hash_changes_with_each_field() {
    let base = calculate_hash(1, 1700000000, "foo,bar", "0", 42);
    assert_ne!(base, calculate_hash(2, 1700000000, "foo,bar", "0", 42));
    assert_ne!(base, calculate_hash(1, 1700000001, "foo,bar", "0", 42));
    assert_ne!(base, calculate_hash(1, 1700000000, "foo,baz", "0", 42));
    assert_ne!(base, calculate_hash(1, 1700000000, "foo,bar", "1", 42));
    assert_ne!(base, calculate_hash(1, 1700000000, "foo,bar", "0", 43));
}

/// The numbers in the hash input are printed in plain decimal.
#[test]
fn numbers_print_in_decimal() {
    assert_eq!(u64_to_dec_string(0), "0");
    assert_eq!(u64_to_dec_string(7), "7");
    assert_eq!(u64_to_dec_string(1234567890), "1234567890");
    assert_eq!(u64_to_dec_string(u64::MAX), "18446744073709551615");
}

fn two_block_chain() -> Blockchain {
    let mut bc = Blockchain::new();
    let prev_hash = bc.chain[0].hash.clone();
    // Difficulty 0 accepts every nonce, so the first attempt mines.
    let block = try_nonce(1, 1700000000, "payload".to_string(), prev_hash, 0, 5).unwrap();
    let appended_index = bc.add_block(block);
    assert_eq!(appended_index, 1);
    bc
}

/// Appending a block that links to the head and is honest about its hash
/// keeps the chain valid.
#[test]
fn appended_linked_block_keeps_chain_valid() {
    let bc = two_block_chain();
    assert_eq!(bc.chain.len(), 2);
    assert!(bc.is_valid());
}

/// Mutating any single field of a non-genesis block invalidates the chain.
#[test]
fn mutated_data_invalidates_chain() {
    let mut bc = two_block_chain();
    bc.chain[1].data = "tampered".to_string();
    assert!(!bc.is_valid());
}

#[test]
fn mutated_hash_invalidates_chain() {
    let mut bc = two_block_chain();
    bc.chain[1].hash = "deadbeef".to_string();
    assert!(!bc.is_valid());
}

#[test]
fn mutated_previous_hash_invalidates_chain() {
    let mut bc = two_block_chain();
    bc.chain[1].previous_hash = "deadbeef".to_string();
    assert!(!bc.is_valid());
}

#[test]
fn mutated_nonce_invalidates_chain() {
    let mut bc = two_block_chain();
    bc.chain[1].nonce += 1;
    assert!(!bc.is_valid());
}

#[test]
fn mutated_index_invalidates_chain() {
    let mut bc = two_block_chain();
    bc.chain[1].index = 2;
    assert!(!bc.is_valid());
}

#[test]
fn mutated_timestamp_invalidates_chain() {
    let mut bc = two_block_chain();
    bc.chain[1].timestamp += 1;
    assert!(!bc.is_valid());
}

/// `snapshot` hands back the chain as it stands, in order.
#[test]
fn snapshot_copies_the_chain() {
    let bc = two_block_chain();
    let copy = bc.snapshot();
    assert_eq!(copy.len(), 2);
    assert_eq!(copy[0].hash, bc.chain[0].hash);
    assert_eq!(copy[1].hash, bc.chain[1].hash);
    assert_eq!(copy[1].data, "payload");
}
