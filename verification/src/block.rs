//! One chain entry: an immutable record of index, timestamp, payload,
//! link to the previous block, nonce, and its own content hash.
use vstd::prelude::*;
use vstd::string::StrSliceExecFns;
use vstd::string::StringExecFns;

use crate::hashing::block_hash;
use crate::hashing::hash_input;
use crate::hashing::hex_encode;
use crate::hashing::is_hex_char;
use crate::hashing::lemma_hex_of_chars;
use crate::hashing::sha256_digest;
use crate::hashing::u64_to_dec_string;

verus! {

/// One block of the chain. `hash` is the hex SHA-256 over the other five
/// fields; `previous_hash` links it to the block before it.
#[derive(Debug, Clone)]
pub struct Block {
    pub index: u32,
    pub timestamp: u64,
    pub data: String,
    pub previous_hash: String,
    pub hash: String,
    pub nonce: u64,
}

/// The block's stored hash really is the hash of its own five fields.
pub open spec fn block_hash_ok(b: Block) -> bool {
    b.hash@ == block_hash(
        b.index as nat,
        b.timestamp as nat,
        b.data@,
        b.previous_hash@,
        b.nonce as nat,
    )
}

/// Relies on chrono's conversion from std::time::SystemTime and on
/// chrono::DateTime::timestamp: the current wall-clock time, in seconds
/// since the epoch, cast to u64. Nothing is promised of the value. The
/// conversion is used instead of chrono::Utc::now, which panics when the
/// system clock stands before the epoch.
#[verifier::external_body]
pub(crate) fn now_seconds() -> u64 {
    chrono::DateTime::<chrono::Utc>::from(std::time::SystemTime::now()).timestamp() as u64
}

/// The block hash of the five fields: the numbers printed in decimal and
/// the two strings, concatenated in order with no separator, SHA-256
/// digested and hex encoded.
pub fn calculate_hash(
    index: u32,
    timestamp: u64,
    data: &str,
    previous_hash: &str,
    nonce: u64,
) -> (r: String)
    ensures
        r@ == block_hash(index as nat, timestamp as nat, data@, previous_hash@, nonce as nat),
        r@.len() == 64,
        forall|i: int| 0 <= i < r@.len() ==> is_hex_char(#[trigger] r@[i]),
{
    let mut input = u64_to_dec_string(index as u64);
    let ts = u64_to_dec_string(timestamp);
    input.append(ts.as_str());
    input.append(data);
    input.append(previous_hash);
    let non = u64_to_dec_string(nonce);
    input.append(non.as_str());
    proof {
        assert(input@ =~= hash_input(
            index as nat,
            timestamp as nat,
            data@,
            previous_hash@,
            nonce as nat,
        ));
    }
    let digest = sha256_digest(input.as_str());
    proof {
        lemma_hex_of_chars(digest@);
    }
    hex_encode(&digest)
}

/// The hash has at least `d` leading '0' characters.
pub open spec fn has_leading_zeros(h: Seq<char>, d: nat) -> bool {
    &&& d <= h.len()
    &&& forall|i: int| 0 <= i < d ==> h[i] == '0'
}

/// Whether a hash string meets a difficulty target: at least `difficulty`
/// leading '0' characters.
pub fn meets_difficulty(hash: &str, difficulty: u32) -> (r: bool)
    ensures
        r == has_leading_zeros(hash@, difficulty as nat),
{
    let len = hash.unicode_len();
    if difficulty as usize > len {
        return false;
    }
    let mut i: usize = 0;
    while i < difficulty as usize
        invariant
            i <= difficulty,
            forall|j: int| 0 <= j < i ==> hash@[j] == '0',
        decreases difficulty - i,
    {
        if hash.get_char(i) != '0' {
            return false;
        }
        i += 1;
    }
    true
}

impl Block {
    /// Builds a block stamped with the current time and nonce 0, its hash
    /// computed over its fields. Used for the genesis block; mined blocks
    /// come out of the mining search with an already-qualifying nonce.
    pub fn new(index: u32, data: String, previous_hash: String) -> (b: Block)
        ensures
            b.index == index,
            b.data == data,
            b.previous_hash == previous_hash,
            b.nonce == 0,
            block_hash_ok(b),
    {
        let timestamp = now_seconds();
        let nonce: u64 = 0;
        let hash = calculate_hash(index, timestamp, data.as_str(), previous_hash.as_str(), nonce);
        Block { index, timestamp, data, previous_hash, hash, nonce }
    }

    /// A field-for-field copy of the block.
    pub fn duplicate(&self) -> (b: Block)
        ensures
            b == *self,
    {
        Block {
            index: self.index,
            timestamp: self.timestamp,
            data: self.data.clone(),
            previous_hash: self.previous_hash.clone(),
            hash: self.hash.clone(),
            nonce: self.nonce,
        }
    }
}

} // verus!
