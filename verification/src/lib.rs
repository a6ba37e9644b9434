//! A single-process proof-of-work blockchain: an append-only chain of
//! hash-linked blocks, a pool of miners that race to find a nonce whose
//! block hash meets a difficulty target, and the round-coordination rules
//! (acceptance, staleness, cancellation) that keep the chain linear.
#![verifier::loop_isolation(false)]

pub mod block;
pub mod blockchain;
pub mod hashing;
pub mod miner;
pub mod miners_pool;
pub mod round;

