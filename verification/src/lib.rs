//! A minimal peer-to-peer ledger core: proof-of-work blocks, an append-only
//! validated block chain, a generic tamper-evident hash chain, and the gossip
//! dispatch rules that keep distributed copies of the chain in sync.

use vstd::prelude::*;

pub mod blocks;
pub mod client;
pub mod digest;
pub mod hash_chain;
pub mod network;
pub mod transaction;

verus! {

/// Difficulty of the proof-of-work puzzle: the least number of leading zero
/// bytes a block's digest must show before the block counts as mined.
pub const ZERO_PREFIX_AMOUNT: usize = 2;

} // verus!
