//! Proof-of-work blocks, the mining search, and the validated append-only
//! chain of blocks.

use vstd::prelude::*;

use crate::digest::{
    bytes_eq, canon_bytes, canon_opt_u64, canon_tx, canon_u64, encode_bytes, encode_opt_u64,
    encode_u64, sha256, sha256_of, CryptoDigest,
};
use crate::transaction::Transaction;
use crate::ZERO_PREFIX_AMOUNT;

verus! {

/// One link of the ledger: the digest of the preceding block's canonical
/// encoding (empty for the first block), the recorded transaction, and an
/// optional proof-of-work nonce. A block with `pow` absent is awaiting
/// mining and is never eligible for storage.
#[derive(Debug)]
pub struct Block {
    pub prev_hash: Vec<u8>,
    pub tx: Transaction,
    pub pow: Option<u64>,
}

/// Why a block or a candidate chain was refused.
#[derive(Debug, Clone, Copy, PartialEq, Eq, Structural)]
pub enum RejectReason {
    /// The proof of work is absent or does not satisfy the difficulty predicate.
    InvalidProof,
    /// The block does not link to the digest of the current tip.
    BrokenLink,
    /// Local and remote chains disagree and neither is a scaffold of the other.
    Divergent,
}

/// The digest searched during mining: hash of the canonical encoding of
/// (previous digest, transaction, nonce), in that order.
pub open spec fn spec_pow_digest(prev: Seq<u8>, t: Transaction, nonce: u64) -> Seq<u8> {
    sha256_of(canon_bytes(prev) + canon_tx(t.from.id, t.to.id, t.amount) + canon_u64(nonce))
}

/// The difficulty predicate: the digest starts with `ZERO_PREFIX_AMOUNT`
/// zero bytes (or is all zero, if shorter than that).
pub open spec fn spec_has_pow_prefix(s: Seq<u8>) -> bool {
    ||| (s.len() >= ZERO_PREFIX_AMOUNT
        && forall|i: int| 0 <= i < ZERO_PREFIX_AMOUNT ==> s[i] == 0)
    ||| (s.len() < ZERO_PREFIX_AMOUNT && forall|i: int| 0 <= i < s.len() ==> s[i] == 0)
}

/// The nonce solves the proof-of-work puzzle for this previous digest and
/// transaction.
pub open spec fn spec_pow_ok(prev: Seq<u8>, t: Transaction, nonce: u64) -> bool {
    spec_has_pow_prefix(spec_pow_digest(prev, t, nonce))
}

/// The block carries a proof and the proof satisfies the puzzle.
pub open spec fn spec_pow_valid(b: Block) -> bool {
    b.pow matches Some(nonce) && spec_pow_ok(b.prev_hash@, b.tx, nonce)
}

/// Two blocks hold the same contents.
pub open spec fn spec_block_eq(x: Block, y: Block) -> bool {
    x.prev_hash@ == y.prev_hash@ && x.tx == y.tx && x.pow == y.pow
}

/// Digest of a block's full canonical encoding: the value the next block
/// records as `prev_hash`.
pub open spec fn spec_block_digest(b: Block) -> Seq<u8> {
    sha256_of(b.canon())
}

impl CryptoDigest for Block {
    open spec fn canon(&self) -> Seq<u8> {
        canon_bytes(self.prev_hash@) + canon_tx(self.tx.from.id, self.tx.to.id, self.tx.amount)
            + canon_opt_u64(self.pow)
    }

    fn encode(&self) -> (r: Vec<u8>) {
        let mut buf = encode_bytes(self.prev_hash.as_slice());
        let mut t = self.tx.encode();
        buf.append(&mut t);
        let mut p = encode_opt_u64(self.pow);
        buf.append(&mut p);
        buf
    }
}

impl Clone for Block {
    fn clone(&self) -> (res: Block)
        ensures
            spec_block_eq(*self, res),
    {
        let prev_hash = self.prev_hash.clone();
        proof {
            assert(prev_hash@ =~= self.prev_hash@);
        }
        Block { prev_hash, tx: self.tx, pow: self.pow }
    }
}

impl Block {
    pub fn new(prev_hash: Option<&[u8]>, tx: Transaction) -> (b: Block)
        ensures
            b.prev_hash@ == (match prev_hash {
                Some(p) => p@,
                None => Seq::<u8>::empty(),
            }),
            b.tx == tx,
            b.pow is None,
    {
        let hash: Vec<u8> = match prev_hash {
            Some(p) => vstd::slice::slice_to_vec(p),
            None => Vec::new(),
        };
        proof {
            assert(hash@ =~= (match prev_hash {
                Some(p) => p@,
                None => Seq::<u8>::empty(),
            }));
        }
        Block { prev_hash: hash, tx, pow: None }
    }

    /// Digest of this block's canonical encoding.
    pub fn digest(&self) -> (r: Vec<u8>)
        ensures
            r@ == spec_block_digest(*self),
    {
        let e = self.encode();
        sha256(e.as_slice())
    }

    /// Count leading zero bytes, stopping at the difficulty bound: `Ok` when
    /// the bound is reached (or the input ran out first, all zero), `Err`
    /// with the count when a nonzero byte appears before the bound.
    pub fn pref_zeros(hashed: &[u8]) -> (r: Result<usize, usize>)
        ensures
            r matches Ok(n) ==> {
                &&& n <= ZERO_PREFIX_AMOUNT
                &&& n <= hashed@.len()
                &&& forall|j: int| 0 <= j < n ==> hashed@[j] == 0
                &&& (n == ZERO_PREFIX_AMOUNT || n == hashed@.len())
            },
            r matches Err(n) ==> {
                &&& n < ZERO_PREFIX_AMOUNT
                &&& n < hashed@.len()
                &&& forall|j: int| 0 <= j < n ==> hashed@[j] == 0
                &&& hashed@[n as int] != 0
            },
            (r is Ok) == spec_has_pow_prefix(hashed@),
    {
        let len = hashed.len();
        let mut n: usize = 0;
        while n < ZERO_PREFIX_AMOUNT && n < len
            invariant
                n <= ZERO_PREFIX_AMOUNT,
                n <= len,
                len == hashed@.len(),
                forall|j: int| 0 <= j < n ==> hashed@[j] == 0,
            decreases len - n,
        {
            if hashed[n] != 0 {
                return Err(n);
            }
            n = n + 1;
        }
        Ok(n)
    }

    /// One attempt of the proof-of-work search: does this nonce solve the
    /// puzzle for this block's previous digest and transaction?
    pub fn try_nonce(&self, nonce: u64) -> (ok: bool)
        ensures
            ok == spec_pow_ok(self.prev_hash@, self.tx, nonce),
    {
        let digest = Self::pow_digest(&self.prev_hash, &self.tx, nonce);
        Block::pref_zeros(digest.as_slice()).is_ok()
    }

    /// The digest tried during mining for one candidate nonce.
    fn pow_digest(prev: &Vec<u8>, t: &Transaction, nonce: u64) -> (r: Vec<u8>)
        ensures
            r@ == spec_pow_digest(prev@, *t, nonce),
    {
        let mut buf = encode_bytes(prev.as_slice());
        let mut tbytes = t.encode();
        buf.append(&mut tbytes);
        let mut nbytes = encode_u64(nonce);
        buf.append(&mut nbytes);
        sha256(buf.as_slice())
    }

    /// Search the nonce space from 0 upward for a proof of work. Returns the
    /// first solving nonce, or `None` after exhausting the whole space.
    pub fn calc_pow(&self) -> (r: Option<u64>)
        ensures
            r matches Some(nonce) ==> spec_pow_ok(self.prev_hash@, self.tx, nonce),
            r is None ==> forall|nonce: u64| !spec_pow_ok(self.prev_hash@, self.tx, nonce),
    {
        let mut i: u64 = 0;
        while i < u64::MAX
            invariant
                forall|m: u64| m < i ==> !spec_pow_ok(self.prev_hash@, self.tx, m),
            decreases u64::MAX - i,
        {
            if self.try_nonce(i) {
                return Some(i);
            }
            i = i + 1;
        }
        if self.try_nonce(u64::MAX) {
            Some(u64::MAX)
        } else {
            None
        }
    }

    /// Mine this block in place: attach the first solving nonce, or leave
    /// the proof absent if the whole nonce space fails.
    pub fn calc_set_pow(&mut self)
        ensures
            final(self).prev_hash@ == old(self).prev_hash@,
            final(self).tx == old(self).tx,
            final(self).pow is Some ==> spec_pow_valid(*final(self)),
            final(self).pow is None ==> forall|nonce: u64|
                !spec_pow_ok(old(self).prev_hash@, old(self).tx, nonce),
    {
        let nonce = self.calc_pow();
        self.pow = nonce;
    }

    /// Recompute the mining digest and re-check the difficulty predicate:
    /// true exactly when a proof is present and solves the puzzle.
    pub fn verify_pow(&self) -> (r: bool)
        ensures
            r == spec_pow_valid(*self),
    {
        match self.pow {
            Some(nonce) => self.try_nonce(nonce),
            None => false,
        }
    }
}

/// The ordered, validated sequence of blocks: index 0 is genesis, and every
/// stored block carried a verified proof at the moment of storage.
#[derive(Debug)]
pub struct BlockChain {
    pub blocks: Vec<Block>,
}

/// Two sequences of blocks hold the same contents, position by position.
pub open spec fn spec_chain_eq(a: Seq<Block>, b: Seq<Block>) -> bool {
    a.len() == b.len() && forall|i: int| 0 <= i < a.len() ==> spec_block_eq(a[i], b[i])
}

/// What `store` does: reject an invalid proof, reject a broken link to the
/// tip, otherwise append.
pub open spec fn spec_store_outcome(
    pre: BlockChain,
    post: BlockChain,
    b: Block,
    r: Result<(), RejectReason>,
) -> bool {
    if !spec_pow_valid(b) {
        r == Err::<(), RejectReason>(RejectReason::InvalidProof) && post == pre
    } else if b.prev_hash@ != pre.spec_tip_digest() {
        r == Err::<(), RejectReason>(RejectReason::BrokenLink) && post == pre
    } else {
        r == Ok::<(), RejectReason>(()) && post.blocks@ == pre.blocks@.push(b)
    }
}

/// What `replace` does: adopt the candidate over an empty or entirely
/// unmined local chain, accept an equal chain as a no-op, refuse the rest.
pub open spec fn spec_replace_outcome(
    pre: BlockChain,
    post: BlockChain,
    cand: BlockChain,
    r: Result<(), RejectReason>,
) -> bool {
    if pre.blocks@.len() == 0 || pre.spec_all_unmined() {
        r == Ok::<(), RejectReason>(()) && post.blocks == cand.blocks
    } else if spec_chain_eq(pre.blocks@, cand.blocks@) {
        r == Ok::<(), RejectReason>(()) && post == pre
    } else {
        r == Err::<(), RejectReason>(RejectReason::Divergent) && post == pre
    }
}

impl Clone for BlockChain {
    fn clone(&self) -> (res: BlockChain)
        ensures
            spec_chain_eq(self.blocks@, res.blocks@),
    {
        let blocks = self.blocks.clone();
        proof {
            assert forall|i: int| 0 <= i < blocks@.len() implies spec_block_eq(
                self.blocks@[i],
                blocks@[i],
            ) by {
                assert(cloned::<Block>(self.blocks@[i], blocks@[i]));
            }
        }
        BlockChain { blocks }
    }
}

impl BlockChain {
    /// Digest the next block must link to: the digest of the last block's
    /// canonical encoding, or empty for an empty chain.
    pub open spec fn spec_tip_digest(self) -> Seq<u8> {
        if self.blocks@.len() == 0 {
            Seq::<u8>::empty()
        } else {
            spec_block_digest(self.blocks@.last())
        }
    }

    /// Every block of the chain is still awaiting mining.
    pub open spec fn spec_all_unmined(self) -> bool {
        forall|i: int| 0 <= i < self.blocks@.len() ==> (#[trigger] self.blocks@[i]).pow is None
    }

    /// The structural invariant: every block's proof is valid, and every
    /// block links to the digest of its predecessor (empty for genesis).
    pub open spec fn wf(self) -> bool {
        forall|i: int|
            0 <= i < self.blocks@.len() ==> {
                &&& spec_pow_valid(#[trigger] self.blocks@[i])
                &&& self.blocks@[i].prev_hash@ == (if i == 0 {
                    Seq::<u8>::empty()
                } else {
                    spec_block_digest(self.blocks@[i - 1])
                })
            }
    }

    pub fn new(blocks: Vec<Block>) -> (c: BlockChain)
        ensures
            c.blocks == blocks,
    {
        BlockChain { blocks }
    }

    /// The digest of the current tip, recomputed; empty for an empty chain.
    pub fn tip_digest(&self) -> (r: Vec<u8>)
        ensures
            r@ == self.spec_tip_digest(),
    {
        match self.blocks.as_slice().last() {
            Some(b) => b.digest(),
            None => Vec::new(),
        }
    }

    /// Build a candidate block on the current tip, with the proof absent.
    pub fn new_block(&self, tx: Transaction) -> (b: Block)
        ensures
            b.prev_hash@ == self.spec_tip_digest(),
            b.tx == tx,
            b.pow is None,
    {
        match self.blocks.as_slice().last() {
            Some(prev) => {
                let d = prev.digest();
                Block::new(Some(d.as_slice()), tx)
            },
            None => Block::new(None, tx),
        }
    }

    /// Every block of the chain is still awaiting mining.
    pub fn all_unmined(&self) -> (r: bool)
        ensures
            r == self.spec_all_unmined(),
    {
        let mut i: usize = 0;
        while i < self.blocks.len()
            invariant
                i <= self.blocks@.len(),
                forall|j: int| 0 <= j < i ==> (#[trigger] self.blocks@[j]).pow is None,
            decreases self.blocks@.len() - i,
        {
            if self.blocks[i].pow.is_some() {
                return false;
            }
            i = i + 1;
        }
        true
    }

    /// The chains hold the same blocks, position by position.
    pub fn chain_eq(&self, other: &BlockChain) -> (r: bool)
        ensures
            r == spec_chain_eq(self.blocks@, other.blocks@),
    {
        if self.blocks.len() != other.blocks.len() {
            return false;
        }
        let mut i: usize = 0;
        while i < self.blocks.len()
            invariant
                self.blocks@.len() == other.blocks@.len(),
                i <= self.blocks@.len(),
                forall|j: int| 0 <= j < i ==> spec_block_eq(self.blocks@[j], other.blocks@[j]),
            decreases self.blocks@.len() - i,
        {
            if !block_eq(&self.blocks[i], &other.blocks[i]) {
                return false;
            }
            i = i + 1;
        }
        true
    }

    /// Gatekeeper of the chain: verify the proof of work, verify the link
    /// to the tip, and only then append.
    pub fn store(&mut self, block: Block) -> (r: Result<(), RejectReason>)
        ensures
            spec_store_outcome(*old(self), *final(self), block, r),
    {
        if !block.verify_pow() {
            return Err(RejectReason::InvalidProof);
        }
        let tip = self.tip_digest();
        let linked = bytes_eq(block.prev_hash.as_slice(), tip.as_slice());
        if !linked {
            return Err(RejectReason::BrokenLink);
        }
        self.blocks.push(block);
        Ok(())
    }

    /// Adopt a full remote chain during initial block download: succeeds on
    /// an empty or entirely unmined local chain, is a no-op on an equal
    /// chain, and otherwise fails with Divergent.
    pub fn replace(&mut self, candidate: BlockChain) -> (r: Result<(), RejectReason>)
        ensures
            spec_replace_outcome(*old(self), *final(self), candidate, r),
    {
        if self.blocks.len() == 0 || self.all_unmined() {
            self.blocks = candidate.blocks;
            return Ok(());
        }
        if self.chain_eq(&candidate) {
            Ok(())
        } else {
            Err(RejectReason::Divergent)
        }
    }
}

/// The blocks hold the same contents.
pub fn block_eq(a: &Block, b: &Block) -> (r: bool)
    ensures
        r == spec_block_eq(*a, *b),
{
    let hash_ok = bytes_eq(a.prev_hash.as_slice(), b.prev_hash.as_slice());
    let tx_ok = a.tx == b.tx;
    let pow_ok = match (a.pow, b.pow) {
        (Some(x), Some(y)) => x == y,
        (None, None) => true,
        _ => false,
    };
    hash_ok && tx_ok && pow_ok
}

/// Law: the miner and the verifier agree. A block whose proof came out of
/// the mining search satisfies proof verification.
pub proof fn lemma_pow_round_trip(b: Block, nonce: u64)
    requires
        b.pow == Some(nonce),
        spec_pow_ok(b.prev_hash@, b.tx, nonce),
    ensures
        spec_pow_valid(b),
{
}

/// Law: no false positives. If the mining digest of a nonce lacks the
/// required zero prefix, proof verification rejects that nonce.
pub proof fn lemma_pow_no_false_positive(b: Block, nonce: u64)
    requires
        b.pow == Some(nonce),
        !spec_has_pow_prefix(spec_pow_digest(b.prev_hash@, b.tx, nonce)),
    ensures
        !spec_pow_valid(b),
{
}

/// Law: a block whose proof is absent is always rejected by `store` with
/// InvalidProof, and the chain is left unchanged.
pub proof fn lemma_store_unmined_rejected(
    pre: BlockChain,
    post: BlockChain,
    b: Block,
    r: Result<(), RejectReason>,
)
    requires
        spec_store_outcome(pre, post, b, r),
        b.pow is None,
    ensures
        r == Err::<(), RejectReason>(RejectReason::InvalidProof),
        post == pre,
{
}

/// Law: `store` preserves the chain invariant. A chain whose blocks are all
/// proved and linked stays that way through any store outcome.
pub proof fn lemma_store_preserves_wf(
    pre: BlockChain,
    post: BlockChain,
    b: Block,
    r: Result<(), RejectReason>,
)
    requires
        spec_store_outcome(pre, post, b, r),
        pre.wf(),
    ensures
        post.wf(),
{
    if spec_pow_valid(b) && b.prev_hash@ == pre.spec_tip_digest() {
        assert forall|i: int| 0 <= i < post.blocks@.len() implies {
            &&& spec_pow_valid(#[trigger] post.blocks@[i])
            &&& post.blocks@[i].prev_hash@ == (if i == 0 {
                Seq::<u8>::empty()
            } else {
                spec_block_digest(post.blocks@[i - 1])
            })
        } by {
            if i < pre.blocks@.len() {
                assert(post.blocks@[i] == pre.blocks@[i]);
            } else {
                assert(post.blocks@[i] == b);
            }
        }
    }
}

} // verus!
