//! A generic ordered, tamper-evident sequence of (digest, value) pairs:
//! append-only by default, with a mid-sequence insert that restores the
//! structural invariant by rehashing every later entry.

use vstd::prelude::*;

use crate::digest::{bytes_eq, canon_bytes, encode_bytes, sha256, sha256_of, CryptoDigest};

verus! {

/// A hash chain operation referenced a digest that is not in the chain.
#[derive(Debug, Clone, Copy, PartialEq, Eq, Structural)]
pub enum ChainError {
    NotFound,
}

/// The digest an entry must store: hash of the canonical encoding of the
/// predecessor's digest followed by the entry's own canonical encoding.
pub open spec fn spec_link_digest(prev: Seq<u8>, value_canon: Seq<u8>) -> Seq<u8> {
    sha256_of(canon_bytes(prev) + value_canon)
}

/// An ordered sequence of (digest, value) pairs, where each digest links an
/// entry to its predecessor.
#[derive(Debug)]
pub struct HashChain<T> {
    data: Vec<(Vec<u8>, T)>,
}

impl<T: CryptoDigest> HashChain<T> {
    /// How many entries the chain holds.
    pub closed spec fn spec_len(self) -> nat {
        self.data@.len()
    }

    /// The stored digest of the entry at position `i`.
    pub closed spec fn digest_at(self, i: int) -> Seq<u8> {
        self.data@[i].0@
    }

    /// The stored value of the entry at position `i`.
    pub closed spec fn value_at(self, i: int) -> T {
        self.data@[i].1
    }

    /// The digest the entry at position `i` must link to: its predecessor's
    /// digest, or empty for the first entry.
    pub open spec fn prev_digest_at(self, i: int) -> Seq<u8> {
        if i == 0 {
            Seq::<u8>::empty()
        } else {
            self.digest_at(i - 1)
        }
    }

    /// The entry at position `i` stores exactly the digest the structural
    /// invariant demands of it.
    pub open spec fn entry_ok(self, i: int) -> bool {
        self.digest_at(i) == spec_link_digest(self.prev_digest_at(i), self.value_at(i).canon())
    }

    /// The first `n` entries all satisfy the structural invariant.
    pub open spec fn wf_upto(self, n: int) -> bool {
        forall|i: int| 0 <= i < n ==> #[trigger] self.entry_ok(i)
    }

    /// The whole chain satisfies the structural invariant.
    pub open spec fn wf(self) -> bool {
        self.wf_upto(self.spec_len() as int)
    }

    /// The digest of the last entry, or empty for an empty chain.
    pub open spec fn spec_last_digest(self) -> Seq<u8> {
        if self.spec_len() == 0 {
            Seq::<u8>::empty()
        } else {
            self.digest_at(self.spec_len() - 1)
        }
    }

    /// Some entry stores this digest.
    pub open spec fn contains_digest(self, d: Seq<u8>) -> bool {
        exists|i: int| 0 <= i < self.spec_len() && #[trigger] self.digest_at(i) == d
    }
}

/// Position `p` holds the first entry of `c` whose digest is `d`.
pub open spec fn spec_found_at<T: CryptoDigest>(c: HashChain<T>, d: Seq<u8>, p: int) -> bool {
    &&& 0 <= p < c.spec_len()
    &&& c.digest_at(p) == d
    &&& forall|j: int| 0 <= j < p ==> #[trigger] c.digest_at(j) != d
}

/// What `push` does: one entry is added at the end, linked to the previous
/// last digest; everything before it is untouched.
pub open spec fn spec_push_outcome<T: CryptoDigest>(
    pre: HashChain<T>,
    post: HashChain<T>,
    v: T,
) -> bool {
    &&& post.spec_len() == pre.spec_len() + 1
    &&& forall|i: int| 0 <= i < pre.spec_len() ==> #[trigger] post.digest_at(i) == pre.digest_at(i)
    &&& forall|i: int| 0 <= i < pre.spec_len() ==> #[trigger] post.value_at(i) == pre.value_at(i)
    &&& post.value_at(pre.spec_len() as int) == v
    &&& post.digest_at(pre.spec_len() as int) == spec_link_digest(
        pre.spec_last_digest(),
        v.canon(),
    )
}

/// What rehashing from position `p` does: lengths and values are untouched,
/// digests up to and including `p` are untouched, and every entry after `p`
/// satisfies the structural invariant again.
pub open spec fn spec_rehash_outcome<T: CryptoDigest>(
    pre: HashChain<T>,
    post: HashChain<T>,
    p: int,
) -> bool {
    &&& post.spec_len() == pre.spec_len()
    &&& forall|i: int| 0 <= i < pre.spec_len() ==> #[trigger] post.value_at(i) == pre.value_at(i)
    &&& forall|i: int| 0 <= i <= p ==> #[trigger] post.digest_at(i) == pre.digest_at(i)
    &&& forall|i: int| p < i < post.spec_len() ==> #[trigger] post.entry_ok(i)
}

/// What `insert` after position `p` does: the prefix through `p` is
/// untouched, the new value sits at `p + 1`, the old suffix follows it, and
/// every entry after `p` satisfies the structural invariant again.
pub open spec fn spec_insert_outcome<T: CryptoDigest>(
    pre: HashChain<T>,
    post: HashChain<T>,
    v: T,
    p: int,
) -> bool {
    &&& post.spec_len() == pre.spec_len() + 1
    &&& forall|i: int| 0 <= i <= p ==> #[trigger] post.digest_at(i) == pre.digest_at(i)
    &&& forall|i: int| 0 <= i <= p ==> #[trigger] post.value_at(i) == pre.value_at(i)
    &&& post.value_at(p + 1) == v
    &&& forall|i: int| p + 2 <= i < post.spec_len() ==> #[trigger] post.value_at(i) == pre.value_at(i - 1)
    &&& forall|i: int| p + 1 <= i < post.spec_len() ==> #[trigger] post.entry_ok(i)
}

impl<T: CryptoDigest> Default for HashChain<T> {
    /// The empty chain.
    fn default() -> (c: Self)
        ensures
            c.spec_len() == 0,
    {
        HashChain { data: Vec::new() }
    }
}

impl<T: CryptoDigest> HashChain<T> {
    /// Build a chain by appending each value in order.
    pub fn new(data: Vec<T>) -> (c: Self)
        ensures
            c.spec_len() == data@.len(),
            forall|i: int| 0 <= i < data@.len() ==> #[trigger] c.value_at(i) == data@[i],
            c.wf(),
    {
        let mut this: HashChain<T> = HashChain { data: Vec::new() };
        let mut src = data;
        while src.len() > 0
            invariant
                this.spec_len() + src@.len() == data@.len(),
                forall|i: int|
                    0 <= i < this.spec_len() ==> #[trigger] this.value_at(i) == data@[i],
                forall|i: int|
                    0 <= i < src@.len() ==> #[trigger] src@[i] == data@[this.spec_len() + i],
                this.wf(),
            decreases src@.len(),
        {
            let ghost pre = this;
            let x = src.remove(0);
            this.push(x);
            proof {
                lemma_push_preserves_wf(pre, this, x);
            }
        }
        this
    }

    /// Append a value, linked to the digest of the current last entry.
    pub fn push(&mut self, data: T)
        ensures
            spec_push_outcome(*old(self), *final(self), data),
    {
        let prev_hash: Vec<u8> = match self.data.as_slice().last() {
            Some(p) => {
                let h = p.0.clone();
                proof {
                    assert(h@ =~= p.0@);
                }
                h
            },
            None => Vec::new(),
        };
        let h = Self::hash_item((prev_hash.as_slice(), &data));
        self.data.push((h, data));
    }

    /// Insert a value immediately after the entry whose digest equals
    /// `base_hash` (the first such entry), then rehash everything after the
    /// insertion point so the structural invariant is restored. Fails with
    /// NotFound, changing nothing, when no entry stores that digest.
    pub fn insert(&mut self, data: T, base_hash: &[u8]) -> (r: Result<(), ChainError>)
        ensures
            (r is Ok) == old(self).contains_digest(base_hash@),
            r is Err ==> *final(self) == *old(self) && r == Err::<(), ChainError>(
                ChainError::NotFound,
            ),
            r is Ok ==> exists|p: int|
                #![auto]
                spec_found_at(*old(self), base_hash@, p) && spec_insert_outcome(
                    *old(self),
                    *final(self),
                    data,
                    p,
                ),
    {
        let pos = match self.position(base_hash) {
            Some(p) => p,
            None => {
                return Err(ChainError::NotFound);
            },
        };
        let n = self.data.len();
        proof {
            assert(pos < n);
        }
        let ghost pre = *self;
        let h = Self::hash_item((base_hash, &data));
        self.data.insert(pos + 1, (h, data));
        let ghost mid = *self;
        self.rehash_from(pos);
        proof {
            assert(spec_found_at(pre, base_hash@, pos as int));
            assert forall|i: int| 0 <= i <= pos implies #[trigger] self.digest_at(i)
                == pre.digest_at(i) by {
                assert(mid.data@[i] == pre.data@[i]);
            }
            assert forall|i: int| 0 <= i <= pos implies #[trigger] self.value_at(i)
                == pre.value_at(i) by {
                assert(mid.data@[i] == pre.data@[i]);
            }
            assert(self.value_at(pos + 1) == data) by {
                assert(mid.data@[pos + 1].1 == data);
            }
            assert forall|i: int| pos + 2 <= i < self.spec_len() implies #[trigger] self.value_at(
                i,
            ) == pre.value_at(i - 1) by {
                assert(mid.data@[i] == pre.data@[i - 1]);
            }
            assert(spec_insert_outcome(pre, *self, data, pos as int));
        }
        Ok(())
    }

    /// Does the whole prefix up to the first entry storing `until_hash`
    /// satisfy the structural invariant? Recomputes every digest from the
    /// start; mutates nothing. Fails with NotFound when no entry stores
    /// that digest.
    pub fn verify(&self, until_hash: &[u8]) -> (r: Result<bool, ChainError>)
        ensures
            (r is Ok) == self.contains_digest(until_hash@),
            r is Err ==> r == Err::<bool, ChainError>(ChainError::NotFound),
            r matches Ok(b) ==> exists|p: int|
                #![auto]
                spec_found_at(*self, until_hash@, p) && b == self.wf_upto(p + 1),
    {
        let pos = match self.position(until_hash) {
            Some(p) => p,
            None => {
                return Err(ChainError::NotFound);
            },
        };
        let n = self.data.len();
        proof {
            assert(pos < n);
        }
        let mut prev: Vec<u8> = Vec::new();
        let mut i: usize = 0;
        while i <= pos
            invariant
                pos < self.spec_len(),
                self.spec_len() <= usize::MAX,
                spec_found_at(*self, until_hash@, pos as int),
                i <= pos + 1,
                prev@ == self.prev_digest_at(i as int),
                forall|j: int| 0 <= j < i ==> #[trigger] self.entry_ok(j),
            decreases pos + 1 - i,
        {
            let expected = Self::hash_item((prev.as_slice(), &self.data[i].1));
            if !bytes_eq(self.data[i].0.as_slice(), expected.as_slice()) {
                proof {
                    assert(!self.entry_ok(i as int));
                    assert(!self.wf_upto(pos + 1));
                }
                return Ok(false);
            }
            prev = expected;
            i = i + 1;
        }
        proof {
            assert(self.wf_upto(pos + 1));
        }
        Ok(true)
    }

    /// Recompute and overwrite the digest of every entry after the first
    /// one storing `from_hash`, each from its predecessor's digest. Fails
    /// with NotFound, changing nothing, when no entry stores that digest.
    pub fn rehash(&mut self, from_hash: &[u8]) -> (r: Result<(), ChainError>)
        ensures
            (r is Ok) == old(self).contains_digest(from_hash@),
            r is Err ==> *final(self) == *old(self) && r == Err::<(), ChainError>(
                ChainError::NotFound,
            ),
            r is Ok ==> exists|p: int|
                #![auto]
                spec_found_at(*old(self), from_hash@, p) && spec_rehash_outcome(
                    *old(self),
                    *final(self),
                    p,
                ),
    {
        let pos = match self.position(from_hash) {
            Some(p) => p,
            None => {
                return Err(ChainError::NotFound);
            },
        };
        let ghost pre = *self;
        self.rehash_from(pos);
        proof {
            assert(spec_found_at(pre, from_hash@, pos as int));
        }
        Ok(())
    }

    /// Walk forward from position `pos + 1`, overwriting each digest with
    /// the one computed from its (possibly changed) predecessor digest.
    fn rehash_from(&mut self, pos: usize)
        requires
            pos < old(self).spec_len(),
        ensures
            spec_rehash_outcome(*old(self), *final(self), pos as int),
    {
        let n = self.data.len();
        proof {
            assert(pos < n);
        }
        let mut prev: Vec<u8> = {
            let h = self.data[pos].0.clone();
            proof {
                assert(h@ =~= self.data@[pos as int].0@);
            }
            h
        };
        let mut i: usize = pos + 1;
        while i < self.data.len()
            invariant
                pos < i <= self.spec_len(),
                self.spec_len() == old(self).spec_len(),
                self.spec_len() <= usize::MAX,
                forall|j: int|
                    0 <= j < self.spec_len() ==> #[trigger] self.value_at(j) == old(self).value_at(
                        j,
                    ),
                forall|j: int|
                    0 <= j <= pos ==> #[trigger] self.digest_at(j) == old(self).digest_at(j),
                forall|j: int| pos < j < i ==> #[trigger] self.entry_ok(j),
                prev@ == self.digest_at(i - 1),
            decreases self.spec_len() - i,
        {
            let ghost before = *self;
            let entry = self.data.remove(i);
            let expected = Self::hash_item((prev.as_slice(), &entry.1));
            let next_prev = expected.clone();
            proof {
                assert(next_prev@ =~= expected@);
            }
            self.data.insert(i, (expected, entry.1));
            proof {
                assert(self.data@ =~= before.data@.update(i as int, (expected, entry.1)));
                assert(entry == before.data@[i as int]);
                assert(self.entry_ok(i as int));
                assert forall|j: int| 0 <= j < self.spec_len() implies #[trigger] self.value_at(j)
                    == before.value_at(j) by {
                    if j != i {
                        assert(self.data@[j] == before.data@[j]);
                    } else {
                        assert(self.data@[j].1 == entry.1);
                    }
                }
                assert forall|j: int| 0 <= j <= pos implies #[trigger] self.digest_at(j)
                    == before.digest_at(j) by {
                    assert(self.data@[j] == before.data@[j]);
                }
                assert forall|j: int| pos < j < i + 1 implies #[trigger] self.entry_ok(j) by {
                    if j < i {
                        assert(before.entry_ok(j));
                        assert(self.data@[j] == before.data@[j]);
                        assert(self.data@[j - 1] == before.data@[j - 1]);
                    }
                }
            }
            prev = next_prev;
            i = i + 1;
        }
    }

    /// The digest an entry appended after `data.0` would store.
    pub fn hash_item(data: (&[u8], &T)) -> (r: Vec<u8>)
        ensures
            r@ == spec_link_digest(data.0@, data.1.canon()),
    {
        let (prev, value) = data;
        let mut buf = encode_bytes(prev);
        let mut v = value.encode();
        buf.append(&mut v);
        sha256(buf.as_slice())
    }

    /// The digest a stored entry should carry, recomputed from its parts.
    pub fn hash_o_item(data: &(Vec<u8>, T)) -> (r: Vec<u8>)
        ensures
            r@ == spec_link_digest(data.0@, data.1.canon()),
    {
        Self::hash_item((data.0.as_slice(), &data.1))
    }

    /// How many entries the chain holds.
    pub fn len(&self) -> (n: usize)
        ensures
            n == self.spec_len(),
    {
        self.data.len()
    }

    /// A copy of the digest stored at position `i`.
    pub fn hash_at(&self, i: usize) -> (r: Vec<u8>)
        requires
            i < self.spec_len(),
        ensures
            r@ == self.digest_at(i as int),
    {
        let h = self.data[i].0.clone();
        proof {
            assert(h@ =~= self.data@[i as int].0@);
        }
        h
    }

    /// The value stored at position `i`.
    pub fn value(&self, i: usize) -> (r: &T)
        requires
            i < self.spec_len(),
        ensures
            *r == self.value_at(i as int),
    {
        &self.data[i].1
    }

    /// The first position whose stored digest equals `target`.
    fn position(&self, target: &[u8]) -> (r: Option<usize>)
        ensures
            r matches Some(p) ==> spec_found_at(*self, target@, p as int),
            r is None ==> !self.contains_digest(target@),
    {
        let mut i: usize = 0;
        while i < self.data.len()
            invariant
                i <= self.spec_len(),
                forall|j: int| 0 <= j < i ==> #[trigger] self.digest_at(j) != target@,
            decreases self.spec_len() - i,
        {
            if bytes_eq(self.data[i].0.as_slice(), target) {
                return Some(i);
            }
            i = i + 1;
        }
        None
    }
}

/// Law: appending preserves the structural invariant, so verification up to
/// the just-appended entry (and up to any entry) succeeds on the new chain.
pub proof fn lemma_push_preserves_wf<T: CryptoDigest>(
    pre: HashChain<T>,
    post: HashChain<T>,
    v: T,
)
    requires
        spec_push_outcome(pre, post, v),
        pre.wf(),
    ensures
        post.wf(),
{
    assert forall|i: int| 0 <= i < post.spec_len() implies #[trigger] post.entry_ok(i) by {
        if i < pre.spec_len() {
            assert(pre.entry_ok(i));
        }
    }
}

/// Law: inserting restores the structural invariant. After inserting into a
/// well-formed chain the whole chain, the rehashed suffix included, is
/// well-formed again.
pub proof fn lemma_insert_restores_wf<T: CryptoDigest>(
    pre: HashChain<T>,
    post: HashChain<T>,
    v: T,
    p: int,
)
    requires
        spec_insert_outcome(pre, post, v, p),
        0 <= p < pre.spec_len(),
        pre.wf(),
    ensures
        post.wf(),
{
    assert forall|i: int| 0 <= i < post.spec_len() implies #[trigger] post.entry_ok(i) by {
        if i <= p {
            assert(pre.entry_ok(i));
        }
    }
}

/// Law: the structural invariant determines every digest. Two well-formed
/// chains holding values with the same canonical encodings, position by
/// position, store the same digests.
pub proof fn lemma_wf_digests_determined<T: CryptoDigest>(
    a: HashChain<T>,
    b: HashChain<T>,
    n: int,
)
    requires
        a.wf(),
        b.wf(),
        a.spec_len() == b.spec_len(),
        forall|i: int|
            0 <= i < a.spec_len() ==> #[trigger] a.value_at(i).canon() == b.value_at(i).canon(),
        0 <= n <= a.spec_len(),
    ensures
        forall|i: int| 0 <= i < n ==> #[trigger] a.digest_at(i) == b.digest_at(i),
    decreases n,
{
    if n > 0 {
        lemma_wf_digests_determined(a, b, n - 1);
        assert(a.entry_ok(n - 1));
        assert(b.entry_ok(n - 1));
        assert(a.prev_digest_at(n - 1) == b.prev_digest_at(n - 1));
        assert(a.digest_at(n - 1) == b.digest_at(n - 1));
    }
}

/// Law: on a well-formed chain, verification succeeds up to any entry: the
/// prefix ending at any position satisfies the structural invariant.
pub proof fn lemma_wf_chain_verifies<T: CryptoDigest>(c: HashChain<T>, p: int)
    requires
        c.wf(),
        0 <= p < c.spec_len(),
    ensures
        c.wf_upto(p + 1),
{
}

} // verus!
