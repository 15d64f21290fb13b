//! The digest primitive used for every tamper-evident link: canonically
//! encode the ordered inputs, then apply a 256-bit cryptographic hash.
//! Two structurally equal inputs always give the same digest.

use vstd::prelude::*;

use crate::transaction::Transaction;
use sha2::Digest;

verus! {

/// What bincode's standard configuration makes of a byte string.
pub uninterp spec fn canon_bytes(b: Seq<u8>) -> Seq<u8>;

/// What bincode's standard configuration makes of a transaction's fields,
/// taken in order: sender id, receiver id, amount.
pub uninterp spec fn canon_tx(from: u32, to: u32, amount: u32) -> Seq<u8>;

/// What bincode's standard configuration makes of a 64-bit nonce.
pub uninterp spec fn canon_u64(x: u64) -> Seq<u8>;

/// What bincode's standard configuration makes of an optional nonce.
pub uninterp spec fn canon_opt_u64(x: Option<u64>) -> Seq<u8>;

/// What SHA-256 makes of a byte string.
pub uninterp spec fn sha256_of(data: Seq<u8>) -> Seq<u8>;

/// Relies on bincode::encode_to_vec with the standard configuration: the
/// encoding of a byte slice depends on the bytes alone, and cannot fail.
#[verifier::external_body]
pub fn encode_bytes(b: &[u8]) -> (r: Vec<u8>)
    ensures
        r@ == canon_bytes(b@),
{
    bincode::encode_to_vec(b, bincode::config::standard()).unwrap()
}

/// Relies on bincode::encode_to_vec with the standard configuration: the
/// encoding of a triple of 32-bit integers depends on the integers alone,
/// in order, and cannot fail.
#[verifier::external_body]
pub fn encode_tx(t: &Transaction) -> (r: Vec<u8>)
    ensures
        r@ == canon_tx(t.from.id, t.to.id, t.amount),
{
    bincode::encode_to_vec((t.from.id, t.to.id, t.amount), bincode::config::standard()).unwrap()
}

/// Relies on bincode::encode_to_vec with the standard configuration: the
/// encoding of a 64-bit integer depends on the integer alone, and cannot fail.
#[verifier::external_body]
pub fn encode_u64(x: u64) -> (r: Vec<u8>)
    ensures
        r@ == canon_u64(x),
{
    bincode::encode_to_vec(x, bincode::config::standard()).unwrap()
}

/// Relies on bincode::encode_to_vec with the standard configuration: the
/// encoding of an optional 64-bit integer depends on the value alone, and
/// cannot fail.
#[verifier::external_body]
pub fn encode_opt_u64(x: Option<u64>) -> (r: Vec<u8>)
    ensures
        r@ == canon_opt_u64(x),
{
    bincode::encode_to_vec(x, bincode::config::standard()).unwrap()
}

/// Relies on sha2::Sha256 through the Digest trait: SHA-256 of the input,
/// a 32-byte digest that depends on the input bytes alone.
#[verifier::external_body]
pub fn sha256(data: &[u8]) -> (r: Vec<u8>)
    ensures
        r@ == sha256_of(data@),
        r@.len() == 32,
{
    sha2::Sha256::digest(data).to_vec()
}

/// The byte strings are equal.
pub fn bytes_eq(a: &[u8], b: &[u8]) -> (r: bool)
    ensures
        r == (a@ == b@),
{
    if a.len() != b.len() {
        return false;
    }
    let mut i: usize = 0;
    while i < a.len()
        invariant
            a@.len() == b@.len(),
            i <= a@.len(),
            forall|j: int| 0 <= j < i ==> a@[j] == b@[j],
        decreases a@.len() - i,
    {
        if a[i] != b[i] {
            return false;
        }
        i = i + 1;
    }
    proof {
        assert(a@ =~= b@);
    }
    true
}

/// A value with a deterministic, order-preserving canonical encoding.
/// `canon` names the encoding in specifications; `encode` computes it.
pub trait CryptoDigest: Sized {
    spec fn canon(&self) -> Seq<u8>;

    fn encode(&self) -> (r: Vec<u8>)
        ensures
            r@ == self.canon();
}

} // verus!
