use vstd::prelude::*;

use crate::client::Client;
use crate::digest::{canon_tx, encode_tx, CryptoDigest};

verus! {

/// The value a block records: an amount moving from one client to another.
/// Opaque to the chain logic beyond being deterministically encodable.
#[derive(Debug, Clone, Copy, PartialEq, Eq, Structural, Hash)]
pub struct Transaction {
    pub from: Client,
    pub to: Client,
    pub amount: u32,
}

impl Transaction {
    pub fn new(from: Client, to: Client, amount: u32) -> (t: Transaction)
        ensures
            t.from == from,
            t.to == to,
            t.amount == amount,
    {
        Transaction { from, to, amount }
    }
}

impl CryptoDigest for Transaction {
    open spec fn canon(&self) -> Seq<u8> {
        canon_tx(self.from.id, self.to.id, self.amount)
    }

    fn encode(&self) -> (r: Vec<u8>) {
        let r = encode_tx(self);
        proof {
            assert(r@ == self.canon());
        }
        r
    }
}

} // verus!
