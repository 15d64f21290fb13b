use vstd::prelude::*;

verus! {

/// A participant in the ledger, known only by a numeric identity.
#[derive(Debug, Clone, Copy, PartialEq, Eq, Structural, Hash)]
pub struct Client {
    pub id: u32,
}

impl Client {
    pub fn new(id: u32) -> (c: Client)
        ensures
            c.id == id,
    {
        Client { id }
    }
}

/// Relies on rand::random: draws a value from the thread-local generator;
/// nothing can be promised of the result.
#[verifier::external_body]
fn random_u32() -> u32 {
    rand::random()
}

impl Default for Client {
    /// A fresh identity with a randomly drawn id.
    fn default() -> Client {
        Client { id: random_u32() }
    }
}

} // verus!
