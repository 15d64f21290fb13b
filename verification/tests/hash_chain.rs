use bitcoin::client::Client;
use bitcoin::hash_chain::{ChainError, HashChain};
use bitcoin::transaction::Transaction;

fn tx(from: u32, to: u32, amount: u32) -> Transaction {
    Transaction::new(Client::new(from), Client::new(to), amount)
}

#[test]
fn verify_after_push_holds() {
    let mut chain: HashChain<Transaction> = HashChain::default();
    chain.push(tx(1, 2, 3));
    let d1 = chain.hash_at(0);
    assert_eq!(chain.verify(&d1), Ok(true));
    chain.push(tx(4, 5, 6));
    chain.push(tx(7, 8, 9));
    let d3 = chain.hash_at(2);
    assert_eq!(chain.verify(&d3), Ok(true));
    assert_eq!(chain.verify(&d1), Ok(true));
}

#[test]
fn new_builds_a_consistent_chain() {
    let chain = HashChain::new(vec![tx(1, 1, 1), tx(2, 2, 2), tx(3, 3, 3)]);
    assert_eq!(chain.len(), 3);
    assert_eq!(chain.value(0).amount, 1);
    assert_eq!(chain.value(2).amount, 3);
    let last = chain.hash_at(2);
    assert_eq!(chain.verify(&last), Ok(true));
}

#[test]
fn insert_rehashes_and_verifies() {
    let mut chain = HashChain::new(vec![tx(1, 1, 1), tx(2, 2, 2), tx(3, 3, 3)]);
    let first = chain.hash_at(0);
    assert_eq!(chain.insert(tx(9, 9, 9), &first), Ok(()));
    assert_eq!(chain.len(), 4);
    assert_eq!(chain.value(1).amount, 9);
    assert_eq!(chain.value(2).amount, 2);
    let last = chain.hash_at(3);
    assert_eq!(chain.verify(&last), Ok(true));
    let inserted = chain.hash_at(1);
    assert_eq!(chain.verify(&inserted), Ok(true));
}

#[test]
fn insert_changes_later_digests() {
    let mut chain = HashChain::new(vec![tx(1, 1, 1), tx(2, 2, 2)]);
    let first = chain.hash_at(0);
    let old_last = chain.hash_at(1);
    assert_eq!(chain.insert(tx(9, 9, 9), &first), Ok(()));
    assert_ne!(chain.hash_at(2), old_last);
}

#[test]
fn missing_digest_is_not_found() {
    let mut chain = HashChain::new(vec![tx(1, 1, 1)]);
    let bogus = vec![0u8; 32];
    assert_eq!(chain.verify(&bogus), Err(ChainError::NotFound));
    assert_eq!(chain.insert(tx(2, 2, 2), &bogus), Err(ChainError::NotFound));
    assert_eq!(chain.rehash(&bogus), Err(ChainError::NotFound));
    assert_eq!(chain.len(), 1);
}

#[test]
fn rehash_keeps_a_consistent_chain() {
    let mut chain = HashChain::new(vec![tx(1, 1, 1), tx(2, 2, 2)]);
    let first = chain.hash_at(0);
    let last_before = chain.hash_at(1);
    assert_eq!(chain.rehash(&first), Ok(()));
    assert_eq!(chain.hash_at(1), last_before);
}

#[test]
fn hash_item_matches_stored_digest() {
    let mut chain: HashChain<Transaction> = HashChain::default();
    chain.push(tx(1, 2, 3));
    let d0 = chain.hash_at(0);
    let recomputed = HashChain::hash_item((&[] as &[u8], chain.value(0)));
    assert_eq!(d0, recomputed);
    assert_eq!(HashChain::hash_o_item(&(Vec::new(), *chain.value(0))), d0);
}

#[test]
fn equal_values_give_equal_digests() {
    let a = HashChain::new(vec![tx(1, 1, 1), tx(2, 2, 2)]);
    let b = HashChain::new(vec![tx(1, 1, 1), tx(2, 2, 2)]);
    assert_eq!(a.hash_at(0), b.hash_at(0));
    assert_eq!(a.hash_at(1), b.hash_at(1));
    let c = HashChain::new(vec![tx(1, 1, 1), tx(2, 2, 9)]);
    assert_eq!(a.hash_at(0), c.hash_at(0));
    assert_ne!(a.hash_at(1), c.hash_at(1));
}

#[test]
fn push_links_to_the_previous_digest() {
    let mut chain: HashChain<Transaction> = HashChain::default();
    chain.push(tx(1, 2, 3));
    chain.push(tx(4, 5, 6));
    let d0 = chain.hash_at(0);
    let d1 = chain.hash_at(1);
    let expected = HashChain::hash_item((d0.as_slice(), chain.value(1)));
    assert_eq!(d1, expected);
}
