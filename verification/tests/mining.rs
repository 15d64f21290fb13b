use bitcoin::blocks::{Block, BlockChain};
use bitcoin::client::Client;
use bitcoin::transaction::Transaction;

fn tx(from: u32, to: u32, amount: u32) -> Transaction {
    Transaction::new(Client::new(from), Client::new(to), amount)
}

#[test]
fn pref_zeros_counts_leading_zero_bytes() {
    assert_eq!(Block::pref_zeros(&[0, 0, 7, 9]), Ok(2));
    assert_eq!(Block::pref_zeros(&[0, 0, 0, 0]), Ok(2));
    assert_eq!(Block::pref_zeros(&[0, 5, 1]), Err(1));
    assert_eq!(Block::pref_zeros(&[9, 9]), Err(0));
    assert_eq!(Block::pref_zeros(&[]), Ok(0));
    assert_eq!(Block::pref_zeros(&[0]), Ok(1));
}

#[test]
fn solve_then_verify_accepts() {
    let chain = BlockChain::new(Vec::new());
    let mut block = chain.new_block(tx(1, 2, 30));
    assert!(!block.verify_pow());
    block.calc_set_pow();
    assert!(block.pow.is_some());
    assert!(block.verify_pow());
}

#[test]
fn verify_rejects_bad_nonce() {
    let chain = BlockChain::new(Vec::new());
    let block = chain.new_block(tx(1, 2, 30));
    let mut bad = None;
    for n in 0..1000u64 {
        if !block.try_nonce(n) {
            bad = Some(n);
            break;
        }
    }
    let bad = bad.expect("every small nonce solved the puzzle");
    let mut b = block;
    b.pow = Some(bad);
    assert!(!b.verify_pow());
}

#[test]
fn unmined_block_never_verifies() {
    let block = Block::new(None, tx(1, 2, 3));
    assert!(block.pow.is_none());
    assert!(!block.verify_pow());
}

#[test]
fn digest_is_32_bytes_and_deterministic() {
    let b1 = Block::new(None, tx(1, 2, 3));
    let d1 = b1.digest();
    assert_eq!(d1.len(), 32);
    assert_eq!(d1, b1.digest());
}

#[test]
fn digest_depends_on_every_field() {
    let base = Block::new(None, tx(1, 2, 3));
    let other_tx = Block::new(None, tx(1, 2, 4));
    assert_ne!(base.digest(), other_tx.digest());
    let other_prev = Block::new(Some(&[1u8, 2, 3]), tx(1, 2, 3));
    assert_ne!(base.digest(), other_prev.digest());
    let mut with_pow = Block::new(None, tx(1, 2, 3));
    with_pow.pow = Some(7);
    assert_ne!(base.digest(), with_pow.digest());
}

#[test]
fn block_new_keeps_the_previous_digest() {
    let prev = [4u8, 5, 6];
    let b = Block::new(Some(&prev), tx(1, 2, 3));
    assert_eq!(b.prev_hash, vec![4u8, 5, 6]);
    assert_eq!(b.tx, tx(1, 2, 3));
    let genesis = Block::new(None, tx(1, 2, 3));
    assert!(genesis.prev_hash.is_empty());
}
