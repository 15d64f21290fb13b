use bitcoin::blocks::{Block, BlockChain, RejectReason};
use bitcoin::client::Client;
use bitcoin::transaction::Transaction;

fn tx(from: u32, to: u32, amount: u32) -> Transaction {
    Transaction::new(Client::new(from), Client::new(to), amount)
}

#[test]
fn constructors_keep_fields() {
    let c = Client::new(7);
    assert_eq!(c.id, 7);
    let t = Transaction::new(Client::new(1), Client::new(2), 33);
    assert_eq!(t.from, Client::new(1));
    assert_eq!(t.to, Client::new(2));
    assert_eq!(t.amount, 33);
    let chain = BlockChain::new(Vec::new());
    assert!(chain.blocks.is_empty());
}

#[test]
fn default_client_can_be_drawn() {
    let _me = Client::default();
}

#[test]
fn store_unmined_fails_invalid_proof() {
    let mut chain = BlockChain::new(Vec::new());
    let block = chain.new_block(tx(1, 2, 3));
    assert_eq!(chain.store(block), Err(RejectReason::InvalidProof));
    assert_eq!(chain.blocks.len(), 0);
}

#[test]
fn store_accepts_mined_genesis() {
    let mut chain = BlockChain::new(Vec::new());
    let mut block = chain.new_block(tx(1, 2, 3));
    block.calc_set_pow();
    assert_eq!(chain.store(block), Ok(()));
    assert_eq!(chain.blocks.len(), 1);
}

#[test]
fn store_tampered_payload_fails() {
    let mut chain = BlockChain::new(Vec::new());
    let mut block = chain.new_block(tx(1, 2, 3));
    block.calc_set_pow();
    let mut tampered = block.clone();
    tampered.tx = tx(1, 2, 3 ^ 1);
    assert_eq!(chain.store(tampered), Err(RejectReason::InvalidProof));
    assert_eq!(chain.blocks.len(), 0);
}

#[test]
fn store_broken_link_fails() {
    let mut chain = BlockChain::new(Vec::new());
    let mut genesis = chain.new_block(tx(1, 2, 3));
    genesis.calc_set_pow();
    assert_eq!(chain.store(genesis), Ok(()));
    let mut stale = Block::new(None, tx(2, 3, 4));
    stale.calc_set_pow();
    assert_eq!(chain.store(stale), Err(RejectReason::BrokenLink));
    assert_eq!(chain.blocks.len(), 1);
}

#[test]
fn new_block_links_to_tip() {
    let mut chain = BlockChain::new(Vec::new());
    let mut genesis = chain.new_block(tx(1, 2, 3));
    genesis.calc_set_pow();
    let expected_tip = genesis.digest();
    chain.store(genesis).unwrap();
    let next = chain.new_block(tx(2, 3, 4));
    assert_eq!(next.prev_hash, expected_tip);
    assert!(next.pow.is_none());
}

#[test]
fn replace_adopts_into_empty_chain() {
    let mut remote = BlockChain::new(Vec::new());
    let mut g = remote.new_block(tx(5, 6, 7));
    g.calc_set_pow();
    remote.store(g).unwrap();
    let mut local = BlockChain::new(Vec::new());
    assert_eq!(local.replace(remote.clone()), Ok(()));
    assert!(local.chain_eq(&remote));
    assert_eq!(local.blocks.len(), 1);
}

#[test]
fn replace_adopts_over_unmined_scaffold() {
    let mut local = BlockChain::new(vec![Block::new(None, tx(1, 1, 1))]);
    let mut remote = BlockChain::new(Vec::new());
    let mut g = remote.new_block(tx(5, 6, 7));
    g.calc_set_pow();
    remote.store(g).unwrap();
    assert_eq!(local.replace(remote.clone()), Ok(()));
    assert!(local.chain_eq(&remote));
}

#[test]
fn replace_equal_chain_is_a_noop() {
    let mut local = BlockChain::new(Vec::new());
    let mut g = local.new_block(tx(5, 6, 7));
    g.calc_set_pow();
    local.store(g).unwrap();
    let snapshot = local.clone();
    assert_eq!(local.replace(snapshot.clone()), Ok(()));
    assert!(local.chain_eq(&snapshot));
    assert_eq!(local.blocks.len(), 1);
}

#[test]
fn replace_divergent_chain_fails() {
    let mut local = BlockChain::new(Vec::new());
    let mut g1 = local.new_block(tx(1, 2, 3));
    g1.calc_set_pow();
    local.store(g1).unwrap();
    let mut remote = BlockChain::new(Vec::new());
    let mut g2 = remote.new_block(tx(7, 8, 9));
    g2.calc_set_pow();
    remote.store(g2).unwrap();
    let before = local.clone();
    assert_eq!(local.replace(remote), Err(RejectReason::Divergent));
    assert!(local.chain_eq(&before));
}
