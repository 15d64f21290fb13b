//! The gossip dispatch rules: how one node turns an inbound message into a
//! chain mutation and an outbound broadcast. The transport, the peer
//! registry and the task plumbing live outside the library; this module is
//! the decision core they drive.

use vstd::prelude::*;

use crate::blocks::{
    spec_block_eq, spec_chain_eq, spec_pow_ok, spec_pow_valid, Block, BlockChain, RejectReason,
};
use crate::client::Client;
use crate::transaction::Transaction;

verus! {

/// One wire message: a block (mined or awaiting mining), or an initial
/// block download exchange (a pull request when empty, a full chain offer
/// when filled).
#[derive(Debug)]
pub enum Request {
    Block(Block),
    Ibd(Option<BlockChain>),
}

/// Startup configuration of a node's network behaviour.
#[derive(Debug, Clone, Copy, PartialEq, Eq, Structural)]
pub struct NetworkConfig {
    pub auto_mine: bool,
}

impl Default for NetworkConfig {
    fn default() -> (c: NetworkConfig)
        ensures
            c.auto_mine == false,
    {
        NetworkConfig { auto_mine: false }
    }
}

/// What handling one inbound message did, and what remains to be done by
/// the caller that owns the sockets.
#[derive(Debug)]
pub enum HandleOutcome {
    /// A mined remote block was verified and appended; nothing to gossip.
    Stored,
    /// A remote block was refused for this reason; the chain is unchanged.
    Rejected(RejectReason),
    /// A mining request was served: the now-proved block, and whether it
    /// could still be appended to the local chain. Gossip the block.
    Mined { block: Block, stored: bool },
    /// A mining request was served but no nonce in the space solves it.
    MiningFailed,
    /// A remote chain offer was adopted, or already matched ours.
    Synced,
    /// A remote chain offer disagreed with ours; nothing was reconciled.
    Diverged,
    /// A pull request asked for our chain: gossip this snapshot.
    ShareChain(BlockChain),
    /// Nothing to do.
    Ignored,
}

/// `post` is `pre` with one more block at the end, holding the same
/// contents as `b`.
pub open spec fn spec_appended(pre: Seq<Block>, post: Seq<Block>, b: Block) -> bool {
    &&& post.len() == pre.len() + 1
    &&& forall|i: int| 0 <= i < pre.len() ==> #[trigger] post[i] == pre[i]
    &&& spec_block_eq(post[pre.len() as int], b)
}

/// What handling a mined remote block does: exactly what `store` does,
/// with the reason surfaced; an accepted block is not gossiped again.
pub open spec fn spec_mined_block_outcome(
    pre: BlockChain,
    post: BlockChain,
    b: Block,
    out: HandleOutcome,
) -> bool {
    if !spec_pow_valid(b) {
        out == HandleOutcome::Rejected(RejectReason::InvalidProof) && post == pre
    } else if b.prev_hash@ != pre.spec_tip_digest() {
        out == HandleOutcome::Rejected(RejectReason::BrokenLink) && post == pre
    } else {
        out == HandleOutcome::Stored && post.blocks@ == pre.blocks@.push(b)
    }
}

/// What attaching a freshly found nonce does: the proved block keeps the
/// candidate's link and payload; it is appended exactly when the nonce
/// solves the puzzle and the candidate still links to the tip.
pub open spec fn spec_finish_mining_outcome(
    pre: BlockChain,
    post: BlockChain,
    b: Block,
    nonce: u64,
    out: HandleOutcome,
) -> bool {
    &&& out matches HandleOutcome::Mined { block, stored }
    &&& (out matches HandleOutcome::Mined { block, stored } ==> {
        &&& block.prev_hash@ == b.prev_hash@
        &&& block.tx == b.tx
        &&& block.pow == Some(nonce)
        &&& if spec_pow_ok(b.prev_hash@, b.tx, nonce) && b.prev_hash@ == pre.spec_tip_digest() {
            stored && spec_appended(pre.blocks@, post.blocks@, block)
        } else {
            !stored && post == pre
        }
    })
}

/// What handling a mining request does: some solving nonce is attached and
/// handled as `spec_finish_mining_outcome` says, or no nonce in the whole
/// space solves the puzzle and nothing changes.
pub open spec fn spec_mine_request_outcome(
    pre: BlockChain,
    post: BlockChain,
    b: Block,
    out: HandleOutcome,
) -> bool {
    match out {
        HandleOutcome::Mined { block, stored } => exists|nonce: u64|
            #![auto]
            spec_pow_ok(b.prev_hash@, b.tx, nonce) && spec_finish_mining_outcome(
                pre,
                post,
                b,
                nonce,
                out,
            ),
        HandleOutcome::MiningFailed => post == pre && forall|nonce: u64|
            !spec_pow_ok(b.prev_hash@, b.tx, nonce),
        _ => false,
    }
}

/// What handling a full chain offer does: exactly what `replace` does.
pub open spec fn spec_ibd_offer_outcome(
    pre: BlockChain,
    post: BlockChain,
    cand: BlockChain,
    out: HandleOutcome,
) -> bool {
    if pre.blocks@.len() == 0 || pre.spec_all_unmined() {
        out == HandleOutcome::Synced && post.blocks == cand.blocks
    } else if spec_chain_eq(pre.blocks@, cand.blocks@) {
        out == HandleOutcome::Synced && post == pre
    } else {
        out == HandleOutcome::Diverged && post == pre
    }
}

/// What handling a pull request does: nothing on an empty chain, otherwise
/// a snapshot of the local chain to gossip; the chain itself never changes.
pub open spec fn spec_ibd_request_outcome(
    pre: BlockChain,
    post: BlockChain,
    out: HandleOutcome,
) -> bool {
    &&& post == pre
    &&& if pre.blocks@.len() == 0 {
        out == HandleOutcome::Ignored
    } else {
        out matches HandleOutcome::ShareChain(c) && spec_chain_eq(c.blocks@, pre.blocks@)
    }
}

/// One node's decision core: its identity, its configuration, and the one
/// chain instance every handler path mutates.
#[derive(Debug)]
pub struct Node {
    pub me: Client,
    pub config: NetworkConfig,
    pub blockchain: BlockChain,
}

impl Node {
    pub fn new(me: Client, config: NetworkConfig, blockchain: BlockChain) -> (n: Node)
        ensures
            n.me == me,
            n.config == config,
            n.blockchain == blockchain,
    {
        Node { me, config, blockchain }
    }

    /// Build a candidate block on the current tip, with the proof absent.
    pub fn new_block(&self, trans: Transaction) -> (b: Block)
        ensures
            b.prev_hash@ == self.blockchain.spec_tip_digest(),
            b.tx == trans,
            b.pow is None,
    {
        self.blockchain.new_block(trans)
    }

    /// Attach a nonce reported by the mining search to a candidate block,
    /// then verify and store the proved block. The block is returned for
    /// gossip whether or not it could still be appended.
    pub fn finish_mining(&mut self, block: Block, nonce: u64) -> (out: HandleOutcome)
        ensures
            final(self).me == old(self).me,
            final(self).config == old(self).config,
            spec_finish_mining_outcome(
                old(self).blockchain,
                final(self).blockchain,
                block,
                nonce,
                out,
            ),
    {
        let mut mine = block;
        mine.pow = Some(nonce);
        let out_block = mine.clone();
        let stored = match self.blockchain.store(mine) {
            Ok(()) => true,
            Err(_) => false,
        };
        HandleOutcome::Mined { block: out_block, stored }
    }

    /// The dispatcher: turn one inbound message into a chain mutation and
    /// an outcome describing what to gossip.
    ///
    /// A mined block is verified and stored, never re-gossiped. An unmined
    /// block is a mining request: solve it, store the proved block, gossip
    /// it. A chain offer is adopted through `replace`. A pull request is
    /// answered with a snapshot of a non-empty chain.
    pub fn handle(&mut self, req: Request) -> (out: HandleOutcome)
        ensures
            final(self).me == old(self).me,
            final(self).config == old(self).config,
            match req {
                Request::Block(b) => if b.pow is Some {
                    spec_mined_block_outcome(
                        old(self).blockchain,
                        final(self).blockchain,
                        b,
                        out,
                    )
                } else {
                    spec_mine_request_outcome(
                        old(self).blockchain,
                        final(self).blockchain,
                        b,
                        out,
                    )
                },
                Request::Ibd(Some(cand)) => spec_ibd_offer_outcome(
                    old(self).blockchain,
                    final(self).blockchain,
                    cand,
                    out,
                ),
                Request::Ibd(None) => spec_ibd_request_outcome(
                    old(self).blockchain,
                    final(self).blockchain,
                    out,
                ),
            },
    {
        match req {
            Request::Block(b) => {
                if b.pow.is_some() {
                    match self.blockchain.store(b) {
                        Ok(()) => HandleOutcome::Stored,
                        Err(reason) => HandleOutcome::Rejected(reason),
                    }
                } else {
                    match b.calc_pow() {
                        Some(nonce) => self.finish_mining(b, nonce),
                        None => HandleOutcome::MiningFailed,
                    }
                }
            },
            Request::Ibd(Some(cand)) => {
                match self.blockchain.replace(cand) {
                    Ok(()) => HandleOutcome::Synced,
                    Err(_) => HandleOutcome::Diverged,
                }
            },
            Request::Ibd(None) => {
                if self.blockchain.blocks.len() == 0 {
                    HandleOutcome::Ignored
                } else {
                    HandleOutcome::ShareChain(self.blockchain.clone())
                }
            },
        }
    }
}

impl HandleOutcome {
    /// What the node should gossip after this outcome: a freshly mined
    /// block always goes out; a chain snapshot answers a pull request;
    /// everything else stays local.
    pub fn to_broadcast(self) -> (r: Option<Request>)
        ensures
            match self {
                HandleOutcome::Mined { block, stored } => r == Some(Request::Block(block)),
                HandleOutcome::ShareChain(c) => r == Some(Request::Ibd(Some(c))),
                _ => r is None,
            },
    {
        match self {
            HandleOutcome::Mined { block, stored: _ } => Some(Request::Block(block)),
            HandleOutcome::ShareChain(c) => Some(Request::Ibd(Some(c))),
            _ => None,
        }
    }
}

} // verus!
