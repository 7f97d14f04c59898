//! The leader's side of the Raft engine's loop: when to tick, which
//! proposals to put to the engine, and when and how to make the next block.
//!
//! The loop itself (its timers, its sleep, its channels and the Raft state
//! machine) runs outside the library and asks these functions at each turn.

use vstd::prelude::*;
use std::collections::VecDeque;
use std::sync::mpsc::Receiver;
use crate::block::{seconds_since_epoch, Block, BlockType, BlockView, BodyView, HeaderView, ConfiglBlockBody, ConfigView, block_hash,
    genesis_header, new_block_body, signed_block, signed_with};
use crate::blockchain::{Blockchain, ChainView, spec_add_uncommitted, spec_chain_head, spec_extends_head};
use crate::config::NodeConfig;
use crate::crypto::{ed25519_keypair_matched, ed25519_signature};
use vstd::utf8::encode_utf8;
use crate::messages::{BroadCastRequest, NetworkMessageType, NewBlockInfo, enc_block, write_block};
use crate::proposal::{ConfChangeRequest, Proposal};
use crate::raft_node::{ConfChangeKind, LeaderState, RaftNode, announce_view, spec_commit_waiting};

verus! {

/// The time between two ticks of the Raft engine, in milliseconds.
pub const RAFT_TICK_TIMEOUT: u64 = 50;

/// The time a leader waits between two blocks, in milliseconds.
pub const BLOCK_INTERVAL: u64 = 10000;

/// The leader's side of the Raft engine: the proposals of blocks and of
/// membership changes, in the order they were made.
pub struct RaftEngine {
    pub proposals_global: VecDeque<Proposal>,
    pub conf_change_proposals: VecDeque<Proposal>,
    pub config: NodeConfig,
}

/// Whether a member makes a block after `elapsed_ms` milliseconds since the
/// last one: it is the leader, the interval has passed, and it is not
/// waiting for the commit of a block it proposed.
pub open spec fn spec_should_create_block(is_leader: bool, elapsed_ms: u64, leader_state: Option<LeaderState>) -> bool {
    is_leader && elapsed_ms >= BLOCK_INTERVAL && !(leader_state matches Some(LeaderState::Proposing))
}

/// The block a leader with key pair `keypair` and id `node_id` makes next on
/// chain `c`, stamped with `timestamp`: after the head, an ordinary block
/// with the next id that names the head's hash and the size in bytes of the
/// head's encoding; on an empty chain, the genesis block with the genesis
/// configuration.
pub open spec fn spec_next_block(
    c: ChainView,
    keypair: Seq<u8>,
    node_id: u64,
    genesis: ConfigView,
    timestamp: u128,
) -> BlockView {
    match spec_chain_head(c) {
        Some(head) => signed_block(
            keypair,
            HeaderView {
                block_id: (head.header.block_id + 1) as u64,
                epoch_seq_num: 1,
                block_type: BlockType::Normal,
                prev_block_size: enc_block(head).len() as u64,
                timestamp,
                prev_block_hash: block_hash(head),
                proposer: node_id,
            },
            new_block_body(BlockType::Normal, (head.header.block_id + 1) as u64),
        ),
        None => signed_block(keypair, genesis_header(node_id, timestamp), BodyView::Config { config: genesis }),
    }
}

/// The index of the first proposal not yet proposed, after those that were.
pub open spec fn first_unproposed_index(q: Seq<Proposal>, i: int) -> bool {
    &&& 0 <= i <= q.len()
    &&& forall|j: int| 0 <= j < i ==> (#[trigger] q[j]).proposed > 0
    &&& i < q.len() ==> q[i].proposed == 0
}

/// Whether the engine ticks after `elapsed_ms` milliseconds since its last tick.
pub fn should_tick(elapsed_ms: u64) -> (tick: bool)
    ensures
        tick == (elapsed_ms >= RAFT_TICK_TIMEOUT),
{
    elapsed_ms >= RAFT_TICK_TIMEOUT
}

/// Whether the member makes a block now.
pub fn should_create_block(is_leader: bool, elapsed_ms: u64, leader_state: &Option<LeaderState>) -> (create: bool)
    ensures
        create == spec_should_create_block(is_leader, elapsed_ms, *leader_state),
        create <==> (is_leader && elapsed_ms >= 10000 && !(*leader_state matches Some(LeaderState::Proposing))),
{
    let proposing = match leader_state {
        Some(LeaderState::Proposing) => true,
        _ => false,
    };
    is_leader && elapsed_ms >= BLOCK_INTERVAL && !proposing
}

/// Where the proposals still to put to the engine start: the proposals
/// before it were proposed, and the one at it was not.
pub fn first_unproposed(queue: &VecDeque<Proposal>) -> (i: usize)
    ensures
        first_unproposed_index(queue@, i as int),
{
    let mut i: usize = 0;
    while i < queue.len()
        invariant
            i <= queue@.len(),
            forall|j: int| 0 <= j < i ==> (#[trigger] queue@[j]).proposed > 0,
        decreases queue@.len() - i,
    {
        if queue[i].proposed == 0 {
            return i;
        }
        i = i + 1;
    }
    i
}

/// Queues a proposal to add node `node_id` to the membership, and hands back
/// the receiving end of its answer channel.
pub fn add_new_node(proposals: &mut VecDeque<Proposal>, node_id: u64) -> (rx: Receiver<bool>)
    ensures
        final(proposals)@.len() == old(proposals)@.len() + 1,
        final(proposals)@.drop_last() == old(proposals)@,
        final(proposals)@.last().conf_change == Some(ConfChangeRequest { node_id, change_type: ConfChangeKind::AddNode }),
        final(proposals)@.last().block is None,
        final(proposals)@.last().proposed == 0,
{
    let conf_change = ConfChangeRequest { node_id, change_type: ConfChangeKind::AddNode };
    let (proposal, rx) = Proposal::conf_change(&conf_change);
    proposals.push_back(proposal);
    assert(final(proposals)@.drop_last() =~= old(proposals)@);
    rx
}

impl RaftEngine {
    /// An engine with no proposals, for a node with this configuration.
    pub fn new(node_config: NodeConfig) -> (e: RaftEngine)
        ensures
            e.proposals_global@ == Seq::<Proposal>::empty(),
            e.conf_change_proposals@ == Seq::<Proposal>::empty(),
            e.config@ == node_config@,
    {
        RaftEngine {
            proposals_global: VecDeque::new(),
            conf_change_proposals: VecDeque::new(),
            config: node_config,
        }
    }

    /// Records the outcome of putting the block proposal at `i` to the Raft
    /// engine, given the next free log index before and after.
    pub fn record_block_proposal(&mut self, i: usize, next_index_before: u64, next_index_after: u64)
        requires
            i < old(self).proposals_global@.len(),
        ensures
            final(self).proposals_global@.len() == old(self).proposals_global@.len(),
            forall|j: int| 0 <= j < old(self).proposals_global@.len() && j != i
                ==> final(self).proposals_global@[j] == old(self).proposals_global@[j],
            final(self).proposals_global@[i as int].proposed == (if next_index_after != next_index_before {
                next_index_before
            } else {
                old(self).proposals_global@[i as int].proposed
            }),
            final(self).proposals_global@[i as int].block == old(self).proposals_global@[i as int].block,
            final(self).proposals_global@[i as int].conf_change == old(self).proposals_global@[i as int].conf_change,
            final(self).conf_change_proposals@ == old(self).conf_change_proposals@,
            final(self).config@ == old(self).config@,
    {
        record_in_queue(&mut self.proposals_global, i, next_index_before, next_index_after);
    }

    /// Records the outcome of putting the membership proposal at `i` to the
    /// Raft engine, given the next free log index before and after.
    pub fn record_conf_change_proposal(&mut self, i: usize, next_index_before: u64, next_index_after: u64)
        requires
            i < old(self).conf_change_proposals@.len(),
        ensures
            final(self).conf_change_proposals@.len() == old(self).conf_change_proposals@.len(),
            forall|j: int| 0 <= j < old(self).conf_change_proposals@.len() && j != i
                ==> final(self).conf_change_proposals@[j] == old(self).conf_change_proposals@[j],
            final(self).conf_change_proposals@[i as int].proposed == (if next_index_after != next_index_before {
                next_index_before
            } else {
                old(self).conf_change_proposals@[i as int].proposed
            }),
            final(self).conf_change_proposals@[i as int].block == old(self).conf_change_proposals@[i as int].block,
            final(self).conf_change_proposals@[i as int].conf_change
                == old(self).conf_change_proposals@[i as int].conf_change,
            final(self).proposals_global@ == old(self).proposals_global@,
            final(self).config@ == old(self).config@,
    {
        record_in_queue(&mut self.conf_change_proposals, i, next_index_before, next_index_after);
    }

    /// Makes the leader's next block (`spec_next_block`, stamped with
    /// `timestamp`), puts it in the queue of waiting blocks and among the
    /// proposals, marks the leader as proposing, and gives the announcement
    /// of the block to every peer.
    pub fn create_next_block_at(
        &mut self,
        raft_node: &mut RaftNode,
        blockchain: &mut Blockchain,
        genesis_config: &ConfiglBlockBody,
        timestamp: u128,
    ) -> (announce: BroadCastRequest)
        requires
            spec_chain_head(old(blockchain)@) matches Some(h) ==> h.header.block_id < u64::MAX,
        ensures
            final(self).config@ == old(self).config@,
            final(self).conf_change_proposals@ == old(self).conf_change_proposals@,
            final(raft_node).id == old(raft_node).id,
            final(raft_node).follower_state == old(raft_node).follower_state,
            final(self).proposals_global@.len() == old(self).proposals_global@.len() + 1,
            final(self).proposals_global@.drop_last() == old(self).proposals_global@,
            final(self).proposals_global@.last().proposed == 0,
            final(self).proposals_global@.last().conf_change is None,
            final(self).proposals_global@.last().block matches Some(b) && {
                &&& b@ == spec_next_block(
                    old(blockchain)@,
                    old(self).config@.key_pair,
                    old(self).config.node_id,
                    genesis_config@,
                    timestamp,
                )
                &&& final(blockchain)@ == spec_add_uncommitted(old(blockchain)@, b@)
                &&& announce.data@ == announce_view(old(self).config.node_id, b@)
                &&& b@.signature == ed25519_signature(old(self).config@.key_pair, encode_utf8(block_hash(b@)))
                &&& ed25519_keypair_matched(old(self).config@.key_pair) ==> signed_with(b@, old(self).config@.key_pair)
            },
            final(raft_node).leader_state == Some(LeaderState::Proposing),
    {
        let node_id = self.config.node_id;
        let new_block = match blockchain.get_chain_head() {
            Some(last_block) => {
                let new_block_id = last_block.header.block_id + 1;
                let mut encoded: Vec<u8> = Vec::new();
                write_block(&mut encoded, &last_block);
                assert(encoded@ =~= enc_block(last_block@));
                let prev_block_size = encoded.len() as u64;
                Block::new_at(
                    new_block_id,
                    1,
                    BlockType::Normal,
                    prev_block_size,
                    last_block.hash(),
                    node_id,
                    &self.config.key_pair,
                    timestamp,
                )
            },
            None => Block::genesis_at(genesis_config.duplicate(), node_id, &self.config.key_pair, timestamp),
        };
        let block_id = new_block.header.block_id;
        let hash = new_block.hash();
        let _ = blockchain.add_to_uncommitted_block_que(new_block.duplicate());
        raft_node.leader_state = Some(LeaderState::Proposing);
        let (proposal, _rx) = Proposal::new_block(new_block);
        self.proposals_global.push_back(proposal);
        assert(self.proposals_global@.drop_last() =~= old(self).proposals_global@);
        let info = NewBlockInfo::new(node_id, block_id, hash);
        BroadCastRequest::new(NetworkMessageType::BlockNew(info))
    }

    /// Makes the leader's next block as `create_next_block_at` does, stamped
    /// with the current time in seconds since the Unix epoch.  Changes
    /// nothing and gives `None` when the system clock reads earlier than the
    /// Unix epoch.
    pub fn create_next_block(
        &mut self,
        raft_node: &mut RaftNode,
        blockchain: &mut Blockchain,
        genesis_config: &ConfiglBlockBody,
    ) -> (announce: Option<BroadCastRequest>)
        requires
            spec_chain_head(old(blockchain)@) matches Some(h) ==> h.header.block_id < u64::MAX,
        ensures
            final(self).config@ == old(self).config@,
            final(self).conf_change_proposals@ == old(self).conf_change_proposals@,
            final(raft_node).id == old(raft_node).id,
            final(raft_node).follower_state == old(raft_node).follower_state,
            match announce {
                Some(r) => {
                    &&& final(self).proposals_global@.len() == old(self).proposals_global@.len() + 1
                    &&& final(self).proposals_global@.drop_last() == old(self).proposals_global@
                    &&& final(self).proposals_global@.last().proposed == 0
                    &&& final(self).proposals_global@.last().conf_change is None
                    &&& final(self).proposals_global@.last().block matches Some(b) && {
                        &&& b@ == spec_next_block(
                            old(blockchain)@,
                            old(self).config@.key_pair,
                            old(self).config.node_id,
                            genesis_config@,
                            b@.header.timestamp,
                        )
                        &&& b@.header.timestamp <= u64::MAX
                        &&& b@.signature == ed25519_signature(old(self).config@.key_pair, encode_utf8(block_hash(b@)))
                        &&& ed25519_keypair_matched(old(self).config@.key_pair) ==> signed_with(
                            b@,
                            old(self).config@.key_pair,
                        )
                        &&& final(blockchain)@ == spec_add_uncommitted(old(blockchain)@, b@)
                        &&& r.data@ == announce_view(old(self).config.node_id, b@)
                    }
                    &&& final(raft_node).leader_state == Some(LeaderState::Proposing)
                },
                None => {
                    &&& final(self).proposals_global@ == old(self).proposals_global@
                    &&& final(blockchain)@ == old(blockchain)@
                    &&& final(raft_node).leader_state == old(raft_node).leader_state
                },
            },
    {
        match seconds_since_epoch() {
            Some(secs) => Some(self.create_next_block_at(raft_node, blockchain, genesis_config, secs as u128)),
            None => None,
        }
    }
}

fn record_in_queue(queue: &mut VecDeque<Proposal>, i: usize, next_index_before: u64, next_index_after: u64)
    requires
        i < old(queue)@.len(),
    ensures
        final(queue)@.len() == old(queue)@.len(),
        forall|j: int| 0 <= j < old(queue)@.len() && j != i ==> final(queue)@[j] == old(queue)@[j],
        final(queue)@[i as int].proposed == (if next_index_after != next_index_before {
            next_index_before
        } else {
            old(queue)@[i as int].proposed
        }),
        final(queue)@[i as int].block == old(queue)@[i as int].block,
        final(queue)@[i as int].conf_change == old(queue)@[i as int].conf_change,
{
    match queue.remove(i) {
        Some(mut p) => {
            p.record_proposed(next_index_before, next_index_after);
            queue.insert(i, p);
        },
        None => {},
    }
}

/// The block a leader makes next extends the head of the chain it was made on.
pub proof fn law_next_block_extends_head(
    c: ChainView,
    keypair: Seq<u8>,
    node_id: u64,
    genesis: ConfigView,
    timestamp: u128,
)
    ensures
        spec_extends_head(c, spec_next_block(c, keypair, node_id, genesis, timestamp)),
{
}

/// The block a leader makes next carries the leader's signature of that
/// block's own hash, so it is signed over exactly the header and body it
/// carries.
pub proof fn law_next_block_signed_over_own_hash(
    c: ChainView,
    keypair: Seq<u8>,
    node_id: u64,
    genesis: ConfigView,
    timestamp: u128,
)
    ensures
        ({
            let b = spec_next_block(c, keypair, node_id, genesis, timestamp);
            b.signature == ed25519_signature(keypair, encode_utf8(block_hash(b)))
        }),
{
}

/// Once committed, the block a leader makes next is the chain's new head, on
/// top of the blocks that were there, and no longer waits in the queue.
pub proof fn law_next_block_commits_to_head(
    c: ChainView,
    keypair: Seq<u8>,
    node_id: u64,
    genesis: ConfigView,
    timestamp: u128,
)
    ensures
        ({
            let b = spec_next_block(c, keypair, node_id, genesis, timestamp);
            let after = spec_commit_waiting(spec_add_uncommitted(c, b), block_hash(b));
            &&& after.blocks == c.blocks.push(b)
            &&& spec_chain_head(after) == Some(b)
            &&& after.uncommitted == c.uncommitted.remove(block_hash(b))
        }),
{
    let b = spec_next_block(c, keypair, node_id, genesis, timestamp);
    assert(c.uncommitted.insert(block_hash(b), b).remove(block_hash(b)) =~= c.uncommitted.remove(block_hash(b)));
}

/// The block a leader makes next is proposed by that leader.  After a head,
/// it is an ordinary block with the head's id plus one, the head's hash and
/// the size in bytes of the head's encoding; on an empty chain it is the
/// configuration block with id 1, previous hash "1", previous size 0 and
/// the genesis configuration.
pub proof fn law_next_block_id(c: ChainView, keypair: Seq<u8>, node_id: u64, genesis: ConfigView, timestamp: u128)
    requires
        spec_chain_head(c) matches Some(h) ==> h.header.block_id < u64::MAX,
    ensures
        ({
            let b = spec_next_block(c, keypair, node_id, genesis, timestamp);
            &&& b.header.proposer == node_id
            &&& b.header.timestamp == timestamp
            &&& match spec_chain_head(c) {
                Some(h) => {
                    &&& b.header.block_id == h.header.block_id + 1
                    &&& b.header.prev_block_hash == block_hash(h)
                    &&& b.header.prev_block_size == enc_block(h).len() as u64
                    &&& b.header.block_type == BlockType::Normal
                    &&& b.body == new_block_body(BlockType::Normal, b.header.block_id)
                },
                None => {
                    &&& b.header.block_id == 1
                    &&& b.header.prev_block_hash == seq!['1']
                    &&& b.header.prev_block_size == 0
                    &&& b.header.block_type == BlockType::Config
                    &&& b.body == BodyView::Config { config: genesis }
                },
            }
        }),
{
}

/// While its block waits for a commit, a leader makes no other block,
/// however long it waits.
pub proof fn law_no_block_while_proposing(is_leader: bool, elapsed_ms: u64)
    ensures
        !spec_should_create_block(is_leader, elapsed_ms, Some(LeaderState::Proposing)),
{
}

/// A leader that is not waiting for a commit makes a block exactly when at
/// least `BLOCK_INTERVAL` milliseconds (10 s) have passed, however long
/// beyond that; and once the decision is to make a block, waiting longer
/// does not change it.
pub proof fn law_leader_creates_after_interval(elapsed_ms: u64, later_ms: u64, leader_state: Option<LeaderState>)
    ensures
        !(leader_state matches Some(LeaderState::Proposing)) ==> (spec_should_create_block(true, elapsed_ms, leader_state)
            <==> elapsed_ms >= 10000),
        spec_should_create_block(true, elapsed_ms, leader_state) && elapsed_ms <= later_ms
            ==> spec_should_create_block(true, later_ms, leader_state),
{
}

/// Only the leader makes blocks.
pub proof fn law_only_leader_creates_blocks(elapsed_ms: u64, leader_state: Option<LeaderState>)
    ensures
        !spec_should_create_block(false, elapsed_ms, leader_state),
{
}

} // verus!
