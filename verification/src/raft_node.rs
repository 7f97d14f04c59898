//! The decisions of a node's Raft member: its settings, its role, what it
//! does with committed entries and with the block appends it receives.
//!
//! The Raft state machine itself runs outside the library; it hands these
//! functions what it decided (the node's role, the committed entries, the
//! messages it received) as plain values.

use vstd::prelude::*;
use std::time::Instant;
use crate::block::{ConfiglBlockBody, block_hash};
use crate::blockchain::{Blockchain, ChainView, spec_add_block, spec_remove_uncommitted};
use crate::electors::{elector_ids, key_order_ids};
use crate::messages::{
    BroadCastRequest, MessageTypeView, NetworkMessageType, NewBlockInfo, RaftLogEntry,
    RaftMessage, RequestBlockMessage, SendToRequest,
};
use crate::text::{decimal, decimal_string};

verus! {

broadcast use vstd::std_specs::btree::group_btree_axioms;

#[verifier::external_type_specification]
#[verifier::external_body]
pub struct ExInstant(std::time::Instant);

/// `Instant::now` of std.  Nothing is claimed of the value, which is read
/// from the machine's monotonic clock.
#[verifier::external_body]
fn instant_now() -> (t: Instant) {
    Instant::now()
}

#[verifier::external_type_specification]
#[verifier::external_body]
pub struct ExThreadRng(rand::rngs::ThreadRng);

/// `rand::thread_rng`: the thread's random number generator.  Nothing is
/// claimed of it.
#[verifier::external_body]
fn thread_rng() -> (rng: rand::rngs::ThreadRng) {
    rand::thread_rng()
}

/// `Rng::gen_range` of rand (version 0.7): a number in `low..high`.  Its
/// documentation says it panics when `low >= high`, which `requires` rules
/// out; which number of the range comes out is left to chance.
#[verifier::external_body]
fn gen_range(rng: &mut rand::rngs::ThreadRng, low: usize, high: usize) -> (n: usize)
    requires
        low < high,
    ensures
        low <= n < high,
{
    rand::Rng::gen_range(rng, low, high)
}

/// What the leader is doing: building the next block since an instant, or
/// waiting for its proposed block to be committed.
#[derive(Clone, Copy, Debug)]
pub enum LeaderState {
    Building(Instant),
    Proposing,
}

/// What a follower is doing.
#[derive(Clone, Copy, Debug, PartialEq, Eq, Structural)]
pub enum FollowerState {
    Idle,
}

/// The library's part of a Raft member: its id and what it is doing as
/// leader or as follower.
#[derive(Debug)]
pub struct RaftNode {
    pub id: u64,
    pub leader_state: Option<LeaderState>,
    pub follower_state: Option<FollowerState>,
}

/// The settings a Raft member starts with.
#[derive(Clone, Debug)]
pub struct RaftSettings {
    pub id: u64,
    pub election_tick: usize,
    pub heartbeat_tick: usize,
    pub pre_vote: bool,
    pub tag: String,
    pub peers: Vec<u64>,
}

/// The ticks between heartbeats.
pub const HEARTBEAT_TICK: usize = 30;

/// The least election timeout, in ticks.
pub const ELECTION_TICK_MIN: usize = 300;

/// One more than the greatest election timeout, in ticks.
pub const ELECTION_TICK_END: usize = 1000;

/// The log tag of member `id`: "raft_node" and the id in decimal.
pub open spec fn raft_tag(id: u64) -> Seq<char> {
    seq!['r', 'a', 'f', 't', '_', 'n', 'o', 'd', 'e'] + decimal(id as nat)
}

/// The kinds of Raft protocol messages.
#[derive(Clone, Copy, Debug, PartialEq, Eq, Structural)]
pub enum RaftMessageKind {
    MsgHup,
    MsgBeat,
    MsgPropose,
    MsgAppend,
    MsgAppendResponse,
    MsgRequestVote,
    MsgRequestVoteResponse,
    MsgSnapshot,
    MsgHeartbeat,
    MsgHeartbeatResponse,
    MsgUnreachable,
    MsgSnapStatus,
    MsgCheckQuorum,
    MsgTransferLeader,
    MsgTimeoutNow,
    MsgReadIndex,
    MsgReadIndexResp,
    MsgRequestPreVote,
    MsgRequestPreVoteResponse,
}

/// The kinds of Raft log entries.
#[derive(Clone, Copy, Debug, PartialEq, Eq, Structural)]
pub enum EntryKind {
    EntryNormal,
    EntryConfChange,
    EntryConfChangeV2,
}

/// The kinds of membership change a configuration entry asks for.
#[derive(Clone, Copy, Debug, PartialEq, Eq, Structural)]
pub enum ConfChangeKind {
    AddNode,
    RemoveNode,
    AddLearnerNode,
}

/// What the Raft engine reports of a log entry: its kind, its term and its data.
#[derive(Clone, Debug)]
pub struct RaftEntry {
    pub entry_type: EntryKind,
    pub term: u64,
    pub data: Vec<u8>,
}

/// A change of the Raft membership for the engine to apply.
#[derive(Clone, Copy, Debug, PartialEq, Eq, Structural)]
pub enum MembershipChange {
    AddNode(u64),
    RemoveNode(u64),
    AddLearner(u64),
}

/// What to do with a committed entry.
#[derive(Debug)]
pub enum EntryDisposition {
    /// Nothing: the entry is empty, as those of a newly elected leader are.
    Skip,
    /// Apply the membership change that the entry's data encodes.
    ConfChange,
    /// Commit the block that the entry names.
    Block(RaftLogEntry),
    /// The data of a normal entry do not encode a log entry.
    Malformed,
}

/// What to do with a Raft message that arrived from a peer.
#[derive(Debug)]
pub enum ScreenOutcome {
    /// Hand it to the Raft engine.
    Step,
    /// Drop it, and ask every peer for the block it appends.
    Refuse(BroadCastRequest),
    /// The block append carries data that do not encode a log entry.
    Malformed,
}

/// What to do with a Raft message before stepping it into the engine.
#[derive(Clone, Copy, Debug, PartialEq, Eq, Structural)]
pub enum StepDecision {
    /// Step it into the running engine.
    Step,
    /// Start an engine for the message's receiver, then step it.
    InitializeThenStep,
    /// Drop it: no engine runs and the message cannot start one.
    Drop,
}

/// Whether a message can start a Raft member that does not run yet: a vote
/// or pre-vote request, or a heartbeat with commit index 0.
pub open spec fn spec_is_initial_msg(msg_type: RaftMessageKind, commit: u64) -> bool {
    ||| msg_type == RaftMessageKind::MsgRequestVote
    ||| msg_type == RaftMessageKind::MsgRequestPreVote
    ||| (msg_type == RaftMessageKind::MsgHeartbeat && commit == 0)
}

/// Whether a message asks a follower to append a block: an append whose
/// first entry is a normal entry with data.
pub open spec fn spec_is_block_append(is_follower: bool, msg_type: RaftMessageKind, first_entry: Option<RaftEntry>) -> bool {
    &&& is_follower
    &&& msg_type == RaftMessageKind::MsgAppend
    &&& first_entry matches Some(e)
    &&& e.data@.len() > 0
    &&& e.entry_type == EntryKind::EntryNormal
}

/// The membership change a configuration entry of term `term` leads to: a
/// node added in the first term is already a member from the start, so
/// that entry changes nothing.
pub open spec fn spec_conf_change_action(kind: ConfChangeKind, node_id: u64, term: u64) -> Option<MembershipChange> {
    match kind {
        ConfChangeKind::AddNode => if term != 1 {
            Some(MembershipChange::AddNode(node_id))
        } else {
            None
        },
        ConfChangeKind::RemoveNode => Some(MembershipChange::RemoveNode(node_id)),
        ConfChangeKind::AddLearnerNode => Some(MembershipChange::AddLearner(node_id)),
    }
}

/// The announcement that node `from` holds block `b`.
pub open spec fn announce_view(from: u64, b: crate::block::BlockView) -> MessageTypeView {
    MessageTypeView::BlockNew { from, block_id: b.header.block_id, block_hash: block_hash(b) }
}

/// The chain after the waiting block with hash `h` is committed: it leaves
/// the queue and joins the chain.
pub open spec fn spec_commit_waiting(c: ChainView, h: Seq<char>) -> ChainView {
    spec_add_block(spec_remove_uncommitted(c, h), c.uncommitted[h])
}

/// Committing a waiting block makes it the chain's head, takes it out of the
/// queue, and leaves it known by its hash.
pub proof fn law_commit_makes_head(c: ChainView, h: Seq<char>)
    requires
        c.uncommitted.contains_key(h),
    ensures
        spec_commit_waiting(c, h).blocks == c.blocks.push(c.uncommitted[h]),
        spec_commit_waiting(c, h).uncommitted == c.uncommitted.remove(h),
        crate::blockchain::spec_is_known(spec_commit_waiting(c, h), block_hash(c.uncommitted[h])),
{
}

/// Only a follower's append whose first entry is a normal entry with data is
/// screened as a block append: an entry without data (the empty entry a
/// newly elected leader appends), a configuration entry, a message of any
/// other kind, or a message to a member that is not a follower is stepped
/// as it is.
pub proof fn law_block_append_needs_data(is_follower: bool, msg_type: RaftMessageKind, first_entry: Option<RaftEntry>)
    ensures
        spec_is_block_append(is_follower, msg_type, first_entry) ==> {
            &&& is_follower
            &&& msg_type == RaftMessageKind::MsgAppend
            &&& first_entry is Some
            &&& first_entry->0.data@.len() > 0
            &&& first_entry->0.entry_type == EntryKind::EntryNormal
        },
{
}

/// Whether a message can start a Raft member that does not run yet.
pub fn is_initial_msg(msg_type: RaftMessageKind, commit: u64) -> (initial: bool)
    ensures
        initial == spec_is_initial_msg(msg_type, commit),
{
    msg_type == RaftMessageKind::MsgRequestVote
        || msg_type == RaftMessageKind::MsgRequestPreVote
        || (msg_type == RaftMessageKind::MsgHeartbeat && commit == 0)
}

/// What to do with a Raft message: step it into the running engine; with no
/// engine, start one first if the message can start it, else drop it.
pub fn step_decision(initialized: bool, msg_type: RaftMessageKind, commit: u64) -> (d: StepDecision)
    ensures
        d == (if initialized {
            StepDecision::Step
        } else if spec_is_initial_msg(msg_type, commit) {
            StepDecision::InitializeThenStep
        } else {
            StepDecision::Drop
        }),
{
    if initialized {
        StepDecision::Step
    } else if is_initial_msg(msg_type, commit) {
        StepDecision::InitializeThenStep
    } else {
        StepDecision::Drop
    }
}

/// The membership change a configuration entry of term `term` leads to.
pub fn conf_change_action(kind: ConfChangeKind, node_id: u64, term: u64) -> (action: Option<MembershipChange>)
    ensures
        action == spec_conf_change_action(kind, node_id, term),
{
    match kind {
        ConfChangeKind::AddNode => if term != 1 {
            Some(MembershipChange::AddNode(node_id))
        } else {
            None
        },
        ConfChangeKind::RemoveNode => Some(MembershipChange::RemoveNode(node_id)),
        ConfChangeKind::AddLearnerNode => Some(MembershipChange::AddLearner(node_id)),
    }
}

/// What to do with a committed entry: an empty one is skipped, a
/// configuration entry changes the membership, and a normal one commits the
/// block whose id and hash its data encode.
pub fn entry_disposition(entry: &RaftEntry) -> (d: EntryDisposition)
    ensures
        entry.data@.len() == 0 ==> d is Skip,
        entry.data@.len() > 0 && entry.entry_type != EntryKind::EntryNormal ==> d is ConfChange,
        entry.data@.len() > 0 && entry.entry_type == EntryKind::EntryNormal ==> match d {
            EntryDisposition::Block(e) => crate::messages::spec_decode_log_entry(entry.data@) == Some(e@),
            EntryDisposition::Malformed => crate::messages::spec_decode_log_entry(entry.data@) is None,
            _ => false,
        },
{
    if entry.data.len() == 0 {
        EntryDisposition::Skip
    } else if entry.entry_type != EntryKind::EntryNormal {
        EntryDisposition::ConfChange
    } else {
        match RaftLogEntry::decode(entry.data.as_slice()) {
            Some(e) => EntryDisposition::Block(e),
            None => EntryDisposition::Malformed,
        }
    }
}

impl RaftNode {
    /// A member with id `id` that is no leader and an idle follower.
    pub fn new(id: u64) -> (n: RaftNode)
        ensures
            n.id == id,
            n.leader_state is None,
            n.follower_state == Some(FollowerState::Idle),
    {
        RaftNode { id, leader_state: None, follower_state: Some(FollowerState::Idle) }
    }

    /// The settings of member `id` under the genesis configuration: an
    /// election timeout drawn from 300..1000 ticks, a heartbeat every 30
    /// ticks, pre-vote on, and every elector of the genesis configuration as
    /// a peer, in increasing order of id.
    pub fn settings(id: u64, genesis_config: &ConfiglBlockBody) -> (s: RaftSettings)
        ensures
            s.id == id,
            ELECTION_TICK_MIN <= s.election_tick < ELECTION_TICK_END,
            s.heartbeat_tick == HEARTBEAT_TICK,
            s.pre_vote,
            s.tag@ == raft_tag(id),
            s.peers@ == key_order_ids(genesis_config@.electors),
    {
        let mut rng = thread_rng();
        let election_tick = gen_range(&mut rng, ELECTION_TICK_MIN, ELECTION_TICK_END);
        let mut tag = String::from_str("raft_node");
        proof {
            reveal_strlit("raft_node");
        }
        let digits = decimal_string(id as u128);
        tag.append(digits.as_str());
        let peers = elector_ids(&genesis_config.list_of_elector_nodes);
        RaftSettings { id, election_tick, heartbeat_tick: HEARTBEAT_TICK, pre_vote: true, tag, peers }
    }

    /// The settings of a member started by a message to `to`: an election
    /// timeout of 100 ticks, a heartbeat every 3 ticks, pre-vote on, no peers.
    pub fn settings_from_message(to: u64) -> (s: RaftSettings)
        ensures
            s.id == to,
            s.election_tick == 100,
            s.heartbeat_tick == 3,
            s.pre_vote,
            s.tag@ == raft_tag(to),
            s.peers@ == Seq::<u64>::empty(),
    {
        let mut tag = String::from_str("raft_node");
        proof {
            reveal_strlit("raft_node");
        }
        let digits = decimal_string(to as u128);
        tag.append(digits.as_str());
        RaftSettings { id: to, election_tick: 100, heartbeat_tick: 3, pre_vote: true, tag, peers: Vec::new() }
    }

    /// Brings the leader and follower states in line with the member's role
    /// after a Raft round: a member that has just become leader starts
    /// building a block now; one that has lost leadership drops its leader
    /// state and idles as follower.
    pub fn update_role(&mut self, is_leader: bool)
        ensures
            final(self).id == old(self).id,
            if is_leader && old(self).leader_state is None {
                &&& final(self).leader_state matches Some(LeaderState::Building(_))
                &&& final(self).follower_state == old(self).follower_state
            } else if !is_leader && old(self).leader_state is Some {
                &&& final(self).leader_state is None
                &&& final(self).follower_state == Some(FollowerState::Idle)
            } else {
                &&& final(self).leader_state == old(self).leader_state
                &&& final(self).follower_state == old(self).follower_state
            },
    {
        if is_leader && self.leader_state.is_none() {
            self.leader_state = Some(LeaderState::Building(instant_now()));
        }
        if !is_leader && self.leader_state.is_some() {
            self.leader_state = None;
            self.follower_state = Some(FollowerState::Idle);
        }
    }

    /// The request to send an encoded Raft message to node `to`.
    pub fn outgoing_message(to: u64, content: Vec<u8>) -> (r: SendToRequest)
        ensures
            r.to == to,
            r.data@ == (MessageTypeView::RaftMessage { content: content@ }),
    {
        SendToRequest::new(to, NetworkMessageType::RaftMessage(RaftMessage::new(content)))
    }

    /// Commits the block that a committed entry names.  If the block waits
    /// in the queue, it leaves the queue, joins the chain and is announced to
    /// every peer, and a leader starts building its next block.  A follower
    /// that does not hold the block changes nothing; a leader always holds
    /// the blocks it proposed.
    pub fn apply_committed_block(&mut self, blockchain: &mut Blockchain, entry: &RaftLogEntry, is_leader: bool)
        -> (announce: Option<BroadCastRequest>)
        requires
            is_leader ==> old(blockchain)@.uncommitted.contains_key(entry.block_hash@),
        ensures
            final(self).id == old(self).id,
            final(self).follower_state == old(self).follower_state,
            if old(blockchain)@.uncommitted.contains_key(entry.block_hash@) {
                &&& final(blockchain)@ == spec_commit_waiting(old(blockchain)@, entry.block_hash@)
                &&& announce matches Some(r)
                &&& r.data@ == announce_view(old(self).id, old(blockchain)@.uncommitted[entry.block_hash@])
                &&& if is_leader {
                    final(self).leader_state matches Some(LeaderState::Building(_))
                } else {
                    final(self).leader_state == old(self).leader_state
                }
            } else {
                &&& final(blockchain)@ == old(blockchain)@
                &&& announce is None
                &&& final(self).leader_state == old(self).leader_state
            },
    {
        if !blockchain.is_uncommitted(&entry.block_hash) {
            return None;
        }
        match blockchain.remove_from_uncommitted_block_que(&entry.block_hash) {
            Some(block) => {
                let block_id = block.header.block_id;
                let hash = block.hash();
                blockchain.add_block(block);
                if is_leader {
                    self.leader_state = Some(LeaderState::Building(instant_now()));
                }
                let info = NewBlockInfo::new(self.id, block_id, hash);
                Some(BroadCastRequest::new(NetworkMessageType::BlockNew(info)))
            },
            None => None,
        }
    }

    /// Whether a follower takes a block append for the block `raft_log_entry`
    /// names: it does when the block waits in its queue.  When it does not,
    /// the append is refused and every peer is asked for the block.
    pub fn handle_block_append_request(&self, blockchain: &Blockchain, raft_log_entry: RaftLogEntry)
        -> (res: (bool, Option<BroadCastRequest>))
        ensures
            res.0 == blockchain@.uncommitted.contains_key(raft_log_entry.block_hash@),
            res.0 ==> res.1 is None,
            !res.0 ==> (res.1 matches Some(r) && r.data@ == (MessageTypeView::RequestBlock {
                requester_id: self.id,
                block_id: raft_log_entry.block_id,
                block_hash: raft_log_entry.block_hash@,
            })),
    {
        if blockchain.is_uncommitted(&raft_log_entry.block_hash) {
            (true, None)
        } else {
            let request = RequestBlockMessage::new(self.id, raft_log_entry.block_id, raft_log_entry.block_hash);
            (false, Some(BroadCastRequest::new(NetworkMessageType::RequestBlock(request))))
        }
    }

    /// What to do with a Raft message from a peer: a block append to a
    /// follower is stepped only when the follower holds the block; every
    /// other message is stepped.
    pub fn screen_raft_message(
        &self,
        blockchain: &Blockchain,
        is_follower: bool,
        msg_type: RaftMessageKind,
        first_entry: Option<RaftEntry>,
    ) -> (o: ScreenOutcome)
        ensures
            (first_entry matches Some(e) && e.data@.len() == 0) ==> o is Step,
            !is_follower || msg_type != RaftMessageKind::MsgAppend || first_entry is None ==> o is Step,
            !spec_is_block_append(is_follower, msg_type, first_entry) ==> o is Step,
            spec_is_block_append(is_follower, msg_type, first_entry) ==> match crate::messages::spec_decode_log_entry(
                first_entry->0.data@,
            ) {
                None => o is Malformed,
                Some(le) => if blockchain@.uncommitted.contains_key(le.block_hash) {
                    o is Step
                } else {
                    (o matches ScreenOutcome::Refuse(r) && r.data@ == (MessageTypeView::RequestBlock {
                        requester_id: self.id,
                        block_id: le.block_id,
                        block_hash: le.block_hash,
                    }))
                },
            },
    {
        let append = match &first_entry {
            Some(e) => is_follower && msg_type == RaftMessageKind::MsgAppend && e.data.len() > 0
                && e.entry_type == EntryKind::EntryNormal,
            None => false,
        };
        if !append {
            return ScreenOutcome::Step;
        }
        let entry = first_entry.unwrap();
        match RaftLogEntry::decode(entry.data.as_slice()) {
            None => ScreenOutcome::Malformed,
            Some(le) => {
                let (accepted, request) = self.handle_block_append_request(blockchain, le);
                if accepted {
                    ScreenOutcome::Step
                } else {
                    match request {
                        Some(r) => ScreenOutcome::Refuse(r),
                        None => ScreenOutcome::Step,
                    }
                }
            },
        }
    }
}

} // verus!
