use std::collections::{BTreeMap, HashMap, VecDeque};

use raft_blockchain::block::{Block, BlockType, ConfiglBlockBody};
use raft_blockchain::blockchain::Blockchain;
use raft_blockchain::config::NodeConfig;
use raft_blockchain::crypto::KeyPair;
use raft_blockchain::messages::{write_block, NetworkMessageType, RaftLogEntry};
use raft_blockchain::proposal::{ConfChangeRequest, Proposal, ProposalPayload};
use raft_blockchain::raft_engine::{
    add_new_node, first_unproposed, should_create_block, should_tick, RaftEngine, BLOCK_INTERVAL, RAFT_TICK_TIMEOUT,
};
use raft_blockchain::raft_node::{
    conf_change_action, entry_disposition, is_initial_msg, step_decision, ConfChangeKind, EntryDisposition,
    EntryKind, FollowerState, LeaderState, MembershipChange, RaftEntry, RaftMessageKind, RaftNode, ScreenOutcome,
    StepDecision, ELECTION_TICK_END, ELECTION_TICK_MIN, HEARTBEAT_TICK,
};

fn key_pair(seed: u8) -> (KeyPair, Vec<u8>) {
    let secret = ed25519_dalek::SecretKey::from_bytes(&[seed; 32]).unwrap();
    let public: ed25519_dalek::PublicKey = (&secret).into();
    let kp = KeyPair::from_parts(secret.as_bytes(), public.as_bytes()).unwrap();
    (kp, public.as_bytes().to_vec())
}

fn genesis_config() -> ConfiglBlockBody {
    let mut m = BTreeMap::new();
    m.insert(30u64, key_pair(3).1);
    m.insert(10u64, key_pair(1).1);
    m.insert(20u64, key_pair(2).1);
    ConfiglBlockBody::new(m, 10000, 1500, 15000, 50000)
}

fn node_config(node_id: u64, seed: u8) -> NodeConfig {
    NodeConfig {
        node_id,
        key_pair: key_pair(seed).0,
        nodes_to_connect: HashMap::new(),
        electors: genesis_config().list_of_elector_nodes,
        pace_of_block_creation: 10000,
    }
}

fn block(id: u64) -> Block {
    Block::new_at(id, 1, BlockType::Normal, 0, "1".to_string(), 10, &key_pair(1).0, 3)
}

#[test]
fn settings_draw_an_election_tick_and_list_electors_in_order() {
    let s = RaftNode::settings(10, &genesis_config());
    assert_eq!(s.id, 10);
    assert!(ELECTION_TICK_MIN <= s.election_tick && s.election_tick < ELECTION_TICK_END);
    assert_eq!(s.heartbeat_tick, HEARTBEAT_TICK);
    assert_eq!(s.heartbeat_tick, 30);
    assert!(s.pre_vote);
    assert_eq!(s.tag, "raft_node10");
    assert_eq!(s.peers, vec![10, 20, 30]);
}

#[test]
fn settings_from_a_message_start_a_lone_member() {
    let s = RaftNode::settings_from_message(7);
    assert_eq!(s.id, 7);
    assert_eq!(s.election_tick, 100);
    assert_eq!(s.heartbeat_tick, 3);
    assert_eq!(s.tag, "raft_node7");
    assert!(s.peers.is_empty());
}

#[test]
fn new_member_is_an_idle_follower() {
    let n = RaftNode::new(4);
    assert_eq!(n.id, 4);
    assert!(n.leader_state.is_none());
    assert_eq!(n.follower_state, Some(FollowerState::Idle));
}

#[test]
fn role_changes_set_leader_and_follower_states() {
    let mut n = RaftNode::new(4);
    n.update_role(true);
    assert!(matches!(n.leader_state, Some(LeaderState::Building(_))));
    n.leader_state = Some(LeaderState::Proposing);
    n.update_role(true);
    assert!(matches!(n.leader_state, Some(LeaderState::Proposing)));
    n.follower_state = None;
    n.update_role(false);
    assert!(n.leader_state.is_none());
    assert_eq!(n.follower_state, Some(FollowerState::Idle));
}

#[test]
fn initial_messages_are_votes_and_first_heartbeats() {
    assert!(is_initial_msg(RaftMessageKind::MsgRequestVote, 5));
    assert!(is_initial_msg(RaftMessageKind::MsgRequestPreVote, 5));
    assert!(is_initial_msg(RaftMessageKind::MsgHeartbeat, 0));
    assert!(!is_initial_msg(RaftMessageKind::MsgHeartbeat, 1));
    assert!(!is_initial_msg(RaftMessageKind::MsgAppend, 0));
}

#[test]
fn step_decisions() {
    assert_eq!(step_decision(true, RaftMessageKind::MsgAppend, 3), StepDecision::Step);
    assert_eq!(step_decision(false, RaftMessageKind::MsgRequestVote, 3), StepDecision::InitializeThenStep);
    assert_eq!(step_decision(false, RaftMessageKind::MsgAppend, 3), StepDecision::Drop);
}

#[test]
fn membership_changes_of_configuration_entries() {
    assert_eq!(conf_change_action(ConfChangeKind::AddNode, 5, 1), None);
    assert_eq!(conf_change_action(ConfChangeKind::AddNode, 5, 2), Some(MembershipChange::AddNode(5)));
    assert_eq!(conf_change_action(ConfChangeKind::RemoveNode, 5, 1), Some(MembershipChange::RemoveNode(5)));
    assert_eq!(conf_change_action(ConfChangeKind::AddLearnerNode, 6, 9), Some(MembershipChange::AddLearner(6)));
}

#[test]
fn committed_entries_are_skipped_applied_or_refused() {
    let empty = RaftEntry { entry_type: EntryKind::EntryNormal, term: 1, data: vec![] };
    assert!(matches!(entry_disposition(&empty), EntryDisposition::Skip));
    let conf = RaftEntry { entry_type: EntryKind::EntryConfChange, term: 1, data: vec![1] };
    assert!(matches!(entry_disposition(&conf), EntryDisposition::ConfChange));
    let data = RaftLogEntry::new(3, "h".to_string()).encode();
    let normal = RaftEntry { entry_type: EntryKind::EntryNormal, term: 2, data };
    match entry_disposition(&normal) {
        EntryDisposition::Block(e) => {
            assert_eq!(e.block_id, 3);
            assert_eq!(e.block_hash, "h");
        },
        _ => panic!("expected a block entry"),
    }
    let junk = RaftEntry { entry_type: EntryKind::EntryNormal, term: 2, data: vec![1, 2] };
    assert!(matches!(entry_disposition(&junk), EntryDisposition::Malformed));
}

#[test]
fn committing_a_waiting_block_moves_it_to_the_chain_and_announces_it() {
    let mut n = RaftNode::new(10);
    let mut chain = Blockchain::new();
    let b = block(1);
    let h = b.hash();
    chain.add_to_uncommitted_block_que(b);
    n.leader_state = Some(LeaderState::Proposing);
    let announce = n.apply_committed_block(&mut chain, &RaftLogEntry::new(1, h.clone()), true).unwrap();
    assert!(!chain.is_uncommitted(&h));
    assert_eq!(chain.get_chain_head().unwrap().hash(), h);
    assert!(matches!(n.leader_state, Some(LeaderState::Building(_))));
    match announce.data {
        NetworkMessageType::BlockNew(i) => {
            assert_eq!(i.from, 10);
            assert_eq!(i.block_id, 1);
            assert_eq!(i.block_hash, h);
        },
        _ => panic!("expected an announcement"),
    }
}

#[test]
fn a_follower_without_the_committed_block_changes_nothing() {
    let mut n = RaftNode::new(20);
    let mut chain = Blockchain::new();
    let none = n.apply_committed_block(&mut chain, &RaftLogEntry::new(1, "h".to_string()), false);
    assert!(none.is_none());
    assert!(chain.get_chain_head().is_none());
    assert!(n.leader_state.is_none());
}

#[test]
fn follower_accepts_block_appends_only_for_blocks_it_holds() {
    let n = RaftNode::new(20);
    let mut chain = Blockchain::new();
    let b = block(2);
    let h = b.hash();
    let entry = RaftEntry { entry_type: EntryKind::EntryNormal, term: 2, data: RaftLogEntry::new(2, h.clone()).encode() };
    match n.screen_raft_message(&chain, true, RaftMessageKind::MsgAppend, Some(entry.clone())) {
        ScreenOutcome::Refuse(r) => match r.data {
            NetworkMessageType::RequestBlock(q) => {
                assert_eq!(q.requester_id, 20);
                assert_eq!(q.block_id, 2);
                assert_eq!(q.block_hash, h);
            },
            _ => panic!("expected a block request"),
        },
        _ => panic!("expected a refusal"),
    }
    chain.add_to_uncommitted_block_que(b);
    assert!(matches!(n.screen_raft_message(&chain, true, RaftMessageKind::MsgAppend, Some(entry.clone())), ScreenOutcome::Step));
    assert!(matches!(n.screen_raft_message(&Blockchain::new(), false, RaftMessageKind::MsgAppend, Some(entry)), ScreenOutcome::Step));
    assert!(matches!(n.screen_raft_message(&Blockchain::new(), true, RaftMessageKind::MsgHeartbeat, None), ScreenOutcome::Step));
    let junk = RaftEntry { entry_type: EntryKind::EntryNormal, term: 2, data: vec![0] };
    assert!(matches!(n.screen_raft_message(&Blockchain::new(), true, RaftMessageKind::MsgAppend, Some(junk)), ScreenOutcome::Malformed));
    let (accepted, request) = n.handle_block_append_request(&chain, RaftLogEntry::new(2, h));
    assert!(accepted);
    assert!(request.is_none());
}

#[test]
fn outgoing_raft_message_is_addressed() {
    let r = RaftNode::outgoing_message(3, vec![4, 5]);
    assert_eq!(r.to, 3);
    match r.data {
        NetworkMessageType::RaftMessage(m) => assert_eq!(m.content, vec![4, 5]),
        _ => panic!("expected a Raft message"),
    }
}

#[test]
fn block_proposal_payload_decodes_to_the_block() {
    let b = block(6);
    let h = b.hash();
    let (p, _rx) = Proposal::new_block(b);
    assert_eq!(p.proposed, 0);
    match p.payload() {
        ProposalPayload::Block(data) => {
            let e = RaftLogEntry::decode(&data).unwrap();
            assert_eq!(e.block_id, 6);
            assert_eq!(e.block_hash, h);
        },
        _ => panic!("expected a block payload"),
    }
    let cc = ConfChangeRequest { node_id: 4, change_type: ConfChangeKind::RemoveNode };
    let (q, _rx) = Proposal::conf_change(&cc);
    assert!(matches!(q.payload(), ProposalPayload::ConfChange(c) if c == cc));
}

#[test]
fn a_proposal_records_the_index_it_got() {
    let (mut p, _rx) = Proposal::new_block(block(1));
    p.record_proposed(5, 5);
    assert_eq!(p.proposed, 0);
    p.record_proposed(5, 6);
    assert_eq!(p.proposed, 5);
}

#[test]
fn the_engine_ticks_every_fifty_milliseconds() {
    assert_eq!(RAFT_TICK_TIMEOUT, 50);
    assert!(!should_tick(49));
    assert!(should_tick(50));
}

#[test]
fn a_leader_makes_a_block_every_ten_seconds_unless_proposing() {
    assert_eq!(BLOCK_INTERVAL, 10000);
    let building = Some(LeaderState::Building(std::time::Instant::now()));
    assert!(!should_create_block(true, 9999, &building));
    assert!(should_create_block(true, 10000, &building));
    assert!(should_create_block(true, 10000, &None));
    assert!(!should_create_block(true, 20000, &Some(LeaderState::Proposing)));
    assert!(!should_create_block(false, 20000, &building));
}

#[test]
fn proposals_to_make_start_after_those_made() {
    let mut q = VecDeque::new();
    assert_eq!(first_unproposed(&q), 0);
    let (mut a, _ra) = Proposal::new_block(block(1));
    a.proposed = 3;
    q.push_back(a);
    let (b, _rb) = Proposal::new_block(block(2));
    q.push_back(b);
    assert_eq!(first_unproposed(&q), 1);
}

#[test]
fn add_new_node_queues_a_membership_proposal() {
    let mut q = VecDeque::new();
    let _rx = add_new_node(&mut q, 8);
    assert_eq!(q.len(), 1);
    assert_eq!(q[0].conf_change, Some(ConfChangeRequest { node_id: 8, change_type: ConfChangeKind::AddNode }));
    assert!(q[0].block.is_none());
}

#[test]
fn the_first_block_is_genesis_and_the_next_follows_the_head() {
    let mut engine = RaftEngine::new(node_config(10, 1));
    let mut node = RaftNode::new(10);
    let mut chain = Blockchain::new();
    let genesis = genesis_config();
    let first = engine.create_next_block(&mut node, &mut chain, &genesis).unwrap();
    assert!(matches!(node.leader_state, Some(LeaderState::Proposing)));
    assert_eq!(engine.proposals_global.len(), 1);
    let g = engine.proposals_global[0].block.as_ref().unwrap().duplicate();
    assert_eq!(g.header.block_id, 1);
    assert_eq!(g.header.block_type, BlockType::Config);
    assert_eq!(g.header.prev_block_hash, "1");
    assert!(chain.is_uncommitted(&g.hash()));
    match first.data {
        NetworkMessageType::BlockNew(i) => {
            assert_eq!(i.from, 10);
            assert_eq!(i.block_hash, g.hash());
        },
        _ => panic!("expected an announcement"),
    }
    chain.add_block(g.duplicate());
    engine.create_next_block(&mut node, &mut chain, &genesis).unwrap();
    let next = engine.proposals_global[1].block.as_ref().unwrap().duplicate();
    assert_eq!(next.header.block_id, 2);
    assert_eq!(next.header.prev_block_hash, g.hash());
    assert_eq!(g.header.prev_block_size, 0);
    let mut encoded = Vec::new();
    write_block(&mut encoded, &g);
    assert_eq!(next.header.prev_block_size, encoded.len() as u64);
    assert!(next.header.prev_block_size > 0);
    assert!(chain.block_extends_chain_head(&next));
    assert_eq!(first_unproposed(&engine.proposals_global), 0);
    engine.record_block_proposal(0, 1, 2);
    assert_eq!(engine.proposals_global[0].proposed, 1);
    assert_eq!(first_unproposed(&engine.proposals_global), 1);
}

#[test]
fn membership_proposals_record_their_index() {
    let mut engine = RaftEngine::new(node_config(10, 1));
    let _rx = add_new_node(&mut engine.conf_change_proposals, 3);
    engine.record_conf_change_proposal(0, 4, 4);
    assert_eq!(engine.conf_change_proposals[0].proposed, 0);
    engine.record_conf_change_proposal(0, 4, 5);
    assert_eq!(engine.conf_change_proposals[0].proposed, 4);
}

#[test]
fn a_created_block_once_committed_is_the_new_head() {
    let mut engine = RaftEngine::new(node_config(10, 1));
    let mut node = RaftNode::new(10);
    let mut chain = Blockchain::new();
    let genesis = genesis_config();
    engine.create_next_block(&mut node, &mut chain, &genesis).unwrap();
    let data = match engine.proposals_global[0].payload() {
        ProposalPayload::Block(data) => data,
        _ => panic!("expected a block payload"),
    };
    let entry = RaftLogEntry::decode(&data).unwrap();
    let created = engine.proposals_global[0].block.as_ref().unwrap().hash();
    assert!(node.apply_committed_block(&mut chain, &entry, true).is_some());
    assert_eq!(chain.get_chain_head().unwrap().hash(), created);
    assert!(!chain.is_uncommitted(&created));
    assert!(chain.is_known_block(&created));
}

#[test]
fn the_next_block_at_a_given_time_is_stamped_with_it() {
    let mut engine = RaftEngine::new(node_config(10, 1));
    let mut node = RaftNode::new(10);
    let mut chain = Blockchain::new();
    let genesis = genesis_config();
    let first = engine.create_next_block_at(&mut node, &mut chain, &genesis, 42);
    let g = engine.proposals_global[0].block.as_ref().unwrap().duplicate();
    assert_eq!(g.header.timestamp, 42);
    assert_eq!(g.header.block_id, 1);
    match first.data {
        NetworkMessageType::BlockNew(i) => assert_eq!(i.block_hash, g.hash()),
        _ => panic!("expected an announcement"),
    }
    chain.add_block(g.duplicate());
    engine.create_next_block_at(&mut node, &mut chain, &genesis, 43);
    let next = engine.proposals_global[1].block.as_ref().unwrap().duplicate();
    assert_eq!(next.header.timestamp, 43);
    assert_eq!(next.header.block_id, 2);
    assert_eq!(next.header.prev_block_hash, g.hash());
}
