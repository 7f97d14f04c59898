use std::collections::{BTreeMap, HashMap};

use raft_blockchain::block::{Block, BlockType, ConfiglBlockBody};
use raft_blockchain::blockchain::Blockchain;
use raft_blockchain::config::NodeConfig;
use raft_blockchain::crypto::KeyPair;
use raft_blockchain::message_decoding::decode_frame;
use raft_blockchain::messages::{
    BroadCastRequest, NetworkManagerMessage, NetworkMessage, SendToRequest, NetworkMessageType, NewBlockInfo, NodeMessage, RaftMessage,
    RaftNodeMessage, RequestBlockMessage,
};
use raft_blockchain::network::{
    broadcast_frames, frame_for, frames_for_request, listen_endpoint, peer_endpoint, route_received_message,
};
use raft_blockchain::node::{bytes_equal, Node, NodeAction};

fn key_pair(seed: u8) -> (KeyPair, Vec<u8>) {
    let secret = ed25519_dalek::SecretKey::from_bytes(&[seed; 32]).unwrap();
    let public: ed25519_dalek::PublicKey = (&secret).into();
    let kp = KeyPair::from_parts(secret.as_bytes(), public.as_bytes()).unwrap();
    (kp, public.as_bytes().to_vec())
}

fn config(node_id: u64, seed: u8, electors: BTreeMap<u64, Vec<u8>>) -> NodeConfig {
    let (kp, _) = key_pair(seed);
    NodeConfig { node_id, key_pair: kp, nodes_to_connect: HashMap::new(), electors, pace_of_block_creation: 10000 }
}

fn electors() -> BTreeMap<u64, Vec<u8>> {
    let mut m = BTreeMap::new();
    m.insert(1u64, key_pair(1).1);
    m.insert(2u64, key_pair(2).1);
    m
}

fn block_by(proposer: u64, seed: u8, id: u64) -> Block {
    let (kp, _) = key_pair(seed);
    Block::new_at(id, 1, BlockType::Normal, 0, "1".to_string(), proposer, &kp, 5)
}

#[test]
fn elector_node_needs_its_own_public_key_in_genesis() {
    let genesis = ConfiglBlockBody::new(electors(), 10000, 1500, 15000, 50000);
    assert!(Node::new(config(1, 1, electors())).is_elector_node(&genesis));
    assert!(!Node::new(config(1, 3, electors())).is_elector_node(&genesis));
    assert!(!Node::new(config(9, 1, electors())).is_elector_node(&genesis));
}

#[test]
fn announced_unknown_block_is_requested_from_its_announcer() {
    let node = Node::new(config(1, 1, electors()));
    let mut chain = Blockchain::new();
    let info = NewBlockInfo::new(2, 8, "abc".to_string());
    let actions = node.handle_message(&mut chain, NodeMessage::BlockNew(info));
    assert_eq!(actions.len(), 1);
    match &actions[0] {
        NodeAction::ToNetwork(NetworkManagerMessage::SendToRequest(r)) => {
            assert_eq!(r.to, 2);
            match &r.data {
                NetworkMessageType::RequestBlock(q) => {
                    assert_eq!(q.requester_id, 1);
                    assert_eq!(q.block_id, 8);
                    assert_eq!(q.block_hash, "abc");
                },
                _ => panic!("expected a block request"),
            }
        },
        _ => panic!("expected a send"),
    }
}

#[test]
fn announced_known_block_is_ignored() {
    let node = Node::new(config(1, 1, electors()));
    let mut chain = Blockchain::new();
    let b = block_by(2, 2, 1);
    let h = b.hash();
    chain.add_block(b);
    let actions = node.handle_message(&mut chain, NodeMessage::BlockNew(NewBlockInfo::new(2, 1, h)));
    assert!(actions.is_empty());
}

#[test]
fn raft_messages_go_to_the_engine_only_if_there_is_one() {
    let mut node = Node::new(config(1, 1, electors()));
    let mut chain = Blockchain::new();
    let m = RaftMessage::new(vec![1, 2, 3]);
    assert!(node.handle_message(&mut chain, NodeMessage::RaftMessage(m.clone())).is_empty());
    node.attach_raft_engine();
    let actions = node.handle_message(&mut chain, NodeMessage::RaftMessage(m));
    assert_eq!(actions.len(), 1);
    match &actions[0] {
        NodeAction::ToRaft(RaftNodeMessage::RaftMessage(r)) => assert_eq!(r.content, vec![1, 2, 3]),
        _ => panic!("expected a Raft message"),
    }
}

#[test]
fn block_request_is_answered_when_the_block_is_found() {
    let node = Node::new(config(1, 1, electors()));
    let mut chain = Blockchain::new();
    let b = block_by(2, 2, 1);
    let h = b.hash();
    chain.add_block(b);
    let found = node.handle_message(&mut chain, NodeMessage::RequestBlock(RequestBlockMessage::new(2, 1, h.clone())));
    assert_eq!(found.len(), 1);
    match &found[0] {
        NodeAction::ToNetwork(NetworkManagerMessage::SendToRequest(r)) => {
            assert_eq!(r.to, 2);
            match &r.data {
                NetworkMessageType::RequestBlockResponse(b) => assert_eq!(b.hash(), h),
                _ => panic!("expected a block"),
            }
        },
        _ => panic!("expected a send"),
    }
    let missing = node.handle_message(&mut chain, NodeMessage::RequestBlock(RequestBlockMessage::new(2, 7, "x".to_string())));
    assert!(missing.is_empty());
}

#[test]
fn valid_received_block_waits_goes_to_the_engine_and_is_announced() {
    let mut node = Node::new(config(1, 1, electors()));
    node.attach_raft_engine();
    let mut chain = Blockchain::new();
    let b = block_by(2, 2, 4);
    let h = b.hash();
    let actions = node.handle_message(&mut chain, NodeMessage::RequestBlockResponse(b));
    assert!(chain.is_uncommitted(&h));
    assert_eq!(actions.len(), 2);
    match &actions[0] {
        NodeAction::ToRaft(RaftNodeMessage::BlockNew(b)) => assert_eq!(b.hash(), h),
        _ => panic!("expected the block for the engine"),
    }
    match &actions[1] {
        NodeAction::ToNetwork(NetworkManagerMessage::BroadCastRequest(r)) => match &r.data {
            NetworkMessageType::BlockNew(i) => {
                assert_eq!(i.from, 1);
                assert_eq!(i.block_id, 4);
                assert_eq!(i.block_hash, h);
            },
            _ => panic!("expected an announcement"),
        },
        _ => panic!("expected a broadcast"),
    }
    let again = node.handle_message(&mut chain, NodeMessage::RequestBlockResponse(block_by(2, 2, 4)));
    assert!(again.is_empty());
}

#[test]
fn received_block_not_signed_by_an_elector_is_dropped() {
    let node = Node::new(config(1, 1, electors()));
    let mut chain = Blockchain::new();
    let forged = block_by(2, 9, 4);
    let h = forged.hash();
    let actions = node.handle_message(&mut chain, NodeMessage::RequestBlockResponse(forged));
    assert!(actions.is_empty());
    assert!(!chain.is_known_block(&h));
}

#[test]
fn bytes_equal_compares_contents() {
    assert!(bytes_equal(&[1, 2], &[1, 2]));
    assert!(!bytes_equal(&[1, 2], &[1, 3]));
    assert!(!bytes_equal(&[1], &[1, 2]));
}

#[test]
fn a_sent_frame_decodes_to_the_signed_message() {
    let (kp, public) = key_pair(1);
    let data = NetworkMessageType::RaftMessage(RaftMessage::new(vec![9, 8, 7]));
    let frame = frame_for(1, 2, &data, &kp);
    let m = decode_frame(&frame).unwrap();
    assert_eq!(m.from, 1);
    assert_eq!(m.to, 2);
    assert!(m.check_signature(&public));
    match &m.message_type {
        NetworkMessageType::RaftMessage(r) => assert_eq!(r.content, vec![9, 8, 7]),
        _ => panic!("expected a Raft message"),
    }
    let direct = NetworkMessage::new(1, 2, data, &kp);
    assert_eq!(direct.serialize(), frame);
    assert_eq!(direct.signature.len(), 64);
}

#[test]
fn a_block_in_a_frame_decodes_with_its_hash() {
    let (kp, _) = key_pair(2);
    let mut electors = BTreeMap::new();
    electors.insert(2u64, key_pair(2).1);
    let genesis = Block::genesis_at(ConfiglBlockBody::new(electors, 1, 2, 3, 4), 2, &kp, 9);
    let h = genesis.hash();
    let frame = frame_for(2, 3, &NetworkMessageType::RequestBlockResponse(genesis), &kp);
    let m = decode_frame(&frame).unwrap();
    match m.message_type {
        NetworkMessageType::RequestBlockResponse(b) => {
            assert_eq!(b.hash(), h);
            assert_eq!(b.header.block_id, 1);
        },
        _ => panic!("expected a block"),
    }
}

#[test]
fn truncated_or_unknown_frames_do_not_decode() {
    let (kp, _) = key_pair(1);
    let frame = frame_for(1, 2, &NetworkMessageType::BlockNew(NewBlockInfo::new(1, 2, "h".to_string())), &kp);
    assert!(decode_frame(&frame[..frame.len() - 1]).is_none());
    let mut unknown = frame.clone();
    unknown[16] = 9;
    assert!(decode_frame(&unknown).is_none());
    assert!(decode_frame(&[]).is_none());
}

#[test]
fn a_frame_whose_signature_ed25519_refuses_does_not_decode() {
    let (kp, _) = key_pair(1);
    let frame = frame_for(1, 2, &NetworkMessageType::RaftMessage(RaftMessage::new(vec![])), &kp);
    let mut bad = frame.clone();
    let last = bad.len() - 1;
    bad[last] |= 0xE0;
    assert!(decode_frame(&frame).is_some());
    assert!(decode_frame(&bad).is_none());
}

#[test]
fn broadcast_makes_one_frame_per_peer() {
    let (kp, _) = key_pair(1);
    let data = NetworkMessageType::BlockNew(NewBlockInfo::new(1, 2, "h".to_string()));
    let frames = broadcast_frames(1, &vec![2, 3], &data, &kp);
    assert_eq!(frames.len(), 2);
    assert_eq!(frames[0].0, 2);
    assert_eq!(frames[1].0, 3);
    assert_eq!(decode_frame(&frames[1].1).unwrap().to, 3);
}

#[test]
fn raft_messages_reach_the_node_only_from_electors_with_good_signatures() {
    let data = NetworkMessageType::RaftMessage(RaftMessage::new(vec![1]));
    let (kp1, _) = key_pair(1);
    let (kp3, _) = key_pair(3);
    let good = NetworkMessage::new(1, 2, data.clone(), &kp1);
    assert!(matches!(route_received_message(good, &electors()), Some(NodeMessage::RaftMessage(_))));
    let forged = NetworkMessage::new(1, 2, data.clone(), &kp3);
    assert!(route_received_message(forged, &electors()).is_none());
    let stranger = NetworkMessage::new(3, 2, data, &kp3);
    assert!(route_received_message(stranger, &electors()).is_none());
    let announce = NetworkMessage::new(3, 2, NetworkMessageType::BlockNew(NewBlockInfo::new(3, 1, "h".to_string())), &kp3);
    assert!(matches!(route_received_message(announce, &electors()), Some(NodeMessage::BlockNew(_))));
}

#[test]
fn endpoints_name_address_and_port() {
    assert_eq!(peer_endpoint("10.0.0.2", 4002), "tcp://10.0.0.2:4002");
    assert_eq!(listen_endpoint(4001), "tcp://*:4001");
}

#[test]
fn a_message_signed_with_a_generated_key_pair_checks_under_its_public_key() {
    let kp = KeyPair::generate();
    let m = NetworkMessage::new(4, 5, NetworkMessageType::RaftMessage(RaftMessage::new(vec![1, 2])), &kp);
    assert!(m.check_signature(&kp.public_key()));
    let mut electors = BTreeMap::new();
    electors.insert(4u64, kp.public_key());
    assert!(route_received_message(m, &electors).is_some());
}

#[test]
fn a_request_to_one_peer_makes_one_frame_and_a_broadcast_one_per_peer() {
    let (kp, _) = key_pair(1);
    let data = NetworkMessageType::BlockNew(NewBlockInfo::new(1, 2, "h".to_string()));
    let one = frames_for_request(1, &vec![2, 3, 4], &NetworkManagerMessage::SendToRequest(SendToRequest::new(9, data.clone())), &kp);
    assert_eq!(one.len(), 1);
    assert_eq!(one[0].0, 9);
    assert_eq!(one[0].1, frame_for(1, 9, &data, &kp));
    let all = frames_for_request(1, &vec![2, 3, 4], &NetworkManagerMessage::BroadCastRequest(BroadCastRequest::new(data.clone())), &kp);
    assert_eq!(all.iter().map(|f| f.0).collect::<Vec<u64>>(), vec![2, 3, 4]);
    assert_eq!(all[2].1, frame_for(1, 4, &data, &kp));
}
