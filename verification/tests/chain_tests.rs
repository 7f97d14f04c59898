use std::collections::BTreeMap;

use raft_blockchain::block::{write_body, write_header, Block, BlockBody, BlockHeader, BlockType, ConfiglBlockBody, NormalBlockBody};
use raft_blockchain::blockchain::Blockchain;
use raft_blockchain::crypto::{sha256_hex, KeyPair};

fn key_pair(seed: u8) -> (KeyPair, Vec<u8>) {
    let secret = ed25519_dalek::SecretKey::from_bytes(&[seed; 32]).unwrap();
    let public: ed25519_dalek::PublicKey = (&secret).into();
    let kp = KeyPair::from_parts(secret.as_bytes(), public.as_bytes()).unwrap();
    (kp, public.as_bytes().to_vec())
}

fn block(id: u64, prev: &str, kp: &KeyPair) -> Block {
    Block::new_at(id, 1, BlockType::Normal, 0, prev.to_string(), 7, kp, 1_000 + id as u128)
}

#[test]
fn block_type_names() {
    assert_eq!(BlockType::Normal.name(), "Normal");
    assert_eq!(BlockType::Config.name(), "Config");
}

#[test]
fn normal_block_body_holds_its_text() {
    assert_eq!(NormalBlockBody::new("x".to_string()).text, "x");
    assert_eq!(NormalBlockBody::default().text, "");
}

#[test]
fn default_configuration_values() {
    let c = ConfiglBlockBody::default();
    assert!(c.list_of_elector_nodes.is_empty());
    assert_eq!(c.pace_of_block_creation, 10000);
    assert_eq!(c.heartbeat_frequency, 1500);
    assert_eq!(c.min_election_timeout, 15000);
    assert_eq!(c.max_election_timeout, 50000);
}

#[test]
fn new_block_says_its_id_and_hash_is_sha256_of_header_and_body() {
    let (kp, _) = key_pair(1);
    let b = block(5, "abc", &kp);
    match &b.block_body {
        BlockBody::Normal(n) => assert_eq!(n.text, "This is block with id 5"),
        _ => panic!("expected an ordinary body"),
    }
    let mut bytes = Vec::new();
    write_header(&mut bytes, &b.header);
    write_body(&mut bytes, &b.block_body);
    assert_eq!(b.hash(), sha256_hex(&bytes));
    assert_eq!(b.hash().len(), 64);
}

#[test]
fn new_config_block_carries_the_default_configuration() {
    let (kp, _) = key_pair(1);
    let b = Block::new_at(2, 1, BlockType::Config, 0, "p".to_string(), 3, &kp, 10);
    match &b.block_body {
        BlockBody::Config(c) => assert_eq!(c.pace_of_block_creation, 10000),
        _ => panic!("expected a configuration body"),
    }
}

#[test]
fn header_new_uses_the_clock() {
    let h = BlockHeader::new(1, 1, BlockType::Normal, 0, "x".to_string(), 2).unwrap();
    assert!(h.timestamp > 1_500_000_000);
    assert_eq!(h.prev_block_hash, "x");
    assert_eq!(h.proposer, 2);
}

#[test]
fn block_new_uses_the_clock() {
    let (kp, _) = key_pair(2);
    let b = Block::new(9, 1, BlockType::Normal, 0, "h".to_string(), 4, &kp).unwrap();
    assert!(b.header.timestamp > 1_500_000_000);
    assert_eq!(b.header.block_id, 9);
}

#[test]
fn genesis_block_fields() {
    let (kp, public) = key_pair(3);
    let mut electors = BTreeMap::new();
    electors.insert(11u64, public);
    let config = ConfiglBlockBody::new(electors, 10000, 1500, 15000, 50000);
    let g = Block::genesis_at(config, 11, &kp, 77);
    assert_eq!(g.header.block_id, 1);
    assert_eq!(g.header.epoch_seq_num, 1);
    assert_eq!(g.header.block_type, BlockType::Config);
    assert_eq!(g.header.prev_block_hash, "1");
    assert_eq!(g.header.proposer, 11);
    assert_eq!(g.header.timestamp, 77);
    let g2 = Block::genesis(ConfiglBlockBody::default(), 11, &kp).unwrap();
    assert!(g2.header.timestamp > 1_500_000_000);
}

#[test]
fn a_block_is_valid_only_under_its_proposers_key() {
    let (kp, public) = key_pair(4);
    let (_, other_public) = key_pair(5);
    let b = block(1, "1", &kp);
    let mut electors = BTreeMap::new();
    electors.insert(7u64, public.clone());
    assert!(b.is_valid(&electors));
    let mut wrong = BTreeMap::new();
    wrong.insert(7u64, other_public);
    assert!(!b.is_valid(&wrong));
    let mut missing = BTreeMap::new();
    missing.insert(8u64, public);
    assert!(!b.is_valid(&missing));
}

#[test]
fn a_tampered_block_is_not_valid() {
    let (kp, public) = key_pair(4);
    let mut b = block(1, "1", &kp);
    b.header.prev_block_hash = "2".to_string();
    let mut electors = BTreeMap::new();
    electors.insert(7u64, public);
    assert!(!b.is_valid(&electors));
}

#[test]
fn added_block_becomes_head_and_remove_head_undoes_it() {
    let (kp, _) = key_pair(6);
    let mut chain = Blockchain::new();
    assert!(chain.get_chain_head().is_none());
    let b1 = block(1, "1", &kp);
    let h1 = b1.hash();
    chain.add_block(b1);
    assert_eq!(chain.get_chain_head().unwrap().hash(), h1);
    let b2 = block(2, &h1, &kp);
    assert!(chain.block_extends_chain_head(&b2));
    let h2 = b2.hash();
    chain.add_block(b2);
    assert_eq!(chain.get_chain_head().unwrap().hash(), h2);
    chain.remove_head();
    assert_eq!(chain.get_chain_head().unwrap().hash(), h1);
    assert_eq!(chain.blocks.len(), 1);
    assert!(chain.is_known_block(&h2));
}

#[test]
fn a_block_that_names_another_hash_does_not_extend_the_head() {
    let (kp, _) = key_pair(6);
    let mut chain = Blockchain::new();
    let orphan = block(9, "nothing", &kp);
    assert!(chain.block_extends_chain_head(&orphan));
    chain.add_block(block(1, "1", &kp));
    assert!(!chain.block_extends_chain_head(&orphan));
}

#[test]
fn uncommitted_queue_reads_back_and_removes() {
    let (kp, _) = key_pair(7);
    let mut chain = Blockchain::new();
    let b = block(3, "x", &kp);
    let h = b.hash();
    assert!(!chain.is_known_block(&h));
    assert!(chain.add_to_uncommitted_block_que(b).is_none());
    assert!(chain.is_uncommitted(&h));
    assert!(chain.is_known_block(&h));
    assert!(chain.uncommited_block_queue.contains_key(&h));
    let again = block(3, "x", &kp);
    assert_eq!(chain.add_to_uncommitted_block_que(again).unwrap().hash(), h);
    let removed = chain.remove_from_uncommitted_block_que(&h).unwrap();
    assert_eq!(removed.hash(), h);
    assert!(!chain.is_uncommitted(&h));
    assert!(chain.remove_from_uncommitted_block_que(&h).is_none());
}

#[test]
fn find_block_by_id_in_chain_then_by_hash_in_queue() {
    let (kp, _) = key_pair(8);
    let mut chain = Blockchain::new();
    let b1 = block(1, "1", &kp);
    let h1 = b1.hash();
    chain.add_block(b1);
    let waiting = block(2, &h1, &kp);
    let hw = waiting.hash();
    chain.add_to_uncommitted_block_que(waiting);
    assert_eq!(chain.find_block(1, "whatever".to_string()).unwrap().hash(), h1);
    assert_eq!(chain.find_block(2, hw.clone()).unwrap().hash(), hw);
    assert!(chain.find_block(2, "unknown".to_string()).is_none());
}

#[test]
fn a_block_is_described_by_id_time_kind_and_hash_prefix() {
    let (kp, _) = key_pair(9);
    let b = block(3, "p", &kp);
    let expected = format!("Block-id[3], at: 1003, type: Normal, hash: {} ...", &b.hash()[0..5]);
    assert_eq!(b.describe(), expected);
}

#[test]
fn a_block_made_with_a_generated_key_pair_is_valid_under_its_public_key() {
    let kp = KeyPair::generate();
    let b = Block::new_at(1, 1, BlockType::Normal, 0, "1".to_string(), 5, &kp, 1);
    let mut electors = BTreeMap::new();
    electors.insert(5u64, kp.public_key());
    assert!(b.is_valid(&electors));
    let g = Block::genesis_at(ConfiglBlockBody::default(), 5, &kp, 2);
    assert!(g.is_valid(&electors));
}

#[test]
fn a_hash_stays_known_once_its_block_joined_the_chain() {
    let (kp, _) = key_pair(10);
    let mut chain = Blockchain::new();
    let b = block(1, "1", &kp);
    let hb = b.hash();
    chain.add_block(b);
    chain.remove_head();
    assert!(chain.is_known_block(&hb));
    let w = block(2, "x", &kp);
    let hw = w.hash();
    chain.add_to_uncommitted_block_que(w);
    assert!(chain.is_known_block(&hw));
    chain.remove_from_uncommitted_block_que(&hw);
    assert!(!chain.is_known_block(&hw));
    assert!(chain.is_known_block(&hb));
}
