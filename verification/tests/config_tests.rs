use raft_blockchain::config::{
    encoded_key_pair, load_config, load_electors, load_key_pair, load_peers, ConfigError, ConfigStructJson,
    GenesisConfigStructJson, NodeConfig,
};
use raft_blockchain::crypto::KeyPair;

fn keys(seed: u8) -> (String, String) {
    let secret = ed25519_dalek::SecretKey::from_bytes(&[seed; 32]).unwrap();
    let public: ed25519_dalek::PublicKey = (&secret).into();
    (base64::encode(public.as_bytes()), base64::encode(secret.as_bytes()))
}

fn genesis(entries: Vec<(String, String)>) -> GenesisConfigStructJson {
    GenesisConfigStructJson {
        list_of_elector_nodes: entries,
        pace_of_block_creation: 10000,
        heartbeat_frequency: 1500,
        min_election_timeout: 15000,
        max_election_timeout: 50000,
    }
}

fn node_json(node_id: u64, public: &str, private: &str, peers: Vec<(String, String)>) -> ConfigStructJson {
    ConfigStructJson {
        node_id,
        public_key: public.to_string(),
        private_key: private.to_string(),
        nodes_to_connect: peers,
    }
}

#[test]
fn a_good_configuration_loads() {
    let (pub1, priv1) = keys(1);
    let (pub2, _) = keys(2);
    let g = genesis(vec![("4001".to_string(), pub1.clone()), ("4002".to_string(), pub2.clone())]);
    let c = node_json(4001, &pub1, &priv1, vec![("4002".to_string(), "10.0.0.2".to_string())]);
    let (node, genesis_body) = load_config(c, g).unwrap();
    assert_eq!(node.node_id, 4001);
    assert_eq!(node.pace_of_block_creation, 10000);
    assert_eq!(node.nodes_to_connect.get(&4002).unwrap(), "10.0.0.2");
    assert_eq!(node.electors.len(), 2);
    assert_eq!(node.electors.get(&4002).unwrap(), &base64::decode(&pub2).unwrap());
    assert_eq!(genesis_body.list_of_elector_nodes.len(), 2);
    assert_eq!(genesis_body.heartbeat_frequency, 1500);
    assert_eq!(genesis_body.min_election_timeout, 15000);
    assert_eq!(genesis_body.max_election_timeout, 50000);
    assert_eq!(node.key_pair.public_key(), base64::decode(&pub1).unwrap());
    assert_eq!(node.key_pair.secret_key(), base64::decode(&priv1).unwrap());
}

#[test]
fn an_elector_id_that_is_not_a_number_is_refused() {
    let (pub1, _) = keys(1);
    let r = load_electors(&vec![("node".to_string(), pub1)]);
    assert_eq!(r.err(), Some(ConfigError::InvalidElectorId));
}

#[test]
fn an_elector_key_that_is_not_base64_or_not_a_key_is_refused() {
    let r = load_electors(&vec![("1".to_string(), "@@@".to_string())]);
    assert_eq!(r.err(), Some(ConfigError::InvalidElectorKey));
    let short = base64::encode(&[1u8, 2, 3]);
    let r = load_electors(&vec![("1".to_string(), short)]);
    assert_eq!(r.err(), Some(ConfigError::InvalidElectorKey));
}

#[test]
fn a_later_elector_entry_replaces_an_earlier_one() {
    let (pub1, _) = keys(1);
    let (pub2, _) = keys(2);
    let m = load_electors(&vec![("5".to_string(), pub1), ("5".to_string(), pub2.clone())]).unwrap();
    assert_eq!(m.len(), 1);
    assert_eq!(m.get(&5).unwrap(), &base64::decode(&pub2).unwrap());
}

#[test]
fn the_first_bad_elector_entry_decides_the_error() {
    let r = load_electors(&vec![("x".to_string(), "@@@".to_string()), ("1".to_string(), "@@@".to_string())]);
    assert_eq!(r.err(), Some(ConfigError::InvalidElectorId));
}

#[test]
fn a_peer_id_that_is_not_a_number_is_refused() {
    let r = load_peers(&vec![("1".to_string(), "a".to_string()), ("two".to_string(), "b".to_string())]);
    assert_eq!(r.err(), Some(ConfigError::InvalidPeerId));
    let ok = load_peers(&vec![("1".to_string(), "a".to_string())]).unwrap();
    assert_eq!(ok.get(&1).unwrap(), "a");
}

#[test]
fn bad_node_keys_are_refused_public_key_first() {
    let (pub1, priv1) = keys(1);
    assert!(matches!(load_key_pair(&"###".to_string(), &priv1), Err(ConfigError::InvalidPublicKey)));
    assert!(matches!(load_key_pair(&base64::encode(&[0u8; 5]), &priv1), Err(ConfigError::InvalidPublicKey)));
    assert!(matches!(load_key_pair(&pub1, &"###".to_string()), Err(ConfigError::InvalidPrivateKey)));
    assert!(matches!(load_key_pair(&pub1, &base64::encode(&[0u8; 31])), Err(ConfigError::InvalidPrivateKey)));
    assert!(matches!(load_key_pair(&"###".to_string(), &"###".to_string()), Err(ConfigError::InvalidPublicKey)));
    assert!(load_key_pair(&pub1, &priv1).is_ok());
}

#[test]
fn node_config_errors_come_from_keys_then_peers() {
    let (pub1, priv1) = keys(1);
    let bad_peers = node_json(1, &pub1, &priv1, vec![("p".to_string(), "x".to_string())]);
    let r = NodeConfig::new_from_config_json(bad_peers, Default::default(), 10);
    assert!(matches!(r, Err(ConfigError::InvalidPeerId)));
    let bad_both = node_json(1, &pub1, "###", vec![("p".to_string(), "x".to_string())]);
    let r = NodeConfig::new_from_config_json(bad_both, Default::default(), 10);
    assert!(matches!(r, Err(ConfigError::InvalidPrivateKey)));
}

#[test]
fn load_config_reports_genesis_errors_first() {
    let (pub1, priv1) = keys(1);
    let g = genesis(vec![("bad".to_string(), pub1.clone())]);
    let c = node_json(1, &pub1, "###", vec![]);
    assert!(matches!(load_config(c, g), Err(ConfigError::InvalidElectorId)));
    let g = genesis(vec![("1".to_string(), pub1.clone())]);
    let c = node_json(1, &pub1, "###", vec![]);
    assert!(matches!(load_config(c, g), Err(ConfigError::InvalidPrivateKey)));
    let g = genesis(vec![]);
    let c = node_json(1, &pub1, &priv1, vec![]);
    assert!(load_config(c, g).is_ok());
}

#[test]
fn generated_key_pair_encodes_to_base64_that_loads_back() {
    let kp = KeyPair::generate();
    let (public_text, private_text) = encoded_key_pair(&kp);
    assert_eq!(base64::decode(&public_text).unwrap(), kp.public_key());
    assert_eq!(base64::decode(&private_text).unwrap(), kp.secret_key());
    let loaded = load_key_pair(&public_text, &private_text).unwrap();
    assert_eq!(loaded.public_key(), kp.public_key());
    assert_eq!(loaded.secret_key(), kp.secret_key());
}

#[test]
fn node_ids_are_decimal_numerals_that_fit() {
    let ok = load_peers(&vec![("+7".to_string(), "a".to_string()), ("007".to_string(), "b".to_string())]).unwrap();
    assert_eq!(ok.get(&7).unwrap(), "b");
    let max = load_peers(&vec![("18446744073709551615".to_string(), "m".to_string())]).unwrap();
    assert_eq!(max.get(&u64::MAX).unwrap(), "m");
    for bad in ["", "+", "-7", " 7", "7a", "18446744073709551616", "٣"] {
        let r = load_peers(&vec![(bad.to_string(), "x".to_string())]);
        assert_eq!(r.err(), Some(ConfigError::InvalidPeerId), "{:?}", bad);
    }
}
