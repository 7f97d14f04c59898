//! Node and genesis configuration: from the text read out of the
//! configuration files to the values a node runs with.

use vstd::prelude::*;
use vstd::string::StrSliceExecFns;
use std::collections::{BTreeMap, HashMap};
use crate::crypto::{KeyPair, ed25519_public_key_accepted, public_key_accepted};
use crate::electors::{ElectorMap, elector_view};
use crate::block::{ConfiglBlockBody, ConfigView};

verus! {

broadcast use vstd::std_specs::btree::group_btree_axioms, vstd::std_specs::hash::group_hash_axioms;

/// The bytes that Base64 text stands for, if it is valid Base64.
pub uninterp spec fn spec_base64_decode(text: Seq<char>) -> Option<Seq<u8>>;

/// Every character is an ASCII decimal digit.
pub open spec fn all_decimal_digits(s: Seq<char>) -> bool {
    forall|i: int| 0 <= i < s.len() ==> '0' <= #[trigger] s[i] <= '9'
}

/// The value of a run of decimal digits, most significant first.
pub open spec fn digits_value(s: Seq<char>) -> nat
    decreases s.len(),
{
    if s.len() == 0 {
        0
    } else {
        10 * digits_value(s.drop_last()) + (s.last() as nat - '0' as nat) as nat
    }
}

/// The number that text names as a decimal `u64`, if it names one: an
/// optional `+`, then at least one ASCII digit, with a value that fits.
pub open spec fn spec_parse_u64(text: Seq<char>) -> Option<u64> {
    let digits = if text.len() > 0 && text[0] == '+' {
        text.drop_first()
    } else {
        text
    };
    if digits.len() > 0 && all_decimal_digits(digits) && digits_value(digits) <= u64::MAX {
        Some(digits_value(digits) as u64)
    } else {
        None
    }
}

/// `base64::decode` (version 0.13, standard alphabet) of the text's bytes.
/// Claimed: the result is the named decoding of the text.
#[verifier::external_body]
fn base64_decode(text: &str) -> (bytes: Option<Vec<u8>>)
    ensures
        match bytes {
            Some(b) => spec_base64_decode(text@) == Some(b@),
            None => spec_base64_decode(text@) is None,
        },
{
    base64::decode(text).ok()
}

/// The Base64 text of `bytes`.
pub uninterp spec fn spec_base64_encode(bytes: Seq<u8>) -> Seq<char>;

/// `base64::encode` (version 0.13, standard alphabet, with padding).
/// Claimed: the result is the named encoding of the bytes.
#[verifier::external_body]
fn base64_encode(bytes: &[u8]) -> (text: String)
    ensures
        text@ == spec_base64_encode(bytes@),
{
    base64::encode(bytes)
}

/// The public and the private key of a key pair as Base64 text, as a
/// configuration file holds them.
pub fn encoded_key_pair(key_pair: &KeyPair) -> (texts: (String, String))
    ensures
        texts.0@ == spec_base64_encode(key_pair@.subrange(32, 64)),
        texts.1@ == spec_base64_encode(key_pair@.subrange(0, 32)),
{
    let public = key_pair.public_key();
    let secret = key_pair.secret_key();
    (base64_encode(public.as_slice()), base64_encode(secret.as_slice()))
}

/// A longer run of digits is worth at least as much as its prefix.
proof fn lemma_digits_value_grows(s: Seq<char>, i: int, j: int)
    requires
        0 <= i <= j <= s.len(),
        all_decimal_digits(s),
    ensures
        digits_value(s.subrange(0, i)) <= digits_value(s.subrange(0, j)),
    decreases j - i,
{
    if i < j {
        lemma_digits_value_grows(s, i, j - 1);
        assert(s.subrange(0, j).drop_last() =~= s.subrange(0, j - 1));
    }
}

/// The number that text names as a decimal `u64`, as `u64::from_str`
/// reads it: an optional `+`, then at least one ASCII digit, with a value
/// that fits; anything else (an empty text, a lone sign, a `-`, any other
/// character, an overflow) is refused.
fn parse_u64(text: &str) -> (n: Option<u64>)
    ensures
        n == spec_parse_u64(text@),
{
    let len = text.unicode_len();
    let start: usize = if len > 0 && text.get_char(0) == '+' {
        1
    } else {
        0
    };
    let ghost digits = if text@.len() > 0 && text@[0] == '+' {
        text@.drop_first()
    } else {
        text@
    };
    assert(digits =~= text@.subrange(start as int, len as int));
    if start == len {
        return None;
    }
    let mut v: u64 = 0;
    let mut i: usize = start;
    assert(digits.subrange(0, 0) =~= Seq::<char>::empty());
    while i < len
        invariant
            start <= i <= len,
            len == text@.len(),
            digits == text@.subrange(start as int, len as int),
            digits == (if text@.len() > 0 && text@[0] == '+' {
                text@.drop_first()
            } else {
                text@
            }),
            digits.len() > 0,
            all_decimal_digits(digits.subrange(0, i - start)),
            v == digits_value(digits.subrange(0, i - start)),
        decreases len - i,
    {
        let c = text.get_char(i);
        assert(digits[i - start] == c);
        if c < '0' || c > '9' {
            proof {
                assert(!('0' <= digits[i - start] <= '9'));
                assert(!all_decimal_digits(digits));
            }
            return None;
        }
        let d: u64 = (c as u32 - 48) as u64;
        let ghost k = i - start;
        assert(digits.subrange(0, k + 1).drop_last() =~= digits.subrange(0, k));
        assert(digits_value(digits.subrange(0, k + 1)) == 10 * v + d);
        if v > (u64::MAX - d) / 10 {
            assert(10 * v + d > u64::MAX) by (nonlinear_arith)
                requires
                    v > (u64::MAX - d) / 10,
                    d <= 9,
            ;
            proof {
                if all_decimal_digits(digits) {
                    lemma_digits_value_grows(digits, k + 1, digits.len() as int);
                    assert(digits.subrange(0, digits.len() as int) =~= digits);
                    assert(digits_value(digits) > u64::MAX);
                }
            }
            return None;
        }
        v = v * 10 + d;
        i = i + 1;
    }
    assert(digits.subrange(0, digits.len() as int) =~= digits);
    Some(v)
}

/// Why a configuration cannot be used.
#[derive(Clone, Copy, Debug, PartialEq, Eq, Structural)]
pub enum ConfigError {
    /// An elector id is not a decimal `u64`.
    InvalidElectorId,
    /// An elector's public key is not Base64 of a valid Ed25519 public key.
    InvalidElectorKey,
    /// The node's public key is not Base64 of a valid Ed25519 public key.
    InvalidPublicKey,
    /// The node's private key is not Base64 of 32 bytes.
    InvalidPrivateKey,
    /// A peer's node id is not a decimal `u64`.
    InvalidPeerId,
}

/// The node's own settings as read from its configuration file; the peers
/// are (node id, address) pairs in the order they were read.
#[derive(Clone, Debug)]
pub struct ConfigStructJson {
    pub node_id: u64,
    pub public_key: String,
    pub private_key: String,
    pub nodes_to_connect: Vec<(String, String)>,
}

/// The network's settings as read from the genesis file; the electors are
/// (node id, Base64 public key) pairs in the order they were read.
#[derive(Clone, Debug)]
pub struct GenesisConfigStructJson {
    pub list_of_elector_nodes: Vec<(String, String)>,
    pub pace_of_block_creation: u64,
    pub heartbeat_frequency: u64,
    pub min_election_timeout: u64,
    pub max_election_timeout: u64,
}

/// What a node configuration holds.
pub struct NodeConfigView {
    pub node_id: u64,
    pub key_pair: Seq<u8>,
    pub nodes_to_connect: Map<u64, Seq<char>>,
    pub electors: Map<u64, Seq<u8>>,
    pub pace_of_block_creation: u64,
}

/// The configuration a node runs with.
pub struct NodeConfig {
    pub node_id: u64,
    pub key_pair: KeyPair,
    pub nodes_to_connect: HashMap<u64, String>,
    pub electors: ElectorMap,
    pub pace_of_block_creation: u64,
}

impl View for NodeConfig {
    type V = NodeConfigView;

    open spec fn view(&self) -> NodeConfigView {
        NodeConfigView {
            node_id: self.node_id,
            key_pair: self.key_pair@,
            nodes_to_connect: self.nodes_to_connect@.map_values(|s: String| s@),
            electors: elector_view(&self.electors),
            pace_of_block_creation: self.pace_of_block_creation,
        }
    }
}

/// Text pairs seen as character sequences.
pub open spec fn pair_views(entries: Seq<(String, String)>) -> Seq<(Seq<char>, Seq<char>)> {
    entries.map_values(|e: (String, String)| (e.0@, e.1@))
}

/// One elector entry: its id and public key bytes, or why it is refused.
pub open spec fn spec_elector_entry(id_text: Seq<char>, key_text: Seq<char>) -> Result<(u64, Seq<u8>), ConfigError> {
    match spec_parse_u64(id_text) {
        None => Err(ConfigError::InvalidElectorId),
        Some(id) => match spec_base64_decode(key_text) {
            None => Err(ConfigError::InvalidElectorKey),
            Some(key) => if ed25519_public_key_accepted(key) {
                Ok((id, key))
            } else {
                Err(ConfigError::InvalidElectorKey)
            },
        },
    }
}

/// The elector map built from the entries in order (a later entry for the
/// same id replaces an earlier one), or the error of the first bad entry.
pub open spec fn spec_electors(entries: Seq<(Seq<char>, Seq<char>)>) -> Result<Map<u64, Seq<u8>>, ConfigError>
    decreases entries.len(),
{
    if entries.len() == 0 {
        Ok(Map::empty())
    } else {
        match spec_electors(entries.drop_last()) {
            Err(e) => Err(e),
            Ok(m) => match spec_elector_entry(entries.last().0, entries.last().1) {
                Err(e) => Err(e),
                Ok((id, key)) => Ok(m.insert(id, key)),
            },
        }
    }
}

/// The peer map built from the entries in order, or `InvalidPeerId`.
pub open spec fn spec_peers(entries: Seq<(Seq<char>, Seq<char>)>) -> Result<Map<u64, Seq<char>>, ConfigError>
    decreases entries.len(),
{
    if entries.len() == 0 {
        Ok(Map::empty())
    } else {
        match spec_peers(entries.drop_last()) {
            Err(e) => Err(e),
            Ok(m) => match spec_parse_u64(entries.last().0) {
                None => Err(ConfigError::InvalidPeerId),
                Some(id) => Ok(m.insert(id, entries.last().1)),
            },
        }
    }
}

/// The key pair bytes (secret, then public) from the Base64 key texts, or
/// why they are refused; the public key is looked at first.
pub open spec fn spec_key_pair(public_text: Seq<char>, private_text: Seq<char>) -> Result<Seq<u8>, ConfigError> {
    match spec_base64_decode(public_text) {
        None => Err(ConfigError::InvalidPublicKey),
        Some(public) => if !ed25519_public_key_accepted(public) {
            Err(ConfigError::InvalidPublicKey)
        } else {
            match spec_base64_decode(private_text) {
                None => Err(ConfigError::InvalidPrivateKey),
                Some(secret) => if secret.len() != 32 {
                    Err(ConfigError::InvalidPrivateKey)
                } else {
                    Ok(secret + public)
                },
            }
        },
    }
}

/// Once a prefix of the entries is refused, all of them are, for the same reason.
proof fn lemma_electors_error_persists(s: Seq<(Seq<char>, Seq<char>)>, k: int)
    requires
        0 <= k <= s.len(),
        spec_electors(s.subrange(0, k)) is Err,
    ensures
        spec_electors(s) == spec_electors(s.subrange(0, k)),
    decreases s.len(),
{
    if s.len() == k {
        assert(s.subrange(0, k) =~= s);
    } else {
        assert(s.drop_last().subrange(0, k) =~= s.subrange(0, k));
        lemma_electors_error_persists(s.drop_last(), k);
    }
}

/// Once a prefix of the entries is refused, all of them are, for the same reason.
proof fn lemma_peers_error_persists(s: Seq<(Seq<char>, Seq<char>)>, k: int)
    requires
        0 <= k <= s.len(),
        spec_peers(s.subrange(0, k)) is Err,
    ensures
        spec_peers(s) == spec_peers(s.subrange(0, k)),
    decreases s.len(),
{
    if s.len() == k {
        assert(s.subrange(0, k) =~= s);
    } else {
        assert(s.drop_last().subrange(0, k) =~= s.subrange(0, k));
        lemma_peers_error_persists(s.drop_last(), k);
    }
}

/// The elector map from the genesis entries, or why an entry is refused.
pub fn load_electors(entries: &Vec<(String, String)>) -> (m: Result<ElectorMap, ConfigError>)
    ensures
        match m {
            Ok(m) => spec_electors(pair_views(entries@)) == Ok::<Map<u64, Seq<u8>>, ConfigError>(elector_view(&m)),
            Err(e) => spec_electors(pair_views(entries@)) == Err::<Map<u64, Seq<u8>>, ConfigError>(e),
        },
{
    let mut m: ElectorMap = BTreeMap::new();
    let mut i: usize = 0;
    assert(elector_view(&m) =~= Map::empty());
    while i < entries.len()
        invariant
            i <= entries@.len(),
            spec_electors(pair_views(entries@).subrange(0, i as int)) == Ok::<Map<u64, Seq<u8>>, ConfigError>(elector_view(&m)),
        decreases entries@.len() - i,
    {
        let ghost pv = pair_views(entries@);
        assert(pv.subrange(0, i + 1).drop_last() =~= pv.subrange(0, i as int));
        let (id_text, key_text) = &entries[i];
        let id = match parse_u64(id_text.as_str()) {
            Some(id) => id,
            None => {
                proof {
                    lemma_electors_error_persists(pv, i + 1);
                }
                return Err(ConfigError::InvalidElectorId);
            },
        };
        let key = match base64_decode(key_text.as_str()) {
            Some(k) => k,
            None => {
                proof {
                    lemma_electors_error_persists(pv, i + 1);
                }
                return Err(ConfigError::InvalidElectorKey);
            },
        };
        if !public_key_accepted(key.as_slice()) {
            proof {
                lemma_electors_error_persists(pv, i + 1);
            }
            return Err(ConfigError::InvalidElectorKey);
        }
        let ghost kv = key@;
        m.insert(id, key);
        assert(elector_view(&m) =~= spec_electors(pv.subrange(0, i as int))->Ok_0.insert(id, kv));
        i = i + 1;
    }
    assert(pair_views(entries@).subrange(0, entries@.len() as int) =~= pair_views(entries@));
    Ok(m)
}

/// The peer map from the configured (node id, address) entries.
pub fn load_peers(entries: &Vec<(String, String)>) -> (m: Result<HashMap<u64, String>, ConfigError>)
    ensures
        match m {
            Ok(m) => spec_peers(pair_views(entries@)) == Ok::<Map<u64, Seq<char>>, ConfigError>(m@.map_values(|s: String| s@)),
            Err(e) => spec_peers(pair_views(entries@)) == Err::<Map<u64, Seq<char>>, ConfigError>(e),
        },
{
    let mut m: HashMap<u64, String> = HashMap::new();
    let mut i: usize = 0;
    assert(m@.map_values(|s: String| s@) =~= Map::empty());
    while i < entries.len()
        invariant
            i <= entries@.len(),
            spec_peers(pair_views(entries@).subrange(0, i as int)) == Ok::<Map<u64, Seq<char>>, ConfigError>(m@.map_values(|s: String| s@)),
        decreases entries@.len() - i,
    {
        let ghost pv = pair_views(entries@);
        assert(pv.subrange(0, i + 1).drop_last() =~= pv.subrange(0, i as int));
        let (id_text, address) = &entries[i];
        let id = match parse_u64(id_text.as_str()) {
            Some(id) => id,
            None => {
                proof {
                    lemma_peers_error_persists(pv, i + 1);
                }
                return Err(ConfigError::InvalidPeerId);
            },
        };
        let ghost before = m@.map_values(|s: String| s@);
        m.insert(id, address.clone());
        assert(m@.map_values(|s: String| s@) =~= before.insert(id, address@));
        i = i + 1;
    }
    assert(pair_views(entries@).subrange(0, entries@.len() as int) =~= pair_views(entries@));
    Ok(m)
}

/// The key pair from the Base64 texts of the public and the private key.
pub fn load_key_pair(public_text: &String, private_text: &String) -> (kp: Result<KeyPair, ConfigError>)
    ensures
        match kp {
            Ok(k) => spec_key_pair(public_text@, private_text@) == Ok::<Seq<u8>, ConfigError>(k@),
            Err(e) => spec_key_pair(public_text@, private_text@) == Err::<Seq<u8>, ConfigError>(e),
        },
{
    let public = match base64_decode(public_text.as_str()) {
        Some(p) => p,
        None => return Err(ConfigError::InvalidPublicKey),
    };
    if !public_key_accepted(public.as_slice()) {
        return Err(ConfigError::InvalidPublicKey);
    }
    let secret = match base64_decode(private_text.as_str()) {
        Some(s) => s,
        None => return Err(ConfigError::InvalidPrivateKey),
    };
    if secret.len() != 32 {
        return Err(ConfigError::InvalidPrivateKey);
    }
    assert((secret@ + public@).subrange(32, 64) =~= public@);
    match KeyPair::from_parts(secret.as_slice(), public.as_slice()) {
        Some(k) => Ok(k),
        None => Err(ConfigError::InvalidPublicKey),
    }
}

impl NodeConfig {
    /// A copy of this configuration.
    pub fn duplicate(&self) -> (c: NodeConfig)
        ensures
            c@ == self@,
    {
        NodeConfig {
            node_id: self.node_id,
            key_pair: self.key_pair.duplicate(),
            nodes_to_connect: self.nodes_to_connect.clone(),
            electors: self.electors.clone(),
            pace_of_block_creation: self.pace_of_block_creation,
        }
    }

    /// The node configuration from the node's settings, the electors of the
    /// genesis configuration and the pace of block creation; the public key
    /// is checked first, then the private key, then the peers.
    pub fn new_from_config_json(
        config_from_json: ConfigStructJson,
        electors: ElectorMap,
        pace_of_block_creation: u64,
    ) -> (c: Result<NodeConfig, ConfigError>)
        ensures
            match c {
                Ok(c) => {
                    &&& spec_key_pair(config_from_json.public_key@, config_from_json.private_key@)
                        == Ok::<Seq<u8>, ConfigError>(c@.key_pair)
                    &&& spec_peers(pair_views(config_from_json.nodes_to_connect@))
                        == Ok::<Map<u64, Seq<char>>, ConfigError>(c@.nodes_to_connect)
                    &&& c@.node_id == config_from_json.node_id
                    &&& c@.electors == elector_view(&electors)
                    &&& c@.pace_of_block_creation == pace_of_block_creation
                },
                Err(e) => match spec_key_pair(config_from_json.public_key@, config_from_json.private_key@) {
                    Err(k) => e == k,
                    Ok(_) => spec_peers(pair_views(config_from_json.nodes_to_connect@))
                        == Err::<Map<u64, Seq<char>>, ConfigError>(e),
                },
            },
    {
        let key_pair = match load_key_pair(&config_from_json.public_key, &config_from_json.private_key) {
            Ok(k) => k,
            Err(e) => return Err(e),
        };
        let nodes_to_connect = match load_peers(&config_from_json.nodes_to_connect) {
            Ok(m) => m,
            Err(e) => return Err(e),
        };
        Ok(NodeConfig {
            node_id: config_from_json.node_id,
            key_pair,
            nodes_to_connect,
            electors,
            pace_of_block_creation,
        })
    }
}

/// The node configuration and the genesis configuration from what the two
/// files hold: the genesis electors are read first, then the node's keys,
/// then its peers; the node learns the electors and the pace of block
/// creation from the genesis configuration.
pub fn load_config(config_json: ConfigStructJson, genesis_json: GenesisConfigStructJson) -> (r: Result<(NodeConfig, ConfiglBlockBody), ConfigError>)
    ensures
        match spec_electors(pair_views(genesis_json.list_of_elector_nodes@)) {
            Err(e) => r == Err::<(NodeConfig, ConfiglBlockBody), ConfigError>(e),
            Ok(electors) => match r {
                Ok((node, genesis)) => {
                    &&& genesis@ == (ConfigView {
                        electors,
                        pace_of_block_creation: genesis_json.pace_of_block_creation,
                        heartbeat_frequency: genesis_json.heartbeat_frequency,
                        min_election_timeout: genesis_json.min_election_timeout,
                        max_election_timeout: genesis_json.max_election_timeout,
                    })
                    &&& spec_key_pair(config_json.public_key@, config_json.private_key@)
                        == Ok::<Seq<u8>, ConfigError>(node@.key_pair)
                    &&& spec_peers(pair_views(config_json.nodes_to_connect@))
                        == Ok::<Map<u64, Seq<char>>, ConfigError>(node@.nodes_to_connect)
                    &&& node@.node_id == config_json.node_id
                    &&& node@.electors == electors
                    &&& node@.pace_of_block_creation == genesis_json.pace_of_block_creation
                },
                Err(e) => match spec_key_pair(config_json.public_key@, config_json.private_key@) {
                    Err(k) => e == k,
                    Ok(_) => spec_peers(pair_views(config_json.nodes_to_connect@))
                        == Err::<Map<u64, Seq<char>>, ConfigError>(e),
                },
            },
        },
{
    let electors = match load_electors(&genesis_json.list_of_elector_nodes) {
        Ok(m) => m,
        Err(e) => return Err(e),
    };
    let genesis = ConfiglBlockBody::new(
        electors,
        genesis_json.pace_of_block_creation,
        genesis_json.heartbeat_frequency,
        genesis_json.min_election_timeout,
        genesis_json.max_election_timeout,
    );
    let node_electors = genesis.list_of_elector_nodes.clone();
    match NodeConfig::new_from_config_json(config_json, node_electors, genesis.pace_of_block_creation) {
        Ok(node) => Ok((node, genesis)),
        Err(e) => Err(e),
    }
}

} // verus!
