//! Blocks: their parts, their wire encoding, their hash and their signature.

use vstd::prelude::*;
use vstd::string::{StringExecFns, StrSliceExecFns};
use vstd::utf8::encode_utf8;
use crate::encoding::{enc_u32, enc_u64, enc_u128, enc_str, write_u32, write_u64, write_u128, write_str, append_bytes};
use crate::electors::{ElectorMap, elector_view, enc_electors, write_electors};
use crate::crypto::{
    KeyPair, ed25519_keypair_matched, ed25519_signature, ed25519_signature_accepted, ed25519_verifies, spec_sha256_hex,
    sha256_hex, signature_verifies,
};
use crate::text::{decimal, decimal_string};
use std::collections::BTreeMap;

verus! {

/// The kind of a block: an ordinary one or one that carries a configuration.
#[derive(Clone, Copy, Debug, PartialEq, Eq, Structural)]
pub enum BlockType {
    Normal,
    Config,
}

impl BlockType {
    /// The variant index that the wire format writes for this kind.
    pub open spec fn index(self) -> u32 {
        match self {
            BlockType::Normal => 0,
            BlockType::Config => 1,
        }
    }

    /// The name of the kind, as displayed.
    pub open spec fn spec_name(self) -> Seq<char> {
        match self {
            BlockType::Normal => seq!['N', 'o', 'r', 'm', 'a', 'l'],
            BlockType::Config => seq!['C', 'o', 'n', 'f', 'i', 'g'],
        }
    }

    /// The name of the kind: `Normal` or `Config`.
    pub fn name(&self) -> (s: String)
        ensures
            s@ == self.spec_name(),
    {
        match self {
            BlockType::Normal => {
                let s = String::from_str("Normal");
                proof {
                    reveal_strlit("Normal");
                }
                assert(s@ =~= self.spec_name());
                s
            },
            BlockType::Config => {
                let s = String::from_str("Config");
                proof {
                    reveal_strlit("Config");
                }
                assert(s@ =~= self.spec_name());
                s
            },
        }
    }

    fn variant_index(&self) -> (i: u32)
        ensures
            i == self.index(),
    {
        match self {
            BlockType::Normal => 0,
            BlockType::Config => 1,
        }
    }
}

/// What a block header holds.
pub struct HeaderView {
    pub block_id: u64,
    pub epoch_seq_num: u64,
    pub block_type: BlockType,
    pub prev_block_size: u64,
    pub timestamp: u128,
    pub prev_block_hash: Seq<char>,
    pub proposer: u64,
}

/// The header of a block.
#[derive(Clone, Debug)]
pub struct BlockHeader {
    pub block_id: u64,
    pub epoch_seq_num: u64,
    pub block_type: BlockType,
    pub prev_block_size: u64,
    pub timestamp: u128,
    pub prev_block_hash: String,
    pub proposer: u64,
}

impl View for BlockHeader {
    type V = HeaderView;

    open spec fn view(&self) -> HeaderView {
        HeaderView {
            block_id: self.block_id,
            epoch_seq_num: self.epoch_seq_num,
            block_type: self.block_type,
            prev_block_size: self.prev_block_size,
            timestamp: self.timestamp,
            prev_block_hash: self.prev_block_hash@,
            proposer: self.proposer,
        }
    }
}

#[verifier::external_type_specification]
#[verifier::external_body]
pub struct ExSystemTime(std::time::SystemTime);

/// `SystemTime::now` of std.  Nothing is claimed of the value, which is the
/// machine's clock.
#[verifier::external_body]
fn system_time_now() -> (t: std::time::SystemTime) {
    std::time::SystemTime::now()
}

/// `SystemTime::duration_since` of std against the Unix epoch, in whole
/// seconds: `None` when `t` is earlier than the epoch.  Nothing more is
/// claimed of the value.
#[verifier::external_body]
fn seconds_since_unix_epoch(t: &std::time::SystemTime) -> (secs: Option<u64>) {
    match t.duration_since(std::time::UNIX_EPOCH) {
        Ok(d) => Some(d.as_secs()),
        Err(_) => None,
    }
}

/// The current time in whole seconds since the Unix epoch; `None` when the
/// clock reads earlier than the epoch.
pub(crate) fn seconds_since_epoch() -> (secs: Option<u64>) {
    let now = system_time_now();
    seconds_since_unix_epoch(&now)
}

impl BlockHeader {
    /// A header with the given fields, stamped with `timestamp`.
    pub fn new_at(
        block_id: u64,
        epoch_seq_num: u64,
        block_type: BlockType,
        prev_block_size: u64,
        prev_block_hash: String,
        proposer_id: u64,
        timestamp: u128,
    ) -> (h: BlockHeader)
        ensures
            h@ == (HeaderView {
                block_id,
                epoch_seq_num,
                block_type,
                prev_block_size,
                timestamp,
                prev_block_hash: prev_block_hash@,
                proposer: proposer_id,
            }),
    {
        BlockHeader {
            block_id,
            epoch_seq_num,
            block_type,
            prev_block_size,
            timestamp,
            prev_block_hash,
            proposer: proposer_id,
        }
    }

    /// A header with the given fields, stamped with the current time in
    /// seconds since the Unix epoch; `None` when the system clock reads
    /// earlier than the epoch.
    pub fn new(
        block_id: u64,
        epoch_seq_num: u64,
        block_type: BlockType,
        prev_block_size: u64,
        prev_block_hash: String,
        proposer_id: u64,
    ) -> (h: Option<BlockHeader>)
        ensures
            h matches Some(h) ==> h@ == (HeaderView {
                block_id,
                epoch_seq_num,
                block_type,
                prev_block_size,
                timestamp: h.timestamp,
                prev_block_hash: prev_block_hash@,
                proposer: proposer_id,
            }),
            h matches Some(h) ==> h.timestamp <= u64::MAX,
    {
        match seconds_since_epoch() {
            Some(secs) => Some(
                BlockHeader::new_at(
                    block_id,
                    epoch_seq_num,
                    block_type,
                    prev_block_size,
                    prev_block_hash,
                    proposer_id,
                    secs as u128,
                ),
            ),
            None => None,
        }
    }

    /// A copy of this header.
    pub fn duplicate(&self) -> (h: BlockHeader)
        ensures
            h@ == self@,
    {
        BlockHeader {
            block_id: self.block_id,
            epoch_seq_num: self.epoch_seq_num,
            block_type: self.block_type,
            prev_block_size: self.prev_block_size,
            timestamp: self.timestamp,
            prev_block_hash: self.prev_block_hash.clone(),
            proposer: self.proposer,
        }
    }
}

/// The wire encoding of a header: its fields in order.
pub open spec fn enc_header(h: HeaderView) -> Seq<u8> {
    enc_u64(h.block_id) + enc_u64(h.epoch_seq_num) + enc_u32(h.block_type.index()) + enc_u64(
        h.prev_block_size,
    ) + enc_u128(h.timestamp) + enc_str(h.prev_block_hash) + enc_u64(h.proposer)
}

/// Appends the encoding of a header.
pub fn write_header(out: &mut Vec<u8>, h: &BlockHeader)
    ensures
        final(out)@ == old(out)@ + enc_header(h@),
{
    write_u64(out, h.block_id);
    write_u64(out, h.epoch_seq_num);
    write_u32(out, h.block_type.variant_index());
    write_u64(out, h.prev_block_size);
    write_u128(out, h.timestamp);
    write_str(out, h.prev_block_hash.as_str());
    write_u64(out, h.proposer);
    assert(final(out)@ =~= old(out)@ + enc_header(h@));
}

/// The body of an ordinary block: a line of text.
#[derive(Clone, Debug)]
pub struct NormalBlockBody {
    pub text: String,
}

impl NormalBlockBody {
    /// A body holding `text`.
    pub fn new(text: String) -> (b: NormalBlockBody)
        ensures
            b.text@ == text@,
    {
        NormalBlockBody { text }
    }

    /// A body with empty text.
    pub fn default() -> (b: NormalBlockBody)
        ensures
            b.text@ == Seq::<char>::empty(),
    {
        NormalBlockBody { text: String::new() }
    }
}

/// What a configuration body holds.
pub struct ConfigView {
    pub electors: Map<u64, Seq<u8>>,
    pub pace_of_block_creation: u64,
    pub heartbeat_frequency: u64,
    pub min_election_timeout: u64,
    pub max_election_timeout: u64,
}

/// The body of a configuration block: the electors and their public keys,
/// and the timing parameters of the network.
#[derive(Clone, Debug)]
pub struct ConfiglBlockBody {
    pub list_of_elector_nodes: ElectorMap,
    pub pace_of_block_creation: u64,
    pub heartbeat_frequency: u64,
    pub min_election_timeout: u64,
    pub max_election_timeout: u64,
}

impl View for ConfiglBlockBody {
    type V = ConfigView;

    open spec fn view(&self) -> ConfigView {
        ConfigView {
            electors: elector_view(&self.list_of_elector_nodes),
            pace_of_block_creation: self.pace_of_block_creation,
            heartbeat_frequency: self.heartbeat_frequency,
            min_election_timeout: self.min_election_timeout,
            max_election_timeout: self.max_election_timeout,
        }
    }
}

impl ConfiglBlockBody {
    /// A configuration with the given electors and parameters.
    pub fn new(
        list_of_elector_nodes: ElectorMap,
        pace_of_block_creation: u64,
        heartbeat_frequency: u64,
        min_election_timeout: u64,
        max_election_timeout: u64,
    ) -> (c: ConfiglBlockBody)
        ensures
            c@ == (ConfigView {
                electors: elector_view(&list_of_elector_nodes),
                pace_of_block_creation,
                heartbeat_frequency,
                min_election_timeout,
                max_election_timeout,
            }),
    {
        ConfiglBlockBody {
            list_of_elector_nodes,
            pace_of_block_creation,
            heartbeat_frequency,
            min_election_timeout,
            max_election_timeout,
        }
    }

    /// A copy of this configuration.
    pub fn duplicate(&self) -> (c: ConfiglBlockBody)
        ensures
            c@ == self@,
    {
        ConfiglBlockBody {
            list_of_elector_nodes: self.list_of_elector_nodes.clone(),
            pace_of_block_creation: self.pace_of_block_creation,
            heartbeat_frequency: self.heartbeat_frequency,
            min_election_timeout: self.min_election_timeout,
            max_election_timeout: self.max_election_timeout,
        }
    }
}

impl Default for ConfiglBlockBody {
    /// No electors; a block every 10000 ms, a heartbeat every 1500 ms and
    /// election timeouts between 15000 and 50000 ms.
    fn default() -> (c: ConfiglBlockBody)
        ensures
            c@ == default_config(),
    {
        let electors: ElectorMap = BTreeMap::new();
        let c = ConfiglBlockBody {
            list_of_elector_nodes: electors,
            pace_of_block_creation: 10000,
            heartbeat_frequency: 1500,
            min_election_timeout: 15000,
            max_election_timeout: 50000,
        };
        assert(c@.electors =~= Map::empty());
        c
    }
}

/// The default configuration.
pub open spec fn default_config() -> ConfigView {
    ConfigView {
        electors: Map::empty(),
        pace_of_block_creation: 10000,
        heartbeat_frequency: 1500,
        min_election_timeout: 15000,
        max_election_timeout: 50000,
    }
}

/// What a block body holds.
pub enum BodyView {
    Normal { text: Seq<char> },
    Config { config: ConfigView },
}

/// The body of a block.
#[derive(Clone, Debug)]
pub enum BlockBody {
    Normal(NormalBlockBody),
    Config(ConfiglBlockBody),
}

impl View for BlockBody {
    type V = BodyView;

    open spec fn view(&self) -> BodyView {
        match self {
            BlockBody::Normal(n) => BodyView::Normal { text: n.text@ },
            BlockBody::Config(c) => BodyView::Config { config: c@ },
        }
    }
}

impl BlockBody {
    /// A copy of this body.
    pub fn duplicate(&self) -> (b: BlockBody)
        ensures
            b@ == self@,
    {
        match self {
            BlockBody::Normal(n) => BlockBody::Normal(NormalBlockBody { text: n.text.clone() }),
            BlockBody::Config(c) => BlockBody::Config(c.duplicate()),
        }
    }
}

/// The wire encoding of a configuration.
pub open spec fn enc_config(c: ConfigView) -> Seq<u8> {
    enc_electors(c.electors) + enc_u64(c.pace_of_block_creation) + enc_u64(c.heartbeat_frequency)
        + enc_u64(c.min_election_timeout) + enc_u64(c.max_election_timeout)
}

/// The wire encoding of a body: the variant index, then the variant's content.
pub open spec fn enc_body(b: BodyView) -> Seq<u8> {
    match b {
        BodyView::Normal { text } => enc_u32(0) + enc_str(text),
        BodyView::Config { config } => enc_u32(1) + enc_config(config),
    }
}

/// Appends the encoding of a body.
pub fn write_body(out: &mut Vec<u8>, b: &BlockBody)
    ensures
        final(out)@ == old(out)@ + enc_body(b@),
{
    match b {
        BlockBody::Normal(n) => {
            write_u32(out, 0);
            write_str(out, n.text.as_str());
        },
        BlockBody::Config(c) => {
            write_u32(out, 1);
            write_electors(out, &c.list_of_elector_nodes);
            write_u64(out, c.pace_of_block_creation);
            write_u64(out, c.heartbeat_frequency);
            write_u64(out, c.min_election_timeout);
            write_u64(out, c.max_election_timeout);
        },
    }
    assert(final(out)@ =~= old(out)@ + enc_body(b@));
}

/// The bytes that a block's hash is taken over: header, then body.
pub open spec fn hashed_bytes(h: HeaderView, b: BodyView) -> Seq<u8> {
    enc_header(h) + enc_body(b)
}

/// The hash of a block with this header and body: lowercase hexadecimal SHA-256
/// of their encoding.
pub open spec fn content_hash(h: HeaderView, b: BodyView) -> Seq<char> {
    spec_sha256_hex(hashed_bytes(h, b))
}

/// The hash of `header` and `body`.
pub fn hash_of(header: &BlockHeader, body: &BlockBody) -> (hash: String)
    ensures
        hash@ == content_hash(header@, body@),
        hash@.len() == 64,
{
    let mut data: Vec<u8> = Vec::new();
    write_header(&mut data, header);
    write_body(&mut data, body);
    assert(data@ =~= hashed_bytes(header@, body@));
    sha256_hex(data.as_slice())
}

/// The trailer of a block: the proposer's signature of the block's hash.
#[derive(Clone, Debug)]
pub struct BlockTrailer {
    pub proposer_signature: Vec<u8>,
}

/// The signature that `keypair` makes of the hash of a header and body:
/// the signed message is the UTF-8 text of the hash.
pub open spec fn content_signature(keypair: Seq<u8>, h: HeaderView, b: BodyView) -> Seq<u8> {
    ed25519_signature(keypair, encode_utf8(content_hash(h, b)))
}

impl BlockTrailer {
    /// The trailer that signs the hash of `block_header` and `block_body` with `key_pair`.
    pub fn new(block_header: &BlockHeader, block_body: &BlockBody, key_pair: &KeyPair) -> (t: BlockTrailer)
        ensures
            t.proposer_signature@ == content_signature(key_pair@, block_header@, block_body@),
            t.proposer_signature@.len() == 64,
            ed25519_signature_accepted(t.proposer_signature@),
            ed25519_keypair_matched(key_pair@) ==> ed25519_verifies(
                key_pair@.subrange(32, 64),
                encode_utf8(content_hash(block_header@, block_body@)),
                t.proposer_signature@,
            ),
    {
        let hash = hash_of(block_header, block_body);
        let signature = key_pair.sign(hash.as_str().as_bytes());
        BlockTrailer { proposer_signature: signature }
    }

    /// A copy of this trailer.
    pub fn duplicate(&self) -> (t: BlockTrailer)
        ensures
            t.proposer_signature@ == self.proposer_signature@,
    {
        let mut sig: Vec<u8> = Vec::new();
        append_bytes(&mut sig, self.proposer_signature.as_slice());
        BlockTrailer { proposer_signature: sig }
    }
}

/// What a block holds.
pub struct BlockView {
    pub header: HeaderView,
    pub body: BodyView,
    pub signature: Seq<u8>,
}

/// A block: header, body, and the proposer's signature of their hash.
#[derive(Clone, Debug)]
pub struct Block {
    pub header: BlockHeader,
    pub block_body: BlockBody,
    pub block_trailer: BlockTrailer,
}

impl View for Block {
    type V = BlockView;

    open spec fn view(&self) -> BlockView {
        BlockView {
            header: self.header@,
            body: self.block_body@,
            signature: self.block_trailer.proposer_signature@,
        }
    }
}

/// The hash of a block.
pub open spec fn block_hash(b: BlockView) -> Seq<char> {
    content_hash(b.header, b.body)
}

/// The text of the body of the ordinary block with id `block_id`.
pub open spec fn normal_block_text(block_id: u64) -> Seq<char> {
    "This is block with id "@ + decimal(block_id as nat)
}

/// The body that `Block::new` gives a block of this kind and id.
pub open spec fn new_block_body(block_type: BlockType, block_id: u64) -> BodyView {
    match block_type {
        BlockType::Normal => BodyView::Normal { text: normal_block_text(block_id) },
        BlockType::Config => BodyView::Config { config: default_config() },
    }
}

/// The header that the genesis block of `leader_id` carries, at `timestamp`.
pub open spec fn genesis_header(leader_id: u64, timestamp: u128) -> HeaderView {
    HeaderView {
        block_id: 1,
        epoch_seq_num: 1,
        block_type: BlockType::Config,
        prev_block_size: 0,
        timestamp,
        prev_block_hash: seq!['1'],
        proposer: leader_id,
    }
}

/// A block signed with `keypair` over this header and body.
pub open spec fn signed_block(keypair: Seq<u8>, h: HeaderView, b: BodyView) -> BlockView {
    BlockView { header: h, body: b, signature: content_signature(keypair, h, b) }
}

/// Whether the block's signature of its hash verifies under the public half
/// of key pair `keypair`.
pub open spec fn signed_with(b: BlockView, keypair: Seq<u8>) -> bool {
    ed25519_verifies(keypair.subrange(32, 64), encode_utf8(block_hash(b)), b.signature)
}

/// Whether the elector list names the block's proposer, and the block's
/// signature of its hash verifies under that elector's public key.
pub open spec fn signed_by_elector(b: BlockView, electors: Map<u64, Seq<u8>>) -> bool {
    &&& electors.contains_key(b.header.proposer)
    &&& ed25519_verifies(electors[b.header.proposer], encode_utf8(block_hash(b)), b.signature)
}

/// The short text that shows a block: its id, its timestamp, its kind and
/// the first five characters of its hash.
pub open spec fn spec_describe(b: BlockView) -> Seq<char> {
    "Block-id["@ + decimal(b.header.block_id as nat) + "], at: "@ + decimal(b.header.timestamp as nat)
        + ", type: "@ + b.header.block_type.spec_name() + ", hash: "@ + block_hash(b).subrange(0, 5) + " ..."@
}

/// A block that verifies under a key pair's public key is valid for every
/// elector list that gives its proposer that public key.
pub proof fn law_signed_block_is_valid(b: BlockView, keypair: Seq<u8>, electors: Map<u64, Seq<u8>>)
    requires
        signed_with(b, keypair),
        electors.contains_key(b.header.proposer),
        electors[b.header.proposer] == keypair.subrange(32, 64),
    ensures
        signed_by_elector(b, electors),
{
}

fn normal_text(block_id: u64) -> (text: String)
    ensures
        text@ == normal_block_text(block_id),
{
    let mut text = String::from_str("This is block with id ");
    let digits = decimal_string(block_id as u128);
    text.append(digits.as_str());
    text
}

impl Block {
    /// The block `Block::new` makes, stamped with `timestamp`: an ordinary
    /// block says "This is block with id N", a configuration block carries the
    /// default configuration; the trailer signs the hash with `key_pair`.
    pub fn new_at(
        block_id: u64,
        epoch_seq_num: u64,
        block_type: BlockType,
        prev_block_size: u64,
        prev_block_hash: String,
        proposer_id: u64,
        key_pair: &KeyPair,
        timestamp: u128,
    ) -> (b: Block)
        ensures
            b@ == signed_block(
                key_pair@,
                HeaderView {
                    block_id,
                    epoch_seq_num,
                    block_type,
                    prev_block_size,
                    timestamp,
                    prev_block_hash: prev_block_hash@,
                    proposer: proposer_id,
                },
                new_block_body(block_type, block_id),
            ),
            ed25519_keypair_matched(key_pair@) ==> signed_with(b@, key_pair@),
    {
        let block_body = match block_type {
            BlockType::Normal => BlockBody::Normal(NormalBlockBody::new(normal_text(block_id))),
            BlockType::Config => BlockBody::Config(ConfiglBlockBody::default()),
        };
        let header = BlockHeader::new_at(
            block_id,
            epoch_seq_num,
            block_type,
            prev_block_size,
            prev_block_hash,
            proposer_id,
            timestamp,
        );
        let block_trailer = BlockTrailer::new(&header, &block_body, key_pair);
        Block { header, block_body, block_trailer }
    }

    /// A new block stamped with the current time; `None` when the system
    /// clock reads earlier than the Unix epoch.
    pub fn new(
        block_id: u64,
        epoch_seq_num: u64,
        block_type: BlockType,
        prev_block_size: u64,
        prev_block_hash: String,
        proposer_id: u64,
        key_pair: &KeyPair,
    ) -> (b: Option<Block>)
        ensures
            b matches Some(b) ==> b@ == signed_block(
                key_pair@,
                HeaderView {
                    block_id,
                    epoch_seq_num,
                    block_type,
                    prev_block_size,
                    timestamp: b.header.timestamp,
                    prev_block_hash: prev_block_hash@,
                    proposer: proposer_id,
                },
                new_block_body(block_type, block_id),
            ),
            b matches Some(b) ==> (ed25519_keypair_matched(key_pair@) ==> signed_with(b@, key_pair@)),
            b matches Some(b) ==> b.header.timestamp <= u64::MAX,
    {
        match seconds_since_epoch() {
            Some(secs) => Some(
                Block::new_at(
                    block_id,
                    epoch_seq_num,
                    block_type,
                    prev_block_size,
                    prev_block_hash,
                    proposer_id,
                    key_pair,
                    secs as u128,
                ),
            ),
            None => None,
        }
    }

    /// The genesis block of `leader_id`, stamped with `timestamp`: block 1,
    /// epoch 1, a configuration block whose previous hash is "1", carrying
    /// `genesis_block_body`.
    pub fn genesis_at(
        genesis_block_body: ConfiglBlockBody,
        leader_id: u64,
        key_pair: &KeyPair,
        timestamp: u128,
    ) -> (b: Block)
        ensures
            b@ == signed_block(
                key_pair@,
                genesis_header(leader_id, timestamp),
                BodyView::Config { config: genesis_block_body@ },
            ),
            ed25519_keypair_matched(key_pair@) ==> signed_with(b@, key_pair@),
    {
        let prev = String::from_str("1");
        proof {
            reveal_strlit("1");
        }
        assert(prev@ =~= seq!['1']);
        let header = BlockHeader::new_at(1, 1, BlockType::Config, 0, prev, leader_id, timestamp);
        let block_body = BlockBody::Config(genesis_block_body);
        let block_trailer = BlockTrailer::new(&header, &block_body, key_pair);
        Block { header, block_body, block_trailer }
    }

    /// The genesis block of `leader_id`, stamped with the current time;
    /// `None` when the system clock reads earlier than the Unix epoch.
    pub fn genesis(genesis_block_body: ConfiglBlockBody, leader_id: u64, key_pair: &KeyPair) -> (b: Option<Block>)
        ensures
            b matches Some(b) ==> b@ == signed_block(
                key_pair@,
                genesis_header(leader_id, b.header.timestamp),
                BodyView::Config { config: genesis_block_body@ },
            ),
            b matches Some(b) ==> (ed25519_keypair_matched(key_pair@) ==> signed_with(b@, key_pair@)),
            b matches Some(b) ==> b.header.timestamp <= u64::MAX,
    {
        match seconds_since_epoch() {
            Some(secs) => Some(Block::genesis_at(genesis_block_body, leader_id, key_pair, secs as u128)),
            None => None,
        }
    }

    /// The block's hash: lowercase hexadecimal SHA-256 of the encoding of its
    /// header followed by that of its body.
    pub fn hash(&self) -> (h: String)
        ensures
            h@ == block_hash(self@),
            h@.len() == 64,
    {
        hash_of(&self.header, &self.block_body)
    }

    /// Whether the proposer is in the elector list and the block's signature
    /// of its hash verifies under the proposer's public key.
    pub fn is_valid(&self, elector_list: &ElectorMap) -> (valid: bool)
        ensures
            valid == signed_by_elector(self@, elector_view(elector_list)),
    {
        proof {
            broadcast use vstd::std_specs::btree::group_btree_axioms;
        }
        match elector_list.get(&self.header.proposer) {
            Some(public_key) => {
                let hash = self.hash();
                signature_verifies(public_key.as_slice(), hash.as_str().as_bytes(), self.block_trailer.proposer_signature.as_slice())
            },
            None => false,
        }
    }

    /// The short text that shows this block, as in
    /// "Block-id[3], at: 1600000000, type: Normal, hash: 1a2b3 ...".
    pub fn describe(&self) -> (s: String)
        ensures
            s@ == spec_describe(self@),
    {
        let mut s = String::from_str("Block-id[");
        s.append(decimal_string(self.header.block_id as u128).as_str());
        s.append("], at: ");
        s.append(decimal_string(self.header.timestamp).as_str());
        s.append(", type: ");
        s.append(self.header.block_type.name().as_str());
        s.append(", hash: ");
        let hash = self.hash();
        s.append(hash.as_str().substring_char(0, 5));
        s.append(" ...");
        s
    }

    /// A copy of this block.
    pub fn duplicate(&self) -> (b: Block)
        ensures
            b@ == self@,
    {
        Block {
            header: self.header.duplicate(),
            block_body: self.block_body.duplicate(),
            block_trailer: self.block_trailer.duplicate(),
        }
    }
}

} // verus!
