//! Messages between nodes and between a node's parts, with the wire
//! encoding of those that are hashed, signed or sent.

use vstd::prelude::*;
use vstd::bytes::{spec_u64_from_le_bytes, u64_from_le_bytes, lemma_auto_spec_u64_to_from_le_bytes};
use vstd::slice::slice_subrange;
use vstd::utf8::{valid_utf8, decode_utf8, encode_utf8};
use crate::encoding::{enc_u32, enc_u64, enc_bytes, enc_str, write_u32, write_u64, write_bytes, write_str, append_bytes};
use crate::block::{Block, BlockView, enc_header, enc_body, write_header, write_body};
use crate::crypto::{
    KeyPair, ed25519_keypair_matched, ed25519_signature, ed25519_signature_accepted, ed25519_verifies,
    signature_verifies,
};
use crate::text::string_from_utf8;
use crate::message_decoding::{FrameView, message_fits, rd_frame, signature_fits, law_frame_round_trip};

verus! {

broadcast use vstd::utf8::encode_utf8_valid_utf8, vstd::utf8::encode_utf8_decode_utf8;

/// What a Raft log entry holds.
pub struct LogEntryView {
    pub block_id: u64,
    pub block_hash: Seq<char>,
}

/// The payload of a Raft log entry: the id and hash of a proposed block.
#[derive(Debug)]
pub struct RaftLogEntry {
    pub block_id: u64,
    pub block_hash: String,
}

impl View for RaftLogEntry {
    type V = LogEntryView;

    open spec fn view(&self) -> LogEntryView {
        LogEntryView { block_id: self.block_id, block_hash: self.block_hash@ }
    }
}

/// The wire encoding of a log entry: the id, then the hash as text.
pub open spec fn enc_log_entry(e: LogEntryView) -> Seq<u8> {
    enc_u64(e.block_id) + enc_str(e.block_hash)
}

/// What decoding gives for these bytes: an id, a length and that many bytes
/// of UTF-8 text; bytes after the text are ignored.
pub open spec fn spec_decode_log_entry(b: Seq<u8>) -> Option<LogEntryView> {
    if b.len() < 16 {
        None
    } else {
        let id = spec_u64_from_le_bytes(b.subrange(0, 8));
        let n = spec_u64_from_le_bytes(b.subrange(8, 16));
        if n > b.len() - 16 {
            None
        } else {
            let text = b.subrange(16, 16 + n);
            if valid_utf8(text) {
                Some(LogEntryView { block_id: id, block_hash: decode_utf8(text) })
            } else {
                None
            }
        }
    }
}

impl RaftLogEntry {
    /// The entry for a block with this id and hash.
    pub fn new(block_id: u64, block_hash: String) -> (e: RaftLogEntry)
        ensures
            e@ == (LogEntryView { block_id, block_hash: block_hash@ }),
    {
        RaftLogEntry { block_id, block_hash }
    }

    /// The wire encoding of this entry.
    pub fn encode(&self) -> (bytes: Vec<u8>)
        ensures
            bytes@ == enc_log_entry(self@),
    {
        let mut out: Vec<u8> = Vec::new();
        write_u64(&mut out, self.block_id);
        write_str(&mut out, self.block_hash.as_str());
        assert(out@ =~= enc_log_entry(self@));
        out
    }

    /// The entry these bytes encode, if they encode one.
    pub fn decode(bytes: &[u8]) -> (e: Option<RaftLogEntry>)
        ensures
            match e {
                Some(e) => spec_decode_log_entry(bytes@) == Some(e@),
                None => spec_decode_log_entry(bytes@) is None,
            },
    {
        if bytes.len() < 16 {
            return None;
        }
        let id = u64_from_le_bytes(slice_subrange(bytes, 0, 8));
        let n = u64_from_le_bytes(slice_subrange(bytes, 8, 16));
        let rest: usize = bytes.len() - 16;
        if n > rest as u64 {
            return None;
        }
        let end: usize = 16 + n as usize;
        let mut text: Vec<u8> = Vec::new();
        append_bytes(&mut text, slice_subrange(bytes, 16, end));
        match string_from_utf8(text) {
            Some(s) => Some(RaftLogEntry { block_id: id, block_hash: s }),
            None => None,
        }
    }
}

/// Decoding the encoding of a log entry gives the entry back.
pub proof fn law_log_entry_round_trip(e: LogEntryView)
    requires
        encode_utf8(e.block_hash).len() <= u64::MAX,
    ensures
        spec_decode_log_entry(enc_log_entry(e)) == Some(e),
{
    lemma_auto_spec_u64_to_from_le_bytes();
    let b = enc_log_entry(e);
    let text = encode_utf8(e.block_hash);
    assert(b.subrange(0, 8) =~= enc_u64(e.block_id));
    assert(b.subrange(8, 16) =~= enc_u64(text.len() as u64));
    assert(b.subrange(16, 16 + text.len() as int) =~= text);
}

/// A Raft protocol message, as the bytes the Raft engine encoded it into.
#[derive(Clone, Debug)]
pub struct RaftMessage {
    pub content: Vec<u8>,
}

impl RaftMessage {
    /// The message with these encoded bytes.
    pub fn new(content: Vec<u8>) -> (m: RaftMessage)
        ensures
            m.content@ == content@,
    {
        RaftMessage { content }
    }
}

/// The announcement that a node holds a new block.
#[derive(Clone, Debug)]
pub struct NewBlockInfo {
    pub from: u64,
    pub block_id: u64,
    pub block_hash: String,
}

impl NewBlockInfo {
    /// The announcement by node `from` of the block with this id and hash.
    pub fn new(from: u64, block_id: u64, block_hash: String) -> (i: NewBlockInfo)
        ensures
            i.from == from,
            i.block_id == block_id,
            i.block_hash@ == block_hash@,
    {
        NewBlockInfo { from, block_id, block_hash }
    }
}

/// A node's request for the block with this id and hash.
#[derive(Clone, Debug)]
pub struct RequestBlockMessage {
    pub requester_id: u64,
    pub block_id: u64,
    pub block_hash: String,
}

impl RequestBlockMessage {
    /// The request of node `requester_id` for the block with this id and hash.
    pub fn new(requester_id: u64, block_id: u64, block_hash: String) -> (r: RequestBlockMessage)
        ensures
            r.requester_id == requester_id,
            r.block_id == block_id,
            r.block_hash@ == block_hash@,
    {
        RequestBlockMessage { requester_id, block_id, block_hash }
    }
}

/// What a message between nodes carries.
pub enum MessageTypeView {
    BlockNew { from: u64, block_id: u64, block_hash: Seq<char> },
    RaftMessage { content: Seq<u8> },
    RequestBlock { requester_id: u64, block_id: u64, block_hash: Seq<char> },
    RequestBlockResponse { block: BlockView },
}

/// The content of a message between nodes.
#[derive(Clone, Debug)]
pub enum NetworkMessageType {
    BlockNew(NewBlockInfo),
    RaftMessage(RaftMessage),
    RequestBlock(RequestBlockMessage),
    RequestBlockResponse(Block),
}

impl View for NetworkMessageType {
    type V = MessageTypeView;

    open spec fn view(&self) -> MessageTypeView {
        match self {
            NetworkMessageType::BlockNew(i) => MessageTypeView::BlockNew {
                from: i.from,
                block_id: i.block_id,
                block_hash: i.block_hash@,
            },
            NetworkMessageType::RaftMessage(m) => MessageTypeView::RaftMessage { content: m.content@ },
            NetworkMessageType::RequestBlock(r) => MessageTypeView::RequestBlock {
                requester_id: r.requester_id,
                block_id: r.block_id,
                block_hash: r.block_hash@,
            },
            NetworkMessageType::RequestBlockResponse(b) => MessageTypeView::RequestBlockResponse { block: b@ },
        }
    }
}

/// The wire encoding of a whole block: header, body, then the 64 signature
/// bytes with no length in front.
pub open spec fn enc_block(b: BlockView) -> Seq<u8> {
    enc_header(b.header) + enc_body(b.body) + b.signature
}

/// Appends the encoding of a whole block.
pub fn write_block(out: &mut Vec<u8>, b: &Block)
    ensures
        final(out)@ == old(out)@ + enc_block(b@),
{
    write_header(out, &b.header);
    write_body(out, &b.block_body);
    append_bytes(out, b.block_trailer.proposer_signature.as_slice());
    assert(final(out)@ =~= old(out)@ + enc_block(b@));
}

/// The wire encoding of a message's content: the variant index, then its fields.
pub open spec fn enc_message_type(m: MessageTypeView) -> Seq<u8> {
    match m {
        MessageTypeView::BlockNew { from, block_id, block_hash } => enc_u32(0) + enc_u64(from) + enc_u64(block_id)
            + enc_str(block_hash),
        MessageTypeView::RaftMessage { content } => enc_u32(1) + enc_bytes(content),
        MessageTypeView::RequestBlock { requester_id, block_id, block_hash } => enc_u32(2) + enc_u64(requester_id)
            + enc_u64(block_id) + enc_str(block_hash),
        MessageTypeView::RequestBlockResponse { block } => enc_u32(3) + enc_block(block),
    }
}

/// Appends the encoding of a message's content.
pub fn write_message_type(out: &mut Vec<u8>, m: &NetworkMessageType)
    ensures
        final(out)@ == old(out)@ + enc_message_type(m@),
{
    match m {
        NetworkMessageType::BlockNew(i) => {
            write_u32(out, 0);
            write_u64(out, i.from);
            write_u64(out, i.block_id);
            write_str(out, i.block_hash.as_str());
        },
        NetworkMessageType::RaftMessage(r) => {
            write_u32(out, 1);
            write_bytes(out, r.content.as_slice());
        },
        NetworkMessageType::RequestBlock(r) => {
            write_u32(out, 2);
            write_u64(out, r.requester_id);
            write_u64(out, r.block_id);
            write_str(out, r.block_hash.as_str());
        },
        NetworkMessageType::RequestBlockResponse(b) => {
            write_u32(out, 3);
            write_block(out, b);
        },
    }
    assert(final(out)@ =~= old(out)@ + enc_message_type(m@));
}

/// The bytes a message's signature is made over: sender, receiver, content.
pub open spec fn signed_bytes(from: u64, to: u64, m: MessageTypeView) -> Seq<u8> {
    enc_u64(from) + enc_u64(to) + enc_message_type(m)
}

/// A signed message from one node to another.
#[derive(Clone, Debug)]
pub struct NetworkMessage {
    pub from: u64,
    pub to: u64,
    pub message_type: NetworkMessageType,
    pub signature: Vec<u8>,
}

fn signed_bytes_of(from: u64, to: u64, m: &NetworkMessageType) -> (bytes: Vec<u8>)
    ensures
        bytes@ == signed_bytes(from, to, m@),
{
    let mut bytes: Vec<u8> = Vec::new();
    write_u64(&mut bytes, from);
    write_u64(&mut bytes, to);
    write_message_type(&mut bytes, m);
    assert(bytes@ =~= signed_bytes(from, to, m@));
    bytes
}

impl NetworkMessage {
    /// The message from `from` to `to`, signed with `key_pair`.
    pub fn new(from: u64, to: u64, message_type: NetworkMessageType, key_pair: &KeyPair) -> (msg: NetworkMessage)
        ensures
            msg.from == from,
            msg.to == to,
            msg.message_type@ == message_type@,
            msg.signature@ == ed25519_signature(key_pair@, signed_bytes(from, to, message_type@)),
            msg.signature@.len() == 64,
            ed25519_signature_accepted(msg.signature@),
            ed25519_keypair_matched(key_pair@) ==> ed25519_verifies(
                key_pair@.subrange(32, 64),
                signed_bytes(from, to, message_type@),
                msg.signature@,
            ),
    {
        let bytes = signed_bytes_of(from, to, &message_type);
        let signature = key_pair.sign(bytes.as_slice());
        NetworkMessage { from, to, message_type, signature }
    }

    /// The bytes the signature is made over.
    pub fn get_bytes_for_signature(&self) -> (bytes: Vec<u8>)
        ensures
            bytes@ == signed_bytes(self.from, self.to, self.message_type@),
    {
        signed_bytes_of(self.from, self.to, &self.message_type)
    }

    /// The wire encoding of the message: sender, receiver, content, then the
    /// 64 signature bytes.
    pub fn serialize(&self) -> (bytes: Vec<u8>)
        ensures
            bytes@ == signed_bytes(self.from, self.to, self.message_type@) + self.signature@,
            message_fits(self.message_type@) && signature_fits(self.signature@) ==> rd_frame(bytes@) == Some(
                FrameView {
                    from: self.from,
                    to: self.to,
                    data: self.message_type@,
                    signature: self.signature@,
                },
            ),
    {
        let mut bytes = signed_bytes_of(self.from, self.to, &self.message_type);
        append_bytes(&mut bytes, self.signature.as_slice());
        proof {
            if message_fits(self.message_type@) && signature_fits(self.signature@) {
                law_frame_round_trip(self.from, self.to, self.message_type@, self.signature@);
            }
        }
        bytes
    }

    /// Whether the signature verifies under `public_key`.
    pub fn check_signature(&self, public_key: &[u8]) -> (ok: bool)
        ensures
            ok == ed25519_verifies(public_key@, signed_bytes(self.from, self.to, self.message_type@), self.signature@),
    {
        let bytes = self.get_bytes_for_signature();
        signature_verifies(public_key, bytes.as_slice(), self.signature.as_slice())
    }
}

/// A request to the network layer: send `data` to node `to`.
#[derive(Clone, Debug)]
pub struct SendToRequest {
    pub to: u64,
    pub data: NetworkMessageType,
}

impl SendToRequest {
    /// A request to send `data` to node `to`.
    pub fn new(to: u64, data: NetworkMessageType) -> (r: SendToRequest)
        ensures
            r.to == to,
            r.data@ == data@,
    {
        SendToRequest { to, data }
    }
}

/// A request to the network layer: send `data` to every peer.
#[derive(Clone, Debug)]
pub struct BroadCastRequest {
    pub data: NetworkMessageType,
}

impl BroadCastRequest {
    /// A request to send `data` to every peer.
    pub fn new(data: NetworkMessageType) -> (r: BroadCastRequest)
        ensures
            r.data@ == data@,
    {
        BroadCastRequest { data }
    }
}

/// A request to the network layer.
#[derive(Clone, Debug)]
pub enum NetworkManagerMessage {
    SendToRequest(SendToRequest),
    BroadCastRequest(BroadCastRequest),
}

/// A message for the node's main loop.
#[derive(Clone, Debug)]
pub enum NodeMessage {
    BlockNew(NewBlockInfo),
    RaftMessage(RaftMessage),
    RequestBlock(RequestBlockMessage),
    RequestBlockResponse(Block),
}

/// An update that a node passes on: a new block or a Raft message.
#[derive(Clone, Debug)]
pub enum Update {
    BlockNew(Block),
    RaftMessage(RaftMessage),
}

/// A message for the Raft engine.
#[derive(Clone, Debug)]
pub enum RaftNodeMessage {
    RaftMessage(RaftMessage),
    BlockNew(Block),
}

} // verus!
