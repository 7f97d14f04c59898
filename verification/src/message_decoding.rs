//! Reading blocks and signed messages back from the wire, and the proof
//! that what a node sends is read back as it was sent.

use vstd::prelude::*;
use vstd::slice::slice_subrange;
use vstd::utf8::encode_utf8;
use vstd::bytes::{lemma_auto_spec_u32_to_from_le_bytes, lemma_auto_spec_u64_to_from_le_bytes, lemma_auto_spec_u128_to_from_le_bytes};
use crate::block::{
    BlockType, HeaderView, BodyView, ConfigView, BlockView, BlockHeader, BlockBody, NormalBlockBody,
    ConfiglBlockBody, Block, BlockTrailer, enc_header, enc_body, enc_config, hashed_bytes,
};
use crate::crypto::{ed25519_signature_accepted, signature_accepted};
use crate::decoding::{at, read_as, rd_u32, rd_u64, rd_u128, rd_bytes, rd_str, rd_electors, read_u32, read_u64, read_u128, read_bytes, read_str, read_electors, keys_well_formed, lemma_rd_u32, lemma_rd_u64, lemma_rd_u128, lemma_rd_bytes, lemma_rd_str, lemma_rd_electors, lemma_at_split};
use crate::electors::enc_electors;
use crate::encoding::{enc_u32, enc_u64, enc_u128, enc_bytes, enc_str, append_bytes};
use crate::messages::{
    MessageTypeView, NetworkMessage, NetworkMessageType, NewBlockInfo, RaftMessage, RequestBlockMessage, enc_block,
    enc_message_type, signed_bytes,
};

verus! {

/// A block kind at `p`, by its variant index.
pub open spec fn rd_block_type(b: Seq<u8>, p: int) -> Option<(BlockType, int)> {
    match rd_u32(b, p) {
        Some((t, q)) => if t == 0 {
            Some((BlockType::Normal, q))
        } else if t == 1 {
            Some((BlockType::Config, q))
        } else {
            None
        },
        None => None,
    }
}

/// A block header at `p`.
pub open spec fn rd_header(b: Seq<u8>, p: int) -> Option<(HeaderView, int)> {
    match rd_u64(b, p) {
        None => None,
        Some((block_id, p1)) => match rd_u64(b, p1) {
            None => None,
            Some((epoch_seq_num, p2)) => match rd_block_type(b, p2) {
                None => None,
                Some((block_type, p3)) => match rd_u64(b, p3) {
                    None => None,
                    Some((prev_block_size, p4)) => match rd_u128(b, p4) {
                        None => None,
                        Some((timestamp, p5)) => match rd_str(b, p5) {
                            None => None,
                            Some((prev_block_hash, p6)) => match rd_u64(b, p6) {
                                None => None,
                                Some((proposer, p7)) => Some(
                                    (
                                        HeaderView {
                                            block_id,
                                            epoch_seq_num,
                                            block_type,
                                            prev_block_size,
                                            timestamp,
                                            prev_block_hash,
                                            proposer,
                                        },
                                        p7,
                                    ),
                                ),
                            },
                        },
                    },
                },
            },
        },
    }
}

/// A configuration at `p`.
pub open spec fn rd_config(b: Seq<u8>, p: int) -> Option<(ConfigView, int)> {
    match rd_electors(b, p) {
        None => None,
        Some((electors, p1)) => match rd_u64(b, p1) {
            None => None,
            Some((pace_of_block_creation, p2)) => match rd_u64(b, p2) {
                None => None,
                Some((heartbeat_frequency, p3)) => match rd_u64(b, p3) {
                    None => None,
                    Some((min_election_timeout, p4)) => match rd_u64(b, p4) {
                        None => None,
                        Some((max_election_timeout, p5)) => Some(
                            (
                                ConfigView {
                                    electors,
                                    pace_of_block_creation,
                                    heartbeat_frequency,
                                    min_election_timeout,
                                    max_election_timeout,
                                },
                                p5,
                            ),
                        ),
                    },
                },
            },
        },
    }
}

/// A block body at `p`, by its variant index.
pub open spec fn rd_body(b: Seq<u8>, p: int) -> Option<(BodyView, int)> {
    match rd_u32(b, p) {
        None => None,
        Some((t, q)) => if t == 0 {
            match rd_str(b, q) {
                Some((text, r)) => Some((BodyView::Normal { text }, r)),
                None => None,
            }
        } else if t == 1 {
            match rd_config(b, q) {
                Some((config, r)) => Some((BodyView::Config { config }, r)),
                None => None,
            }
        } else {
            None
        },
    }
}

/// A signature at `p`: 64 bytes that ed25519-dalek accepts as one.
pub open spec fn rd_signature(b: Seq<u8>, p: int) -> Option<(Seq<u8>, int)> {
    if 0 <= p && p + 64 <= b.len() && ed25519_signature_accepted(b.subrange(p, p + 64)) {
        Some((b.subrange(p, p + 64), p + 64))
    } else {
        None
    }
}

/// A block at `p`: header, body, signature.
pub open spec fn rd_block(b: Seq<u8>, p: int) -> Option<(BlockView, int)> {
    match rd_header(b, p) {
        None => None,
        Some((header, p1)) => match rd_body(b, p1) {
            None => None,
            Some((body, p2)) => match rd_signature(b, p2) {
                None => None,
                Some((signature, p3)) => Some((BlockView { header, body, signature }, p3)),
            },
        },
    }
}

/// The content of a message at `p`, by its variant index.
pub open spec fn rd_message_type(b: Seq<u8>, p: int) -> Option<(MessageTypeView, int)> {
    match rd_u32(b, p) {
        None => None,
        Some((t, q)) => if t == 0 {
            match rd_u64(b, q) {
                None => None,
                Some((from, q1)) => match rd_u64(b, q1) {
                    None => None,
                    Some((block_id, q2)) => match rd_str(b, q2) {
                        None => None,
                        Some((block_hash, q3)) => Some((MessageTypeView::BlockNew { from, block_id, block_hash }, q3)),
                    },
                },
            }
        } else if t == 1 {
            match rd_bytes(b, q) {
                None => None,
                Some((content, q1)) => Some((MessageTypeView::RaftMessage { content }, q1)),
            }
        } else if t == 2 {
            match rd_u64(b, q) {
                None => None,
                Some((requester_id, q1)) => match rd_u64(b, q1) {
                    None => None,
                    Some((block_id, q2)) => match rd_str(b, q2) {
                        None => None,
                        Some((block_hash, q3)) => Some(
                            (MessageTypeView::RequestBlock { requester_id, block_id, block_hash }, q3),
                        ),
                    },
                },
            }
        } else if t == 3 {
            match rd_block(b, q) {
                None => None,
                Some((block, q1)) => Some((MessageTypeView::RequestBlockResponse { block }, q1)),
            }
        } else {
            None
        },
    }
}

/// What a received frame holds.
pub struct FrameView {
    pub from: u64,
    pub to: u64,
    pub data: MessageTypeView,
    pub signature: Seq<u8>,
}

/// The message a frame holds: sender, receiver, content and signature;
/// bytes after the signature are ignored.
pub open spec fn rd_frame(b: Seq<u8>) -> Option<FrameView> {
    match rd_u64(b, 0) {
        None => None,
        Some((from, p1)) => match rd_u64(b, p1) {
            None => None,
            Some((to, p2)) => match rd_message_type(b, p2) {
                None => None,
                Some((data, p3)) => match rd_signature(b, p3) {
                    None => None,
                    Some((signature, _p4)) => Some(FrameView { from, to, data, signature }),
                },
            },
        },
    }
}

/// Reads a block kind at `p`.
fn read_block_type(b: &[u8], p: usize) -> (r: Option<(BlockType, usize)>)
    ensures
        match r {
            Some((t, q)) => rd_block_type(b@, p as int) == Some((t, q as int)),
            None => rd_block_type(b@, p as int) is None,
        },
{
    match read_u32(b, p) {
        Some((t, q)) => if t == 0 {
            Some((BlockType::Normal, q))
        } else if t == 1 {
            Some((BlockType::Config, q))
        } else {
            None
        },
        None => None,
    }
}

/// Reads a block header at `p`.
pub fn read_header(b: &[u8], p: usize) -> (r: Option<(BlockHeader, usize)>)
    ensures
        read_as(r, rd_header(b@, p as int)),
{
    let (block_id, p1) = match read_u64(b, p) {
        Some(x) => x,
        None => {
            return None;
        },
    };
    let (epoch_seq_num, p2) = match read_u64(b, p1) {
        Some(x) => x,
        None => {
            return None;
        },
    };
    let (block_type, p3) = match read_block_type(b, p2) {
        Some(x) => x,
        None => {
            return None;
        },
    };
    let (prev_block_size, p4) = match read_u64(b, p3) {
        Some(x) => x,
        None => {
            return None;
        },
    };
    let (timestamp, p5) = match read_u128(b, p4) {
        Some(x) => x,
        None => {
            return None;
        },
    };
    let (prev_block_hash, p6) = match read_str(b, p5) {
        Some(x) => x,
        None => {
            return None;
        },
    };
    let (proposer, p7) = match read_u64(b, p6) {
        Some(x) => x,
        None => {
            return None;
        },
    };
    Some(
        (
            BlockHeader { block_id, epoch_seq_num, block_type, prev_block_size, timestamp, prev_block_hash, proposer },
            p7,
        ),
    )
}

/// Reads a configuration at `p`.
pub fn read_config(b: &[u8], p: usize) -> (r: Option<(ConfiglBlockBody, usize)>)
    ensures
        read_as(r, rd_config(b@, p as int)),
{
    let (list_of_elector_nodes, p1) = match read_electors(b, p) {
        Some(x) => x,
        None => {
            return None;
        },
    };
    let (pace_of_block_creation, p2) = match read_u64(b, p1) {
        Some(x) => x,
        None => {
            return None;
        },
    };
    let (heartbeat_frequency, p3) = match read_u64(b, p2) {
        Some(x) => x,
        None => {
            return None;
        },
    };
    let (min_election_timeout, p4) = match read_u64(b, p3) {
        Some(x) => x,
        None => {
            return None;
        },
    };
    let (max_election_timeout, p5) = match read_u64(b, p4) {
        Some(x) => x,
        None => {
            return None;
        },
    };
    Some(
        (
            ConfiglBlockBody {
                list_of_elector_nodes,
                pace_of_block_creation,
                heartbeat_frequency,
                min_election_timeout,
                max_election_timeout,
            },
            p5,
        ),
    )
}

/// Reads a block body at `p`.
pub fn read_body(b: &[u8], p: usize) -> (r: Option<(BlockBody, usize)>)
    ensures
        read_as(r, rd_body(b@, p as int)),
{
    let (t, q) = match read_u32(b, p) {
        Some(x) => x,
        None => {
            return None;
        },
    };
    if t == 0 {
        match read_str(b, q) {
            Some((text, r)) => Some((BlockBody::Normal(NormalBlockBody { text }), r)),
            None => None,
        }
    } else if t == 1 {
        match read_config(b, q) {
            Some((config, r)) => Some((BlockBody::Config(config), r)),
            None => None,
        }
    } else {
        None
    }
}

/// Reads a signature at `p`.
fn read_signature(b: &[u8], p: usize) -> (r: Option<(Vec<u8>, usize)>)
    ensures
        read_as(r, rd_signature(b@, p as int)),
{
    if p <= b.len() && b.len() - p >= 64 {
        let bytes = slice_subrange(b, p, p + 64);
        if signature_accepted(bytes) {
            let mut sig: Vec<u8> = Vec::new();
            append_bytes(&mut sig, bytes);
            return Some((sig, p + 64));
        }
    }
    None
}

/// Reads a block at `p`.
pub fn read_block(b: &[u8], p: usize) -> (r: Option<(Block, usize)>)
    ensures
        read_as(r, rd_block(b@, p as int)),
{
    let (header, p1) = match read_header(b, p) {
        Some(x) => x,
        None => {
            return None;
        },
    };
    let (block_body, p2) = match read_body(b, p1) {
        Some(x) => x,
        None => {
            return None;
        },
    };
    let (proposer_signature, p3) = match read_signature(b, p2) {
        Some(x) => x,
        None => {
            return None;
        },
    };
    Some((Block { header, block_body, block_trailer: BlockTrailer { proposer_signature } }, p3))
}

/// Reads the content of a message at `p`.
pub fn read_message_type(b: &[u8], p: usize) -> (r: Option<(NetworkMessageType, usize)>)
    ensures
        read_as(r, rd_message_type(b@, p as int)),
{
    let (t, q) = match read_u32(b, p) {
        Some(x) => x,
        None => {
            return None;
        },
    };
    if t == 0 || t == 2 {
        let (first, q1) = match read_u64(b, q) {
            Some(x) => x,
            None => {
                return None;
            },
        };
        let (block_id, q2) = match read_u64(b, q1) {
            Some(x) => x,
            None => {
                return None;
            },
        };
        let (block_hash, q3) = match read_str(b, q2) {
            Some(x) => x,
            None => {
                return None;
            },
        };
        if t == 0 {
            Some((NetworkMessageType::BlockNew(NewBlockInfo { from: first, block_id, block_hash }), q3))
        } else {
            Some(
                (
                    NetworkMessageType::RequestBlock(RequestBlockMessage { requester_id: first, block_id, block_hash }),
                    q3,
                ),
            )
        }
    } else if t == 1 {
        match read_bytes(b, q) {
            Some((content, q1)) => Some((NetworkMessageType::RaftMessage(RaftMessage { content }), q1)),
            None => None,
        }
    } else if t == 3 {
        match read_block(b, q) {
            Some((block, q1)) => Some((NetworkMessageType::RequestBlockResponse(block), q1)),
            None => None,
        }
    } else {
        None
    }
}

/// The message a received frame holds, if it holds one: sender, receiver,
/// content and signature, as `rd_frame` reads them.
pub fn decode_frame(bytes: &[u8]) -> (m: Option<NetworkMessage>)
    ensures
        match m {
            Some(m) => rd_frame(bytes@) == Some(
                FrameView { from: m.from, to: m.to, data: m.message_type@, signature: m.signature@ },
            ),
            None => rd_frame(bytes@) is None,
        },
{
    let (from, p1) = match read_u64(bytes, 0) {
        Some(x) => x,
        None => {
            return None;
        },
    };
    let (to, p2) = match read_u64(bytes, p1) {
        Some(x) => x,
        None => {
            return None;
        },
    };
    let (message_type, p3) = match read_message_type(bytes, p2) {
        Some(x) => x,
        None => {
            return None;
        },
    };
    let (signature, _p4) = match read_signature(bytes, p3) {
        Some(x) => x,
        None => {
            return None;
        },
    };
    Some(NetworkMessage { from, to, message_type, signature })
}

// ---------------------------------------------------------------------------
// What a node sends reads back as it was sent.

/// A text whose UTF-8 encoding has a length that a `u64` holds.
pub open spec fn text_fits(s: Seq<char>) -> bool {
    encode_utf8(s).len() <= u64::MAX
}

/// A configuration whose elector map the wire format carries: finite, with
/// a count a `u64` holds, and accepted public keys.
pub open spec fn config_fits(c: ConfigView) -> bool {
    &&& c.electors.dom().finite()
    &&& c.electors.len() <= u64::MAX
    &&& keys_well_formed(c.electors)
}

/// A body that the wire format carries.
pub open spec fn body_fits(b: BodyView) -> bool {
    match b {
        BodyView::Normal { text } => text_fits(text),
        BodyView::Config { config } => config_fits(config),
    }
}

/// A signature that reads back: 64 bytes that ed25519-dalek accepts.
pub open spec fn signature_fits(sig: Seq<u8>) -> bool {
    sig.len() == 64 && ed25519_signature_accepted(sig)
}

/// A block that the wire format carries.
pub open spec fn block_fits(b: BlockView) -> bool {
    &&& text_fits(b.header.prev_block_hash)
    &&& body_fits(b.body)
    &&& signature_fits(b.signature)
}

/// A message content that the wire format carries.
pub open spec fn message_fits(m: MessageTypeView) -> bool {
    match m {
        MessageTypeView::BlockNew { block_hash, .. } => text_fits(block_hash),
        MessageTypeView::RaftMessage { content } => content.len() <= u64::MAX,
        MessageTypeView::RequestBlock { block_hash, .. } => text_fits(block_hash),
        MessageTypeView::RequestBlockResponse { block } => block_fits(block),
    }
}

proof fn lemma_enc_lengths()
    ensures
        forall|x: u64| #[trigger] enc_u64(x).len() == 8,
        forall|x: u32| #[trigger] enc_u32(x).len() == 4,
        forall|x: u128| #[trigger] enc_u128(x).len() == 16,
{
    lemma_auto_spec_u64_to_from_le_bytes();
    lemma_auto_spec_u32_to_from_le_bytes();
    lemma_auto_spec_u128_to_from_le_bytes();
}

proof fn lemma_rd_block_type(b: Seq<u8>, p: int, t: BlockType)
    requires
        at(b, p, enc_u32(t.index())),
    ensures
        rd_block_type(b, p) == Some((t, p + 4)),
{
    lemma_rd_u32(b, p, t.index());
}

proof fn lemma_rd_header(b: Seq<u8>, p: int, h: HeaderView)
    requires
        at(b, p, enc_header(h)),
        text_fits(h.prev_block_hash),
    ensures
        rd_header(b, p) == Some((h, p + enc_header(h).len())),
{
    lemma_enc_lengths();
    let e1 = enc_u64(h.block_id);
    let e2 = e1 + enc_u64(h.epoch_seq_num);
    let e3 = e2 + enc_u32(h.block_type.index());
    let e4 = e3 + enc_u64(h.prev_block_size);
    let e5 = e4 + enc_u128(h.timestamp);
    let e6 = e5 + enc_str(h.prev_block_hash);
    assert(enc_header(h) == e6 + enc_u64(h.proposer));
    lemma_at_split(b, p, e6, enc_u64(h.proposer));
    lemma_at_split(b, p, e5, enc_str(h.prev_block_hash));
    lemma_at_split(b, p, e4, enc_u128(h.timestamp));
    lemma_at_split(b, p, e3, enc_u64(h.prev_block_size));
    lemma_at_split(b, p, e2, enc_u32(h.block_type.index()));
    lemma_at_split(b, p, e1, enc_u64(h.epoch_seq_num));
    lemma_rd_u64(b, p, h.block_id);
    lemma_rd_u64(b, p + 8, h.epoch_seq_num);
    lemma_rd_block_type(b, p + 16, h.block_type);
    lemma_rd_u64(b, p + 20, h.prev_block_size);
    lemma_rd_u128(b, p + 28, h.timestamp);
    lemma_rd_str(b, p + 44, h.prev_block_hash);
    lemma_rd_u64(b, p + e6.len(), h.proposer);
}

proof fn lemma_rd_config(b: Seq<u8>, p: int, c: ConfigView)
    requires
        at(b, p, enc_config(c)),
        config_fits(c),
    ensures
        rd_config(b, p) == Some((c, p + enc_config(c).len())),
{
    lemma_enc_lengths();
    let e1 = enc_electors(c.electors);
    let e2 = e1 + enc_u64(c.pace_of_block_creation);
    let e3 = e2 + enc_u64(c.heartbeat_frequency);
    let e4 = e3 + enc_u64(c.min_election_timeout);
    assert(enc_config(c) == e4 + enc_u64(c.max_election_timeout));
    lemma_at_split(b, p, e4, enc_u64(c.max_election_timeout));
    lemma_at_split(b, p, e3, enc_u64(c.min_election_timeout));
    lemma_at_split(b, p, e2, enc_u64(c.heartbeat_frequency));
    lemma_at_split(b, p, e1, enc_u64(c.pace_of_block_creation));
    lemma_rd_electors(b, p, c.electors);
    lemma_rd_u64(b, p + e1.len(), c.pace_of_block_creation);
    lemma_rd_u64(b, p + e1.len() + 8, c.heartbeat_frequency);
    lemma_rd_u64(b, p + e1.len() + 16, c.min_election_timeout);
    lemma_rd_u64(b, p + e1.len() + 24, c.max_election_timeout);
}

proof fn lemma_rd_body(b: Seq<u8>, p: int, body: BodyView)
    requires
        at(b, p, enc_body(body)),
        body_fits(body),
    ensures
        rd_body(b, p) == Some((body, p + enc_body(body).len())),
{
    lemma_enc_lengths();
    match body {
        BodyView::Normal { text } => {
            lemma_at_split(b, p, enc_u32(0), enc_str(text));
            lemma_rd_u32(b, p, 0);
            lemma_rd_str(b, p + 4, text);
        },
        BodyView::Config { config } => {
            lemma_at_split(b, p, enc_u32(1), enc_config(config));
            lemma_rd_u32(b, p, 1);
            lemma_rd_config(b, p + 4, config);
        },
    }
}

proof fn lemma_rd_signature(b: Seq<u8>, p: int, sig: Seq<u8>)
    requires
        at(b, p, sig),
        signature_fits(sig),
    ensures
        rd_signature(b, p) == Some((sig, p + 64)),
{
}

proof fn lemma_rd_block(b: Seq<u8>, p: int, blk: BlockView)
    requires
        at(b, p, enc_block(blk)),
        block_fits(blk),
    ensures
        rd_block(b, p) == Some((blk, p + enc_block(blk).len())),
{
    let e1 = enc_header(blk.header);
    let e2 = e1 + enc_body(blk.body);
    lemma_at_split(b, p, e2, blk.signature);
    lemma_at_split(b, p, e1, enc_body(blk.body));
    lemma_rd_header(b, p, blk.header);
    lemma_rd_body(b, p + e1.len(), blk.body);
    lemma_rd_signature(b, p + e2.len(), blk.signature);
}

proof fn lemma_rd_message_type(b: Seq<u8>, p: int, m: MessageTypeView)
    requires
        at(b, p, enc_message_type(m)),
        message_fits(m),
    ensures
        rd_message_type(b, p) == Some((m, p + enc_message_type(m).len())),
{
    lemma_enc_lengths();
    match m {
        MessageTypeView::BlockNew { from, block_id, block_hash } => {
            let e1 = enc_u32(0);
            let e2 = e1 + enc_u64(from);
            let e3 = e2 + enc_u64(block_id);
            lemma_at_split(b, p, e3, enc_str(block_hash));
            lemma_at_split(b, p, e2, enc_u64(block_id));
            lemma_at_split(b, p, e1, enc_u64(from));
            lemma_rd_u32(b, p, 0);
            lemma_rd_u64(b, p + 4, from);
            lemma_rd_u64(b, p + 12, block_id);
            lemma_rd_str(b, p + 20, block_hash);
        },
        MessageTypeView::RaftMessage { content } => {
            lemma_at_split(b, p, enc_u32(1), enc_bytes(content));
            lemma_rd_u32(b, p, 1);
            lemma_rd_bytes(b, p + 4, content);
        },
        MessageTypeView::RequestBlock { requester_id, block_id, block_hash } => {
            let e1 = enc_u32(2);
            let e2 = e1 + enc_u64(requester_id);
            let e3 = e2 + enc_u64(block_id);
            lemma_at_split(b, p, e3, enc_str(block_hash));
            lemma_at_split(b, p, e2, enc_u64(block_id));
            lemma_at_split(b, p, e1, enc_u64(requester_id));
            lemma_rd_u32(b, p, 2);
            lemma_rd_u64(b, p + 4, requester_id);
            lemma_rd_u64(b, p + 12, block_id);
            lemma_rd_str(b, p + 20, block_hash);
        },
        MessageTypeView::RequestBlockResponse { block } => {
            lemma_at_split(b, p, enc_u32(3), enc_block(block));
            lemma_rd_u32(b, p, 3);
            lemma_rd_block(b, p + 4, block);
        },
    }
}

/// The bytes a block's hash is taken over hold its whole header and its
/// whole body, configuration included: reading them back gives the header,
/// then the body, and nothing is left over.
pub proof fn law_hashed_bytes_read_back(h: HeaderView, body: BodyView)
    requires
        text_fits(h.prev_block_hash),
        body_fits(body),
    ensures
        ({
            let b = hashed_bytes(h, body);
            &&& rd_header(b, 0) == Some((h, enc_header(h).len() as int))
            &&& rd_body(b, enc_header(h).len() as int) == Some((body, b.len() as int))
        }),
{
    let b = hashed_bytes(h, body);
    assert(b == enc_header(h) + enc_body(body));
    assert(at(b, 0, enc_header(h) + enc_body(body))) by {
        assert(b.subrange(0, b.len() as int) =~= b);
    }
    lemma_at_split(b, 0, enc_header(h), enc_body(body));
    lemma_rd_header(b, 0, h);
    lemma_rd_body(b, enc_header(h).len() as int, body);
}

/// Blocks whose headers or bodies differ, configuration bodies included,
/// have different hashed bytes.
pub proof fn law_hashed_bytes_injective(h1: HeaderView, b1: BodyView, h2: HeaderView, b2: BodyView)
    requires
        text_fits(h1.prev_block_hash),
        body_fits(b1),
        text_fits(h2.prev_block_hash),
        body_fits(b2),
        hashed_bytes(h1, b1) == hashed_bytes(h2, b2),
    ensures
        h1 == h2,
        b1 == b2,
{
    law_hashed_bytes_read_back(h1, b1);
    law_hashed_bytes_read_back(h2, b2);
}

/// What a node sends reads back as it was sent: the frame of a message
/// whose content the wire format carries, with a well-formed signature,
/// reads back as that sender, receiver, content and signature.
pub proof fn law_frame_round_trip(from: u64, to: u64, data: MessageTypeView, signature: Seq<u8>)
    requires
        message_fits(data),
        signature_fits(signature),
    ensures
        rd_frame(signed_bytes(from, to, data) + signature) == Some(FrameView { from, to, data, signature }),
{
    lemma_enc_lengths();
    let b = signed_bytes(from, to, data) + signature;
    let e1 = enc_u64(from);
    let e2 = e1 + enc_u64(to);
    let e3 = e2 + enc_message_type(data);
    assert(b == e3 + signature);
    assert(at(b, 0, e3 + signature)) by {
        assert(b.subrange(0, b.len() as int) =~= b);
    }
    lemma_at_split(b, 0, e3, signature);
    lemma_at_split(b, 0, e2, enc_message_type(data));
    lemma_at_split(b, 0, e1, enc_u64(to));
    lemma_rd_u64(b, 0, from);
    lemma_rd_u64(b, 8, to);
    lemma_rd_message_type(b, 16, data);
    lemma_rd_signature(b, e3.len() as int, signature);
}

} // verus!
