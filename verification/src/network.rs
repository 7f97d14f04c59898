//! What the network layer decides: the signed frames it sends, and which
//! received messages reach the node.

use vstd::prelude::*;
use crate::crypto::{KeyPair, ed25519_signature, ed25519_verifies};
use crate::electors::{ElectorMap, elector_view};
use crate::messages::{
    MessageTypeView, NetworkManagerMessage, NetworkMessage, NetworkMessageType, NodeMessage, signed_bytes,
    write_message_type,
};
use crate::encoding::{write_u64, append_bytes};
use crate::node::node_message_view;
use crate::message_decoding::{FrameView, message_fits, rd_frame, law_frame_round_trip};
use crate::text::{decimal, decimal_string};

verus! {

broadcast use vstd::std_specs::btree::group_btree_axioms;

/// The frame sent from `from` to `to`: the signed bytes, then their signature.
pub open spec fn spec_frame(keypair: Seq<u8>, from: u64, to: u64, data: MessageTypeView) -> Seq<u8> {
    signed_bytes(from, to, data) + ed25519_signature(keypair, signed_bytes(from, to, data))
}

/// The encoded message that node `from` sends to node `to`: what
/// `NetworkMessage::new(from, to, data, key_pair).serialize()` gives.
pub fn frame_for(from: u64, to: u64, data: &NetworkMessageType, key_pair: &KeyPair) -> (frame: Vec<u8>)
    ensures
        frame@ == spec_frame(key_pair@, from, to, data@),
        message_fits(data@) ==> rd_frame(frame@) == Some(
            FrameView { from, to, data: data@, signature: ed25519_signature(key_pair@, signed_bytes(from, to, data@)) },
        ),
{
    let mut bytes: Vec<u8> = Vec::new();
    write_u64(&mut bytes, from);
    write_u64(&mut bytes, to);
    write_message_type(&mut bytes, data);
    assert(bytes@ =~= signed_bytes(from, to, data@));
    let signature = key_pair.sign(bytes.as_slice());
    append_bytes(&mut bytes, signature.as_slice());
    proof {
        if message_fits(data@) {
            law_frame_round_trip(from, to, data@, signature@);
        }
    }
    bytes
}

/// One frame per peer, in the order of `peers`, each addressed to its peer.
pub fn broadcast_frames(from: u64, peers: &Vec<u64>, data: &NetworkMessageType, key_pair: &KeyPair) -> (frames: Vec<(u64, Vec<u8>)>)
    ensures
        frames@.len() == peers@.len(),
        forall|i: int| 0 <= i < peers@.len() ==> (#[trigger] frames@[i]).0 == peers@[i]
            && frames@[i].1@ == spec_frame(key_pair@, from, peers@[i], data@),
{
    let mut frames: Vec<(u64, Vec<u8>)> = Vec::new();
    let mut i: usize = 0;
    while i < peers.len()
        invariant
            i <= peers@.len(),
            frames@.len() == i,
            forall|j: int| 0 <= j < i ==> (#[trigger] frames@[j]).0 == peers@[j]
                && frames@[j].1@ == spec_frame(key_pair@, from, peers@[j], data@),
        decreases peers@.len() - i,
    {
        let to = peers[i];
        let frame = frame_for(from, to, data, key_pair);
        frames.push((to, frame));
        i = i + 1;
    }
    frames
}

/// The frames that a request to the network layer sends: one to the peer it
/// names, or, for a broadcast, one to each peer in the order of `peers`.
pub fn frames_for_request(
    from: u64,
    peers: &Vec<u64>,
    request: &NetworkManagerMessage,
    key_pair: &KeyPair,
) -> (frames: Vec<(u64, Vec<u8>)>)
    ensures
        match request {
            NetworkManagerMessage::SendToRequest(r) => {
                &&& frames@.len() == 1
                &&& frames@[0].0 == r.to
                &&& frames@[0].1@ == spec_frame(key_pair@, from, r.to, r.data@)
            },
            NetworkManagerMessage::BroadCastRequest(r) => {
                &&& frames@.len() == peers@.len()
                &&& forall|i: int| 0 <= i < peers@.len() ==> (#[trigger] frames@[i]).0 == peers@[i]
                    && frames@[i].1@ == spec_frame(key_pair@, from, peers@[i], r.data@)
            },
        },
{
    match request {
        NetworkManagerMessage::SendToRequest(r) => {
            let frame = frame_for(from, r.to, &r.data, key_pair);
            let mut frames: Vec<(u64, Vec<u8>)> = Vec::new();
            frames.push((r.to, frame));
            frames
        },
        NetworkManagerMessage::BroadCastRequest(r) => broadcast_frames(from, peers, &r.data, key_pair),
    }
}

/// The endpoint a peer at address `ip` is reached at: its TCP address with
/// its port.
pub open spec fn spec_peer_endpoint(ip: Seq<char>, port: u64) -> Seq<char> {
    "tcp://"@ + ip + ":"@ + decimal(port as nat)
}

/// The endpoint a node listens at: every interface, at its port.
pub open spec fn spec_listen_endpoint(port: u64) -> Seq<char> {
    "tcp://*:"@ + decimal(port as nat)
}

/// The endpoint to connect to for the peer at address `ip` and port `port`.
pub fn peer_endpoint(ip: &str, port: u64) -> (e: String)
    ensures
        e@ == spec_peer_endpoint(ip@, port),
{
    let mut e = String::from_str("tcp://");
    e.append(ip);
    e.append(":");
    let digits = decimal_string(port as u128);
    e.append(digits.as_str());
    e
}

/// The endpoint to listen at for port `port`.
pub fn listen_endpoint(port: u64) -> (e: String)
    ensures
        e@ == spec_listen_endpoint(port),
{
    let mut e = String::from_str("tcp://*:");
    let digits = decimal_string(port as u128);
    e.append(digits.as_str());
    e
}

/// Whether a received message reaches the node: a Raft message only when
/// its sender is an elector and the signature verifies under that elector's
/// key; every other message always.
pub open spec fn spec_accepts(electors: Map<u64, Seq<u8>>, from: u64, to: u64, data: MessageTypeView, signature: Seq<u8>) -> bool {
    match data {
        MessageTypeView::RaftMessage { .. } => electors.contains_key(from) && ed25519_verifies(
            electors[from],
            signed_bytes(from, to, data),
            signature,
        ),
        _ => true,
    }
}

/// A message signed by a sender whose key pair's public half the elector
/// list gives it reaches the node.
pub proof fn law_elector_message_accepted(
    electors: Map<u64, Seq<u8>>,
    keypair: Seq<u8>,
    from: u64,
    to: u64,
    data: MessageTypeView,
    signature: Seq<u8>,
)
    requires
        electors.contains_key(from),
        electors[from] == keypair.subrange(32, 64),
        ed25519_verifies(keypair.subrange(32, 64), signed_bytes(from, to, data), signature),
    ensures
        spec_accepts(electors, from, to, data, signature),
{
}

/// The message for the node's main loop that a received message becomes,
/// or `None` when it is dropped, as `spec_accepts` says.
pub fn route_received_message(received_message: NetworkMessage, elector_list: &ElectorMap) -> (routed: Option<NodeMessage>)
    ensures
        match routed {
            Some(m) => spec_accepts(
                elector_view(elector_list),
                received_message.from,
                received_message.to,
                received_message.message_type@,
                received_message.signature@,
            ) && node_message_view(m) == received_message.message_type@,
            None => !spec_accepts(
                elector_view(elector_list),
                received_message.from,
                received_message.to,
                received_message.message_type@,
                received_message.signature@,
            ),
        },
{
    let ok = match &received_message.message_type {
        NetworkMessageType::RaftMessage(_) => {
            match elector_list.get(&received_message.from) {
                Some(public_key) => received_message.check_signature(public_key.as_slice()),
                None => false,
            }
        },
        _ => true,
    };
    if !ok {
        return None;
    }
    match received_message.message_type {
        NetworkMessageType::BlockNew(info) => Some(NodeMessage::BlockNew(info)),
        NetworkMessageType::RaftMessage(m) => Some(NodeMessage::RaftMessage(m)),
        NetworkMessageType::RequestBlock(r) => Some(NodeMessage::RequestBlock(r)),
        NetworkMessageType::RequestBlockResponse(b) => Some(NodeMessage::RequestBlockResponse(b)),
    }
}

} // verus!
