//! What a node does with each message its main loop receives.

use vstd::prelude::*;
use crate::block::{BlockView, block_hash, signed_by_elector};
use crate::blockchain::{Blockchain, ChainView, spec_is_known, spec_find_block, spec_add_uncommitted};
use crate::config::NodeConfig;
use crate::crypto::ed25519_verifies;
use vstd::utf8::encode_utf8;
use crate::messages::{
    BroadCastRequest, MessageTypeView, NetworkManagerMessage, NetworkMessageType, NewBlockInfo,
    NodeMessage, RaftNodeMessage, RequestBlockMessage, SendToRequest,
};
use crate::block::ConfiglBlockBody;

verus! {

broadcast use vstd::std_specs::btree::group_btree_axioms;

/// What the node hands on after handling a message.
pub enum ActionView {
    SendTo { to: u64, data: MessageTypeView },
    Broadcast { data: MessageTypeView },
    RaftMessage { content: Seq<u8> },
    RaftBlock { block: BlockView },
}

/// A message the node hands on: to the network layer or to its Raft engine.
#[derive(Clone, Debug)]
pub enum NodeAction {
    ToNetwork(NetworkManagerMessage),
    ToRaft(RaftNodeMessage),
}

impl View for NodeAction {
    type V = ActionView;

    open spec fn view(&self) -> ActionView {
        match self {
            NodeAction::ToNetwork(NetworkManagerMessage::SendToRequest(r)) => ActionView::SendTo { to: r.to, data: r.data@ },
            NodeAction::ToNetwork(NetworkManagerMessage::BroadCastRequest(r)) => ActionView::Broadcast { data: r.data@ },
            NodeAction::ToRaft(RaftNodeMessage::RaftMessage(m)) => ActionView::RaftMessage { content: m.content@ },
            NodeAction::ToRaft(RaftNodeMessage::BlockNew(b)) => ActionView::RaftBlock { block: b@ },
        }
    }
}

/// The views of a run of actions.
pub open spec fn action_views(s: Seq<NodeAction>) -> Seq<ActionView> {
    s.map_values(|a: NodeAction| a@)
}

/// What a message for the node's main loop carries.
pub open spec fn node_message_view(m: NodeMessage) -> MessageTypeView {
    match m {
        NodeMessage::BlockNew(i) => MessageTypeView::BlockNew { from: i.from, block_id: i.block_id, block_hash: i.block_hash@ },
        NodeMessage::RaftMessage(r) => MessageTypeView::RaftMessage { content: r.content@ },
        NodeMessage::RequestBlock(r) => MessageTypeView::RequestBlock {
            requester_id: r.requester_id,
            block_id: r.block_id,
            block_hash: r.block_hash@,
        },
        NodeMessage::RequestBlockResponse(b) => MessageTypeView::RequestBlockResponse { block: b@ },
    }
}

/// The chain and the actions after the node with id `node_id`, elector list
/// `electors`, and a Raft engine or not, handles message `m`:
/// - an announced block that is not known is requested from its announcer;
/// - a Raft message goes to the Raft engine, if the node runs one;
/// - a block request is answered when the chain finds the block;
/// - a received block that is not known and is signed by an elector joins
///   the waiting blocks, goes to the Raft engine if there is one, and is
///   announced to every peer; any other received block is dropped.
pub open spec fn spec_handle_message(
    node_id: u64,
    electors: Map<u64, Seq<u8>>,
    has_raft_engine: bool,
    c: ChainView,
    m: MessageTypeView,
) -> (ChainView, Seq<ActionView>) {
    match m {
        MessageTypeView::BlockNew { from, block_id, block_hash } => if spec_is_known(c, block_hash) {
            (c, Seq::empty())
        } else {
            (c, seq![ActionView::SendTo {
                to: from,
                data: MessageTypeView::RequestBlock { requester_id: node_id, block_id, block_hash },
            }])
        },
        MessageTypeView::RaftMessage { content } => if has_raft_engine {
            (c, seq![ActionView::RaftMessage { content }])
        } else {
            (c, Seq::empty())
        },
        MessageTypeView::RequestBlock { requester_id, block_id, block_hash } => match spec_find_block(c, block_id, block_hash) {
            Some(b) => (c, seq![ActionView::SendTo { to: requester_id, data: MessageTypeView::RequestBlockResponse { block: b } }]),
            None => (c, Seq::empty()),
        },
        MessageTypeView::RequestBlockResponse { block } => {
            let h = block_hash(block);
            if spec_is_known(c, h) || !signed_by_elector(block, electors) {
                (c, Seq::empty())
            } else {
                let announce = ActionView::Broadcast {
                    data: MessageTypeView::BlockNew { from: node_id, block_id: block.header.block_id, block_hash: h },
                };
                if has_raft_engine {
                    (spec_add_uncommitted(c, block), seq![ActionView::RaftBlock { block }, announce])
                } else {
                    (spec_add_uncommitted(c, block), seq![announce])
                }
            }
        },
    }
}

/// A block that a node has taken from a peer is not taken, passed on or
/// announced a second time: handling the same block again changes nothing.
pub proof fn law_received_block_taken_once(
    node_id: u64,
    electors: Map<u64, Seq<u8>>,
    has_raft_engine: bool,
    c: ChainView,
    block: BlockView,
)
    ensures
        ({
            let m = MessageTypeView::RequestBlockResponse { block };
            let first = spec_handle_message(node_id, electors, has_raft_engine, c, m);
            spec_handle_message(node_id, electors, has_raft_engine, first.0, m) == (first.0, Seq::<ActionView>::empty())
        }),
{
}

/// Every node, with a Raft engine or without, takes a received block that it
/// does not know and that an elector signed: the block joins the waiting
/// queue under its hash, the committed blocks and the known hashes stay as
/// they were, and the last action announces the block to every peer with the
/// node's id, the block's id and its hash.  A Raft engine only adds, first,
/// the hand-off of the block to it.
pub proof fn law_valid_block_taken_and_announced(
    node_id: u64,
    electors: Map<u64, Seq<u8>>,
    has_raft_engine: bool,
    c: ChainView,
    block: BlockView,
)
    requires
        !c.known.contains_key(block_hash(block)),
        !c.uncommitted.contains_key(block_hash(block)),
        electors.contains_key(block.header.proposer),
        ed25519_verifies(electors[block.header.proposer], encode_utf8(block_hash(block)), block.signature),
    ensures
        ({
            let r = spec_handle_message(
                node_id,
                electors,
                has_raft_engine,
                c,
                MessageTypeView::RequestBlockResponse { block },
            );
            &&& r.0.uncommitted == c.uncommitted.insert(block_hash(block), block)
            &&& r.0.blocks == c.blocks
            &&& r.0.known == c.known
            &&& r.1.len() == (if has_raft_engine { 2int } else { 1int })
            &&& r.1.last() == (ActionView::Broadcast {
                data: MessageTypeView::BlockNew {
                    from: node_id,
                    block_id: block.header.block_id,
                    block_hash: block_hash(block),
                },
            })
            &&& has_raft_engine ==> r.1[0] == (ActionView::RaftBlock { block })
        }),
{
}

/// A node: its configuration, and whether it runs a Raft engine.
pub struct Node {
    pub config: NodeConfig,
    pub raft_engine: bool,
}

impl Node {
    /// A node with this configuration and no Raft engine yet.
    pub fn new(config: NodeConfig) -> (n: Node)
        ensures
            n.config@ == config@,
            !n.raft_engine,
    {
        Node { config, raft_engine: false }
    }

    /// Records that the node now runs a Raft engine.
    pub fn attach_raft_engine(&mut self)
        ensures
            final(self).raft_engine,
            final(self).config@ == old(self).config@,
    {
        self.raft_engine = true;
    }

    /// Whether the node is an elector of the genesis configuration: the
    /// genesis elector list has its id, with its own public key.
    pub fn is_elector_node(&self, genesis_config: &ConfiglBlockBody) -> (elector: bool)
        ensures
            elector == (genesis_config@.electors.contains_key(self.config.node_id)
                && genesis_config@.electors[self.config.node_id] == self.config@.key_pair.subrange(32, 64)),
    {
        match genesis_config.list_of_elector_nodes.get(&self.config.node_id) {
            Some(public_key) => {
                let own = self.config.key_pair.public_key();
                bytes_equal(own.as_slice(), public_key.as_slice())
            },
            None => false,
        }
    }

    /// Handles one message of the main loop: updates the chain and gives the
    /// messages to hand on, as `spec_handle_message` says.
    pub fn handle_message(&self, blockchain: &mut Blockchain, message: NodeMessage) -> (actions: Vec<NodeAction>)
        ensures
            (final(blockchain)@, action_views(actions@)) == spec_handle_message(
                self.config.node_id,
                self.config@.electors,
                self.raft_engine,
                old(blockchain)@,
                node_message_view(message),
            ),
    {
        let mut actions: Vec<NodeAction> = Vec::new();
        match message {
            NodeMessage::BlockNew(block_info) => {
                if !blockchain.is_known_block(&block_info.block_hash) {
                    let request = RequestBlockMessage::new(self.config.node_id, block_info.block_id, block_info.block_hash);
                    let message_to_send = NetworkMessageType::RequestBlock(request);
                    actions.push(NodeAction::ToNetwork(NetworkManagerMessage::SendToRequest(
                        SendToRequest::new(block_info.from, message_to_send),
                    )));
                }
            },
            NodeMessage::RaftMessage(raft_message) => {
                if self.raft_engine {
                    actions.push(NodeAction::ToRaft(RaftNodeMessage::RaftMessage(raft_message)));
                }
            },
            NodeMessage::RequestBlock(block_request) => {
                if let Some(block) = blockchain.find_block(block_request.block_id, block_request.block_hash) {
                    let message_to_send = NetworkMessageType::RequestBlockResponse(block);
                    actions.push(NodeAction::ToNetwork(NetworkManagerMessage::SendToRequest(
                        SendToRequest::new(block_request.requester_id, message_to_send),
                    )));
                }
            },
            NodeMessage::RequestBlockResponse(block) => {
                let block_hash = block.hash();
                if !blockchain.is_known_block(&block_hash) {
                    if block.is_valid(&self.config.electors) {
                        let block_id = block.header.block_id;
                        let copy = block.duplicate();
                        let _ = blockchain.add_to_uncommitted_block_que(block);
                        if self.raft_engine {
                            actions.push(NodeAction::ToRaft(RaftNodeMessage::BlockNew(copy)));
                        }
                        let info = NewBlockInfo::new(self.config.node_id, block_id, block_hash);
                        actions.push(NodeAction::ToNetwork(NetworkManagerMessage::BroadCastRequest(
                            BroadCastRequest::new(NetworkMessageType::BlockNew(info)),
                        )));
                    }
                }
            },
        }
        assert(action_views(actions@) =~= spec_handle_message(
            self.config.node_id,
            self.config@.electors,
            self.raft_engine,
            old(blockchain)@,
            node_message_view(message),
        ).1);
        actions
    }
}

/// Whether two byte strings are equal.
pub fn bytes_equal(a: &[u8], b: &[u8]) -> (eq: bool)
    ensures
        eq == (a@ == b@),
{
    if a.len() != b.len() {
        return false;
    }
    let mut i: usize = 0;
    while i < a.len()
        invariant
            i <= a@.len(),
            a@.len() == b@.len(),
            forall|j: int| 0 <= j < i ==> a@[j] == b@[j],
        decreases a@.len() - i,
    {
        if a[i] != b[i] {
            return false;
        }
        i = i + 1;
    }
    assert(a@ =~= b@);
    true
}

} // verus!
