//! Proposals that the Raft leader puts to its peers: a block, or a change
//! of the membership.

use vstd::prelude::*;
use std::sync::mpsc::{Receiver, SyncSender};
use crate::block::{Block, BlockView, block_hash};
use crate::messages::{LogEntryView, RaftLogEntry, enc_log_entry, spec_decode_log_entry, law_log_entry_round_trip};
use crate::raft_node::ConfChangeKind;
use crate::text::lemma_hex_lower_utf8_len;

verus! {

#[verifier::external_type_specification]
#[verifier::external_body]
#[verifier::reject_recursive_types(T)]
pub struct ExSyncSender<T>(std::sync::mpsc::SyncSender<T>);

#[verifier::external_type_specification]
#[verifier::external_body]
#[verifier::reject_recursive_types(T)]
pub struct ExReceiver<T>(std::sync::mpsc::Receiver<T>);

/// `std::sync::mpsc::sync_channel` with room for one message: the sending
/// and the receiving end of a new channel.  Nothing is claimed of them.
#[verifier::external_body]
fn sync_channel_of_one() -> (ends: (SyncSender<bool>, Receiver<bool>)) {
    std::sync::mpsc::sync_channel(1)
}

/// A change of the Raft membership that a node asks for.
#[derive(Clone, Copy, Debug, PartialEq, Eq, Structural)]
pub struct ConfChangeRequest {
    pub node_id: u64,
    pub change_type: ConfChangeKind,
}

/// Something the leader proposes: a block or a membership change; once it
/// is in the Raft log, `proposed` is the index it got there.
#[derive(Debug)]
pub struct Proposal {
    pub block: Option<Block>,
    pub conf_change: Option<ConfChangeRequest>,
    pub proposed: u64,
    pub propose_success: SyncSender<bool>,
}

/// What goes into the Raft log for a proposal.
#[derive(Clone, Debug)]
pub enum ProposalPayload {
    /// The encoded log entry of a block.
    Block(Vec<u8>),
    /// A membership change.
    ConfChange(ConfChangeRequest),
    /// Nothing: the proposal holds neither.
    Nothing,
}

/// The log entry that names block `b`.
pub open spec fn block_entry(b: BlockView) -> LogEntryView {
    LogEntryView { block_id: b.header.block_id, block_hash: block_hash(b) }
}

impl Proposal {
    /// A proposal of the membership change `cc`, not yet proposed, with the
    /// receiving end of its answer channel.
    pub fn conf_change(cc: &ConfChangeRequest) -> (res: (Proposal, Receiver<bool>))
        ensures
            res.0.block is None,
            res.0.conf_change == Some(*cc),
            res.0.proposed == 0,
    {
        let (tx, rx) = sync_channel_of_one();
        let proposal = Proposal { block: None, conf_change: Some(*cc), proposed: 0, propose_success: tx };
        (proposal, rx)
    }

    /// A proposal of `block`, not yet proposed, with the receiving end of
    /// its answer channel.
    pub fn new_block(block: Block) -> (res: (Proposal, Receiver<bool>))
        ensures
            res.0.block matches Some(b) && b@ == block@,
            res.0.conf_change is None,
            res.0.proposed == 0,
    {
        let (tx, rx) = sync_channel_of_one();
        let proposal = Proposal { block: Some(block), conf_change: None, proposed: 0, propose_success: tx };
        (proposal, rx)
    }

    /// What to put into the Raft log: for a block, the encoding of the log
    /// entry with its id and hash, which decodes back to that entry; else
    /// the membership change, if any.
    pub fn payload(&self) -> (p: ProposalPayload)
        ensures
            match self.block {
                Some(b) => p matches ProposalPayload::Block(data) && data@ == enc_log_entry(block_entry(b@))
                    && spec_decode_log_entry(data@) == Some(block_entry(b@)),
                None => match self.conf_change {
                    Some(cc) => p == ProposalPayload::ConfChange(cc),
                    None => p is Nothing,
                },
            },
    {
        match &self.block {
            Some(b) => {
                let hash = b.hash();
                proof {
                    lemma_hex_lower_utf8_len(crate::crypto::spec_sha256(crate::block::hashed_bytes(b@.header, b@.body)));
                    law_log_entry_round_trip(block_entry(b@));
                }
                let entry = RaftLogEntry::new(b.header.block_id, hash);
                ProposalPayload::Block(entry.encode())
            },
            None => match &self.conf_change {
                Some(cc) => ProposalPayload::ConfChange(*cc),
                None => ProposalPayload::Nothing,
            },
        }
    }

    /// Records the outcome of putting the proposal to the Raft engine, given
    /// the next free log index before and after: if the log grew, the
    /// proposal got the index that was free before.
    pub fn record_proposed(&mut self, next_index_before: u64, next_index_after: u64)
        ensures
            final(self).proposed == (if next_index_after != next_index_before {
                next_index_before
            } else {
                old(self).proposed
            }),
            final(self).block == old(self).block,
            final(self).conf_change == old(self).conf_change,
    {
        if next_index_after != next_index_before {
            self.proposed = next_index_before;
        }
    }
}

} // verus!
