//! A blockchain node whose leader is elected with the Raft protocol.
//!
//! The library holds the node's own logic: the block model and its wire
//! encoding, block hashing and signing, the chain and the queue of blocks that
//! wait for a Raft commit, the configuration checks, and the decisions a node
//! takes on each message it receives.  Networking, threads, timers and the Raft
//! engine itself are driven from outside.

pub mod encoding;
pub mod decoding;
pub mod text;
pub mod electors;
pub mod crypto;
pub mod block;
pub mod store;
pub mod blockchain;
pub mod messages;
pub mod message_decoding;
pub mod config;
pub mod node;
pub mod network;
pub mod raft_node;
pub mod proposal;
pub mod raft_engine;
