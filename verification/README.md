# raft_blockchain

A blockchain network node whose leader is elected with the Raft consensus
protocol. Only the leader makes blocks; every node checks that a block is
signed by an elector before it keeps it, and a block joins the chain once
Raft has committed its entry.

## Layout

- `src/` is the library, written in Verus and verified:
  - `encoding`, `decoding`, `message_decoding`: the wire format (fixed-width
    little-endian integers, length-prefixed bytes and text), its readers, and
    the proofs that what is written reads back;
  - `text`, `electors`, `crypto`: decimal and hexadecimal text, the elector map
    and its key order, SHA-256 and Ed25519 through a few trusted calls;
  - `block`, `store`, `blockchain`: blocks, their hash and signature, the chain
    and the queue of blocks waiting for a commit;
  - `messages`, `network`, `node`: the messages between nodes, the signed
    frames that carry them, and what a node does with each message;
  - `config`: from the text of the configuration files to a node's settings;
  - `raft_node`, `proposal`, `raft_engine`: what the Raft member decides on
    each turn of its loop: its settings and role, committed entries, block
    appends, proposals and the next block.
- `app/` is the program around it: the command line, the configuration
  files, the ZeroMQ sockets, the threads, and the raft crate's state machine.
- `tests/` runs the library on concrete values.

Verify with `verus` on `src/lib.rs`; the tests run with `cargo test`.
