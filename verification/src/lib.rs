//! A verified proof-of-work ledger: blocks bound to their predecessors by a
//! SHA-256 digest over their fields, mined by a bounded nonce search, and kept
//! in an append-only chain whose linkage and numbering are invariants.

pub mod block;
pub mod chain;
pub mod digest;
pub mod encoding;
