//! Client-side logic for a replicated CRDT database: the records of its
//! protocol, their framing on the wire, the transaction lifecycle and the
//! typed access to sets, registers, counters and maps.

pub mod wire;
pub mod error;
pub mod antidote_pb;
pub mod parse;
pub mod coder;
pub mod transactions;
pub mod r2d2_adapter;
pub mod client;

pub use client::{new_client, Client, Host};
pub use error::ClientError;
