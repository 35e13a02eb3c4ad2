//! Core logic of an intercepting HTTP/HTTPS proxy: routing of inbound
//! requests, capture filters, the per-transaction recorder, the store of
//! completed transactions, the CONNECT tunnel state machine, the prefix
//! buffer that makes a peeked stream rewindable, and the reversal of
//! content encodings for recording.
use vstd::prelude::*;

pub mod text;
pub mod codec;
pub mod filter;
pub mod recorder;
pub mod state;
pub mod route;
pub mod tunnel;
pub mod server;
pub mod ca;

verus! {

} // verus!
