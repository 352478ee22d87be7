//! Wispers Connect: the node-side logic of a secure overlay network.
//!
//! The library holds the cryptographic roster (its wire encoding, its
//! verification and its builders), pairing codes and pairing MACs, node
//! state, the endorsing state machine of a serving node, and the small
//! protocol parsers of the `wconnect` sidecar.
use vstd::prelude::*;

pub mod admin;
pub mod base36;
pub mod crypto;
pub mod daemon;
pub mod errors;
pub mod foreign;
pub mod node;
pub mod p2p;
pub mod pool;
pub mod primitives;
pub mod proxy;
pub mod quic;
pub mod proto;
pub mod roster;
pub mod roster_laws;
pub mod serving;
pub mod text;
pub mod types;

verus! {

} // verus!
