//! A UDP-based control plane: a datagram framing codec, a textual command
//! vocabulary, and a supervisor that applies commands to a table of locally
//! managed service states.
//!
//! The transport itself (binding a socket, receiving and sending datagrams)
//! and the external collaborators (HTTP engines and the like) live outside
//! this crate; everything here is plain state and bytes, specified and
//! verified. The intended data flow is: datagram -> `coding::Codec::decode`
//! -> frame -> `command::parse_command` -> `web::WebSentinel::apply` ->
//! `web::render_response` -> `coding::Codec::encode` -> datagram back to the
//! originating peer.
use vstd::prelude::*;

pub mod coding;
pub mod command;
pub mod daemon;
pub mod render;
pub mod web;

verus! {

/// Largest datagram payload this protocol ever deals in: frames are delimited
/// by the datagram boundary, so nothing larger than one datagram can arrive.
pub const MTU: usize = 65535;

} // verus!
