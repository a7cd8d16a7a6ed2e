//! Client-side transport for the Discord desktop application's local RPC
//! protocol: locating the IPC endpoint, framing length-prefixed JSON payloads,
//! driving the handshake, and classifying inbound messages.

use vstd::prelude::*;

pub mod inbound;
pub mod ipc;
pub mod json;
pub mod models;
pub mod opcodes;
pub mod utils;

verus! {

/// The failures the transport and framing layer can surface.
#[derive(Clone, Copy, Debug, PartialEq, Eq, Structural)]
pub enum DiscordRPCError {
    /// No live IPC endpoint was found among the candidate paths.
    PipeNotFound,
    /// The first frame after the handshake was not a ready payload.
    CouldNotConnect,
    /// A frame header was malformed (not exactly eight bytes).
    TryFromSlice,
    /// A read or write on the channel failed.
    Io,
    /// A payload's bytes were not valid UTF-8.
    FromUtf8,
    /// A payload was not valid JSON, or did not match either envelope shape.
    SerdeJson,
}

} // verus!
