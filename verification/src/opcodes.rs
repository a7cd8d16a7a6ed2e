//! The closed set of control codes that tag every frame on the wire.

use vstd::prelude::*;

verus! {

/// Opcodes used by the Discord client. Any other numeric value received is a
/// protocol violation.
#[derive(Clone, Copy, Debug, PartialEq, Eq, Structural)]
pub enum OpCodes {
    /// Opens the connection: the first frame sent to the server.
    Handshake,
    /// A regular data-bearing message.
    Frame,
    /// The socket was closed.
    Close,
    /// A ping control frame.
    Ping,
    /// A pong control frame.
    Pong,
}

/// The numeric value an opcode carries in the frame header.
pub open spec fn spec_opcode_value(op: OpCodes) -> u32 {
    match op {
        OpCodes::Handshake => 0,
        OpCodes::Frame => 1,
        OpCodes::Close => 2,
        OpCodes::Ping => 3,
        OpCodes::Pong => 4,
    }
}

impl OpCodes {
    /// The numeric wire value of this opcode.
    pub fn to_u32(&self) -> (v: u32)
        ensures
            v == spec_opcode_value(*self),
    {
        match self {
            OpCodes::Handshake => 0,
            OpCodes::Frame => 1,
            OpCodes::Close => 2,
            OpCodes::Ping => 3,
            OpCodes::Pong => 4,
        }
    }

    /// The opcode a received header value names, if it names one at all:
    /// exactly the values 0 through 4 are accepted.
    pub fn from_u32(v: u32) -> (r: Option<OpCodes>)
        ensures
            v <= 4 ==> (r matches Some(op) && spec_opcode_value(op) == v),
            v > 4 ==> r is None,
    {
        match v {
            0 => Some(OpCodes::Handshake),
            1 => Some(OpCodes::Frame),
            2 => Some(OpCodes::Close),
            3 => Some(OpCodes::Ping),
            4 => Some(OpCodes::Pong),
            _ => None,
        }
    }
}

} // verus!
