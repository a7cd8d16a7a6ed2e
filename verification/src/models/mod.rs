//! Data shapes exchanged with the RPC server: what the client sends, what it
//! receives, and the objects both directions share.

pub mod receive;
pub mod send;
pub mod shared;
