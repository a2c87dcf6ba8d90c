//! Numbers that the gateway protocol fixes.

use vstd::prelude::*;

verus! {

/// The version of the gateway protocol that the library speaks.
pub const GATEWAY_VERSION: u8 = 6;

/// How many members a guild may have before its offline members are left out
/// of what the gateway sends on identification.
pub const LARGE_THRESHOLD: u64 = 250;

/// The status code with which a connection is closed on purpose.
pub const CLOSE_NORMAL: u16 = 1000;

/// How many times a connection to the known endpoint is tried before a new
/// endpoint is asked for.
pub const RECONNECT_ATTEMPTS: u8 = 3;

/// The pause after a failed attempt, in seconds.
pub const RECONNECT_PAUSE: u64 = 1;

/// The kinds of message that a shard sends to the gateway.
#[derive(Clone, Copy, Debug, PartialEq, Eq, Structural)]
pub enum OpCode {
    Heartbeat,
    Identify,
    StatusUpdate,
    Resume,
    SyncGuild,
    SyncCall,
}

impl OpCode {
    /// The number that stands for the kind in a message.
    pub open spec fn code(self) -> u64 {
        match self {
            OpCode::Heartbeat => 1,
            OpCode::Identify => 2,
            OpCode::StatusUpdate => 3,
            OpCode::Resume => 6,
            OpCode::SyncGuild => 12,
            OpCode::SyncCall => 13,
        }
    }

    /// The number that stands for the kind in a message.
    pub fn num(self) -> (n: u64)
        ensures
            n == self.code(),
    {
        match self {
            OpCode::Heartbeat => 1,
            OpCode::Identify => 2,
            OpCode::StatusUpdate => 3,
            OpCode::Resume => 6,
            OpCode::SyncGuild => 12,
            OpCode::SyncCall => 13,
        }
    }
}

} // verus!
