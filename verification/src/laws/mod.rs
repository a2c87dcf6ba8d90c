//! What holds of a shard as a whole.

pub mod addresses;
pub mod calls;
pub mod events;
pub mod handshake;
pub mod messages;
pub mod presence;
pub mod recovery;
pub mod results;
pub mod sessions;
pub mod shutdown;
pub mod transitions;
