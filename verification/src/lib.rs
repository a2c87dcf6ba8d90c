//! The decisions of a shard: one connection of a client to the gateway.
//!
//! A shard is made by a [`handshake`], deals with the messages and errors of its
//! connection in [`events`], tells the gateway how its user is seen in
//! [`shard`], gets over the loss of its connection by a [`recovery`], and is
//! closed by a [`shutdown`].
//!
//! The library does no input or output. Each of these says what is to be done
//! next and is told how that went. What is to be said to the thread that keeps
//! the connection alive is handed out as a [`status::GatewayStatus`].

pub mod constants;
pub mod error;
pub mod events;
pub mod handshake;
pub mod json;
pub mod laws;
pub mod model;
pub mod payload;
pub mod prep;
pub mod recovery;
pub mod shard;
pub mod shutdown;
pub mod status;
