//! What can go wrong with a shard.

use vstd::prelude::*;

verus! {

/// An error of the gateway itself.
#[derive(Debug, PartialEq, Eq)]
pub enum GatewayError {
    /// The address of the gateway is no URL.
    BuildingUrl,
    /// The gateway closed the connection, with a status code if it gave one,
    /// and a reason.
    Closed(Option<u16>, String),
    /// Something else than a hello opened the connection.
    ExpectedHello,
    /// Something else than the end of a handshake was received during one.
    InvalidHandshake,
}

/// Anything that can go wrong with a shard. What the transport reports is
/// carried as its description.
#[derive(Debug, PartialEq, Eq)]
pub enum Error {
    Gateway(GatewayError),
    /// An error of the websocket.
    WebSocket(String),
    /// An error of the operating system.
    Io(String),
    /// A message that is no JSON.
    Json(String),
    /// A message that is JSON, but no event.
    Decode(String),
    Other(String),
}

impl Clone for GatewayError {
    fn clone(&self) -> (copy: GatewayError)
        ensures
            copy == *self,
    {
        match self {
            GatewayError::BuildingUrl => GatewayError::BuildingUrl,
            GatewayError::Closed(code, reason) => GatewayError::Closed(*code, reason.clone()),
            GatewayError::ExpectedHello => GatewayError::ExpectedHello,
            GatewayError::InvalidHandshake => GatewayError::InvalidHandshake,
        }
    }
}

impl Clone for Error {
    fn clone(&self) -> (copy: Error)
        ensures
            copy == *self,
    {
        match self {
            Error::Gateway(error) => Error::Gateway(error.clone()),
            Error::WebSocket(text) => Error::WebSocket(text.clone()),
            Error::Io(text) => Error::Io(text.clone()),
            Error::Json(text) => Error::Json(text.clone()),
            Error::Decode(text) => Error::Decode(text.clone()),
            Error::Other(text) => Error::Other(text.clone()),
        }
    }
}

} // verus!
