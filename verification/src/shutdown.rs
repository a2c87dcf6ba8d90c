//! How the connection of a shard is closed.

use vstd::prelude::*;
use vstd::utf8::encode_utf8;
use websocket::Message;

use crate::constants::CLOSE_NORMAL;
use crate::error::Error;
use crate::shard::Shard;

verus! {

/// What the message that closes a websocket says.
#[derive(Debug, PartialEq, Eq)]
pub struct CloseFrame {
    pub status_code: Option<u16>,
    pub payload: Vec<u8>,
}

/// How far the closing of a connection has come.
#[derive(Clone, Copy, Debug, PartialEq, Eq, Structural)]
pub enum Shutdown {
    /// The message that closes the websocket is being sent.
    Closing,
    /// What is left to write is being written.
    Flushing,
    /// The stream is being shut down, for reading and for writing.
    Stopping,
}

/// What is to be done next to close a connection.
#[derive(Debug, PartialEq, Eq)]
pub enum ShutdownAction {
    /// Send this message to close the websocket.
    Send(CloseFrame),
    /// Write what is left to write.
    Flush,
    /// Shut the stream down, for reading and for writing.
    Stop,
}

/// Where the closing of a connection goes.
#[derive(Debug, PartialEq, Eq)]
pub enum ShutdownStep {
    /// On.
    Continue(Shutdown),
    /// To its end, good or bad.
    Finish(Result<(), Error>),
}

/// `Message::close_because`: a message of the close type with `code` as its
/// status code and the bytes of `reason` as its payload.
#[verifier::external_body]
fn close_because(code: u16, reason: &str) -> (frame: CloseFrame)
    ensures
        frame.status_code == Some(code),
        frame.payload@ == encode_utf8(reason@),
{
    let message = Message::close_because(code, reason);
    CloseFrame { status_code: message.cd_status_code, payload: message.payload.into_owned() }
}

impl Shutdown {
    /// What is to be done next: first the websocket is closed with the status
    /// code for a normal end and without a reason, then all is written, then the
    /// stream is shut down.
    pub fn action(&self) -> (action: ShutdownAction)
        ensures
            match self {
                Shutdown::Closing => action matches ShutdownAction::Send(frame)
                    && frame.status_code == Some(CLOSE_NORMAL) && frame.payload@.len() == 0,
                Shutdown::Flushing => action is Flush,
                Shutdown::Stopping => action is Stop,
            },
    {
        proof {
            reveal_strlit("");
        }
        match self {
            Shutdown::Closing => ShutdownAction::Send(close_because(CLOSE_NORMAL, "")),
            Shutdown::Flushing => ShutdownAction::Flush,
            Shutdown::Stopping => ShutdownAction::Stop,
        }
    }

    /// Where the closing goes when what was to be done went as `outcome` says:
    /// whatever fails ends it.
    pub open spec fn after(self, outcome: Result<(), Error>) -> ShutdownStep {
        match (outcome, self) {
            (Err(error), _) => ShutdownStep::Finish(Err(error)),
            (Ok(_), Shutdown::Closing) => ShutdownStep::Continue(Shutdown::Flushing),
            (Ok(_), Shutdown::Flushing) => ShutdownStep::Continue(Shutdown::Stopping),
            (Ok(_), Shutdown::Stopping) => ShutdownStep::Finish(Ok(())),
        }
    }

    /// Goes on after what was to be done went as `outcome` says.
    pub fn step(self, outcome: Result<(), Error>) -> (step: ShutdownStep)
        ensures
            step == self.after(outcome),
    {
        match outcome {
            Err(error) => ShutdownStep::Finish(Err(error)),
            Ok(_) => match self {
                Shutdown::Closing => ShutdownStep::Continue(Shutdown::Flushing),
                Shutdown::Flushing => ShutdownStep::Continue(Shutdown::Stopping),
                Shutdown::Stopping => ShutdownStep::Finish(Ok(())),
            },
        }
    }
}

impl Shard {
    /// Starts to close the connection of the shard.
    pub fn shutdown(&self) -> (shutdown: Shutdown)
        ensures
            shutdown == Shutdown::Closing,
    {
        Shutdown::Closing
    }
}

} // verus!
