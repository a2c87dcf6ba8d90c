//! How a shard gets over the loss of its connection.
//!
//! A session that is not over can be resumed on a new connection. Where it
//! cannot, the shard is replaced by a new one: first a few times at the address
//! that it knows, then at one that is asked for.
//!
//! A [`Recovery`] is what is under way. The shard says what is to be done next,
//! is told how that went, and comes to an end with the event that the new
//! connection starts with, or with an error.

use serde_json::Value;
use vstd::prelude::*;

use crate::constants::{RECONNECT_ATTEMPTS, RECONNECT_PAUSE};
use crate::error::{Error, GatewayError};
use crate::handshake::{Handshake, HandshakeView, StageView};
use crate::json::{json_of, Json};
use crate::model::{Event, GatewayEvent, LoginType, ReadyEvent};
use crate::payload::{resume, resume_json};
use crate::prep::{build_gateway_url, gateway_url, identify, identify_json};
use crate::shard::{Shard, ShardView};
use crate::status::{GatewayStatus, StatusView};

verus! {

/// How far a recovery has come.
#[derive(Debug)]
pub(crate) enum Phase {
    /// The lost connection is being dropped, to resume the session.
    Dropping(String),
    /// A connection to the URL is being opened, to resume the session.
    Dialing(String, String),
    /// The wish to resume the session is being sent.
    Resuming(String),
    /// An answer to that is awaited.
    Awaiting,
    /// The shard is identifying itself again.
    Identifying,
    /// A new shard is being connected, after so many failures.
    Opening(u8),
    /// A while is being waited, after so many failures.
    Pausing(u8),
    /// A new shard is being connected at an address that is asked for.
    Booting,
    /// The lost connection is being closed, since there is a new shard.
    Retiring(ReadyEvent),
}

/// How far a recovery has come.
pub enum RecoveryView {
    Dropping(Seq<char>),
    Dialing(Seq<char>, Seq<char>),
    Resuming(Seq<char>),
    Awaiting,
    Identifying,
    Opening(u8),
    Pausing(u8),
    Booting,
    Retiring(ReadyEvent),
}

/// What a shard is doing to get over the loss of its connection.
#[derive(Debug)]
pub struct Recovery {
    pub(crate) phase: Phase,
}

/// What is to be done next to get over the loss of a connection.
#[derive(Debug)]
pub enum RecoveryAction {
    /// Shut down the stream of the lost connection.
    Drop,
    /// Open a websocket to the URL.
    Connect(String),
    /// Send the message on the new connection.
    Send(Value),
    /// Receive a message on the new connection.
    Receive,
    /// Carry out the handshake of a new shard, unless there is none.
    Open(Result<Handshake, Error>),
    /// Wait so many seconds.
    Sleep(u64),
    /// Ask for an address of the gateway and carry out the handshake of a new
    /// shard there, for this token.
    Boot(String, LoginType, Option<[u8; 2]>),
    /// Close the lost connection, as a shard is shut down.
    Retire,
}

/// What is to be done next to get over the loss of a connection.
pub enum RecoveryActionView {
    Drop,
    Connect(Seq<char>),
    Send(Json),
    Receive,
    Open(Result<HandshakeView, Error>),
    Sleep(u64),
    Boot(Seq<char>, LoginType, Option<[u8; 2]>),
    Retire,
}

/// How what was to be done to get over the loss of a connection went.
#[derive(Debug)]
pub enum RecoveryOutcome {
    /// It was done.
    Done,
    /// This message was received.
    Received(GatewayEvent),
    /// A new shard was connected.
    Opened(Shard, ReadyEvent),
    /// It failed.
    Failed(Error),
}

/// Where a recovery goes.
#[derive(Debug)]
pub enum RecoveryStep {
    /// On.
    Continue(Recovery),
    /// To its end: the notice for the thread that keeps the connection alive, if
    /// there is one, and the event that the new connection starts with.
    Finish(Option<GatewayStatus>, Result<Event, Error>),
}

/// Where a recovery goes.
pub enum RecoveryStepView {
    Continue(RecoveryView),
    Finish(Option<StatusView>, Result<Event, Error>),
}

impl View for Phase {
    type V = RecoveryView;

    open(crate) spec fn view(&self) -> RecoveryView {
        match self {
            Phase::Dropping(session_id) => RecoveryView::Dropping(session_id@),
            Phase::Dialing(session_id, url) => RecoveryView::Dialing(session_id@, url@),
            Phase::Resuming(session_id) => RecoveryView::Resuming(session_id@),
            Phase::Awaiting => RecoveryView::Awaiting,
            Phase::Identifying => RecoveryView::Identifying,
            Phase::Opening(failures) => RecoveryView::Opening(*failures),
            Phase::Pausing(failures) => RecoveryView::Pausing(*failures),
            Phase::Booting => RecoveryView::Booting,
            Phase::Retiring(ready) => RecoveryView::Retiring(*ready),
        }
    }
}

impl View for Recovery {
    type V = RecoveryView;

    open(crate) spec fn view(&self) -> RecoveryView {
        self.phase@
    }
}

impl View for RecoveryAction {
    type V = RecoveryActionView;

    open spec fn view(&self) -> RecoveryActionView {
        match self {
            RecoveryAction::Drop => RecoveryActionView::Drop,
            RecoveryAction::Connect(url) => RecoveryActionView::Connect(url@),
            RecoveryAction::Send(message) => RecoveryActionView::Send(json_of(*message)),
            RecoveryAction::Receive => RecoveryActionView::Receive,
            RecoveryAction::Open(Ok(handshake)) => RecoveryActionView::Open(Ok(handshake@)),
            RecoveryAction::Open(Err(error)) => RecoveryActionView::Open(Err(*error)),
            RecoveryAction::Sleep(seconds) => RecoveryActionView::Sleep(*seconds),
            RecoveryAction::Boot(token, login_type, shard_info) => RecoveryActionView::Boot(
                token@,
                *login_type,
                *shard_info,
            ),
            RecoveryAction::Retire => RecoveryActionView::Retire,
        }
    }
}

impl View for RecoveryStep {
    type V = RecoveryStepView;

    open spec fn view(&self) -> RecoveryStepView {
        match self {
            RecoveryStep::Continue(recovery) => RecoveryStepView::Continue(recovery@),
            RecoveryStep::Finish(notice, result) => RecoveryStepView::Finish(
                match notice {
                    Some(notice) => Some(notice@),
                    None => None,
                },
                *result,
            ),
        }
    }
}

impl RecoveryView {
    /// What holds of every recovery: no more than the allowed attempts failed,
    /// and one is left where another one is made.
    pub open spec fn valid(self) -> bool {
        match self {
            RecoveryView::Opening(failures) => failures < RECONNECT_ATTEMPTS,
            RecoveryView::Pausing(failures) => 0 < failures <= RECONNECT_ATTEMPTS,
            _ => true,
        }
    }

    /// The session is being resumed.
    pub open spec fn resumes(self) -> bool {
        match self {
            RecoveryView::Dropping(_)
            | RecoveryView::Dialing(..)
            | RecoveryView::Resuming(_)
            | RecoveryView::Awaiting
            | RecoveryView::Identifying => true,
            _ => false,
        }
    }

    /// What is to be done now for `shard`.
    pub open spec fn action(self, shard: ShardView) -> RecoveryActionView {
        match self {
            RecoveryView::Dropping(_) => RecoveryActionView::Drop,
            RecoveryView::Dialing(_, url) => RecoveryActionView::Connect(url),
            RecoveryView::Resuming(session_id) => RecoveryActionView::Send(
                resume_json(session_id, shard.last_sequence, shard.token),
            ),
            RecoveryView::Awaiting => RecoveryActionView::Receive,
            RecoveryView::Identifying => RecoveryActionView::Send(
                identify_json(shard.token, shard.shard_info, shard.os),
            ),
            RecoveryView::Opening(_) => RecoveryActionView::Open(shard.reopened()),
            RecoveryView::Pausing(_) => RecoveryActionView::Sleep(RECONNECT_PAUSE),
            RecoveryView::Booting => RecoveryActionView::Boot(
                shard.token,
                shard.login_type,
                shard.shard_info,
            ),
            RecoveryView::Retiring(_) => RecoveryActionView::Retire,
        }
    }

    /// `outcome` is one that what is to be done now can have.
    pub open spec fn accepts(self, outcome: RecoveryOutcome) -> bool {
        match self {
            RecoveryView::Awaiting => outcome is Received || outcome is Failed,
            RecoveryView::Opening(_) | RecoveryView::Booting => outcome is Opened || outcome
                is Failed,
            RecoveryView::Pausing(_) => outcome is Done,
            _ => outcome is Done || outcome is Failed,
        }
    }

    /// What follows the dropping of the lost connection, to resume the session
    /// `session_id`: a new connection to `url`, or another shard if there is no
    /// URL.
    pub open spec fn dialing(session_id: Seq<char>, url: Option<Seq<char>>) -> RecoveryView {
        match url {
            Some(url) => RecoveryView::Dialing(session_id, url),
            None => RecoveryView::Opening(0),
        }
    }

    /// What becomes of `shard`, and where the resuming of its session goes, when
    /// what was to be done went as `outcome` says. Where the session cannot be
    /// resumed, the shard is left as it is, to be replaced.
    pub open spec fn resume_after(self, shard: ShardView, outcome: RecoveryOutcome) -> (
        ShardView,
        RecoveryStepView,
    ) {
        match outcome {
            RecoveryOutcome::Done => (
                shard,
                RecoveryStepView::Continue(
                    match self {
                        RecoveryView::Dropping(session_id) => RecoveryView::dialing(
                            session_id,
                            gateway_url(shard.ws_url),
                        ),
                        RecoveryView::Dialing(session_id, _) => RecoveryView::Resuming(session_id),
                        _ => RecoveryView::Awaiting,
                    },
                ),
            ),
            RecoveryOutcome::Received(GatewayEvent::Dispatch(sequence, event)) => (
                shard.resumed(sequence, event),
                RecoveryStepView::Finish(Some(StatusView::ChangeSender), Ok(event)),
            ),
            RecoveryOutcome::Received(GatewayEvent::InvalidateSession) => (
                shard,
                RecoveryStepView::Continue(RecoveryView::Identifying),
            ),
            _ => (shard, RecoveryStepView::Continue(RecoveryView::Opening(0))),
        }
    }

    /// The error for which the resuming of a session is given up when what was to
    /// be done went as `outcome` says, if it is: what failed, or what was received
    /// instead of an answer, or `url_error`, the reason for which there is no URL
    /// to connect to.
    pub open spec fn resume_failure(
        self,
        outcome: RecoveryOutcome,
        url_error: Option<Error>,
    ) -> Option<Error> {
        if !self.resumes() {
            None
        } else {
            match outcome {
                RecoveryOutcome::Failed(error) => Some(error),
                RecoveryOutcome::Received(GatewayEvent::Dispatch(..))
                | RecoveryOutcome::Received(GatewayEvent::InvalidateSession) => None,
                RecoveryOutcome::Received(_) => Some(
                    Error::Gateway(GatewayError::InvalidHandshake),
                ),
                _ => if self is Dropping {
                    url_error
                } else {
                    None
                },
            }
        }
    }

    /// What becomes of `shard`, and where its replacement goes, when what was to
    /// be done went as `outcome` says.
    pub open spec fn reconnect_after(self, shard: ShardView, outcome: RecoveryOutcome) -> (
        ShardView,
        RecoveryStepView,
    ) {
        match (outcome, self) {
            (RecoveryOutcome::Opened(new, ready), _) => (
                new@,
                RecoveryStepView::Continue(RecoveryView::Retiring(ready)),
            ),
            (RecoveryOutcome::Failed(_), RecoveryView::Opening(failures)) => (
                shard,
                RecoveryStepView::Continue(RecoveryView::Pausing((failures + 1) as u8)),
            ),
            (RecoveryOutcome::Failed(error), _) => (
                shard,
                RecoveryStepView::Finish(None, Err(error)),
            ),
            (_, RecoveryView::Retiring(ready)) => (
                shard.in_session(ready.ready.session_id@),
                RecoveryStepView::Finish(None, Ok(Event::Ready(ready))),
            ),
            (_, RecoveryView::Pausing(failures)) => (
                shard,
                RecoveryStepView::Continue(
                    if failures < RECONNECT_ATTEMPTS {
                        RecoveryView::Opening(failures)
                    } else {
                        RecoveryView::Booting
                    },
                ),
            ),
            _ => (shard, RecoveryStepView::Continue(self)),
        }
    }

    /// What becomes of `shard`, and where the recovery goes, when what was to be
    /// done went as `outcome` says.
    pub open spec fn after(self, shard: ShardView, outcome: RecoveryOutcome) -> (
        ShardView,
        RecoveryStepView,
    ) {
        if self.resumes() {
            self.resume_after(shard, outcome)
        } else {
            self.reconnect_after(shard, outcome)
        }
    }
}

impl ShardView {
    /// The error that the address of the shard is no URL, if it is none.
    pub open spec fn url_error(self) -> Option<Error> {
        match gateway_url(self.ws_url) {
            Some(_) => None,
            None => Some(Error::Gateway(GatewayError::BuildingUrl)),
        }
    }

    /// The handshake of a new shard in the place of this one, or the error that
    /// there is none.
    pub open spec fn reopened(self) -> Result<HandshakeView, Error> {
        match gateway_url(self.ws_url) {
            Some(url) => Ok(
                HandshakeView {
                    base_url: self.ws_url,
                    token: self.token,
                    shard_info: self.shard_info,
                    login_type: self.login_type,
                    os: self.os,
                    stage: StageView::Connecting(url),
                },
            ),
            None => Err(Error::Gateway(GatewayError::BuildingUrl)),
        }
    }

    /// The same shard in another session.
    pub open spec fn in_session(self, session_id: Seq<char>) -> ShardView {
        ShardView { session_id: Some(session_id), ..self }
    }

    /// The shard when its session goes on with `event` at place `sequence`: if
    /// that is the start of a session, it is in that session.
    pub open spec fn resumed(self, sequence: u64, event: Event) -> ShardView {
        let shard = ShardView { last_sequence: sequence, ..self };
        match event {
            Event::Ready(ready) => shard.in_session(ready.ready.session_id@),
            _ => shard,
        }
    }
}

impl Recovery {
    #[verifier::type_invariant]
    pub(crate) open spec fn inv(self) -> bool {
        self@.valid()
    }

    /// Goes on to resume the session `session_id` once the URL of the gateway
    /// is known, or to replace the shard if there is none.
    pub fn dial(session_id: String, url: Result<String, Error>) -> (recovery: Recovery)
        ensures
            recovery@ == RecoveryView::dialing(
                session_id@,
                match url {
                    Ok(url) => Some(url@),
                    Err(_) => None,
                },
            ),
    {
        match url {
            Ok(url) => Recovery { phase: Phase::Dialing(session_id, url) },
            Err(_) => Recovery { phase: Phase::Opening(0) },
        }
    }

    /// Whether `outcome` is one that what is to be done now can have.
    pub fn accepts(&self, outcome: &RecoveryOutcome) -> (r: bool)
        ensures
            r == self@.accepts(*outcome),
    {
        match (&self.phase, outcome) {
            (Phase::Awaiting, RecoveryOutcome::Received(_)) => true,
            (Phase::Awaiting, RecoveryOutcome::Done) => false,
            (Phase::Opening(_), RecoveryOutcome::Opened(..)) => true,
            (Phase::Opening(_), RecoveryOutcome::Done) => false,
            (Phase::Booting, RecoveryOutcome::Opened(..)) => true,
            (Phase::Booting, RecoveryOutcome::Done) => false,
            (Phase::Pausing(_), RecoveryOutcome::Failed(_)) => false,
            (_, RecoveryOutcome::Done) => true,
            (_, RecoveryOutcome::Failed(_)) => true,
            _ => false,
        }
    }

    /// The error for which the resuming of the session is given up when what was
    /// to be done went as `outcome` says, if it is; `url_error` is the reason for
    /// which there is no URL to connect to, if there is none.
    pub fn resume_failure(&self, outcome: &RecoveryOutcome, url_error: Option<Error>) -> (failure:
        Option<Error>)
        ensures
            failure == self@.resume_failure(*outcome, url_error),
    {
        match (&self.phase, outcome) {
            (Phase::Opening(_), _)
            | (Phase::Pausing(_), _)
            | (Phase::Booting, _)
            | (Phase::Retiring(_), _) => None,
            (_, RecoveryOutcome::Failed(error)) => Some(error.clone()),
            (_, RecoveryOutcome::Received(GatewayEvent::Dispatch(..))) => None,
            (_, RecoveryOutcome::Received(GatewayEvent::InvalidateSession)) => None,
            (_, RecoveryOutcome::Received(_)) => Some(
                Error::Gateway(GatewayError::InvalidHandshake),
            ),
            (Phase::Dropping(_), _) => url_error,
            _ => None,
        }
    }
}

impl Shard {
    /// Starts to resume the session `session_id`.
    pub(crate) fn resume(&self, session_id: String) -> (recovery: Recovery)
        ensures
            recovery@ == RecoveryView::Dropping(session_id@),
    {
        Recovery { phase: Phase::Dropping(session_id) }
    }

    /// Starts to replace the shard.
    pub(crate) fn reconnect(&self) -> (recovery: Recovery)
        ensures
            recovery@ == RecoveryView::Opening(0),
    {
        Recovery { phase: Phase::Opening(0) }
    }

    /// What is to be done next to get over the loss of the connection.
    pub fn recovery_action(&self, recovery: &Recovery) -> (action: RecoveryAction)
        ensures
            action@ == recovery@.action(self@),
    {
        proof {
            use_type_invariant(self);
        }
        match &recovery.phase {
            Phase::Dropping(_) => RecoveryAction::Drop,
            Phase::Dialing(_, url) => RecoveryAction::Connect(url.clone()),
            Phase::Resuming(session_id) => RecoveryAction::Send(
                resume(session_id.as_str(), self.last_sequence, self.token.as_str()),
            ),
            Phase::Awaiting => RecoveryAction::Receive,
            Phase::Identifying => RecoveryAction::Send(
                identify(self.token.as_str(), self.shard_info, self.os.as_str()),
            ),
            Phase::Opening(_) => RecoveryAction::Open(
                Shard::new(
                    self.ws_url.as_str(),
                    self.token.as_str(),
                    self.shard_info,
                    self.login_type,
                    self.os.as_str(),
                ),
            ),
            Phase::Pausing(_) => RecoveryAction::Sleep(RECONNECT_PAUSE),
            Phase::Booting => RecoveryAction::Boot(
                self.token.clone(),
                self.login_type,
                self.shard_info,
            ),
            Phase::Retiring(_) => RecoveryAction::Retire,
        }
    }

    /// The error for which the resuming of the session is given up when what was
    /// to be done went as `outcome` says, if it is.
    pub fn resume_failure(&self, recovery: &Recovery, outcome: &RecoveryOutcome) -> (failure:
        Option<Error>)
        ensures
            failure == recovery@.resume_failure(*outcome, self@.url_error()),
    {
        proof {
            use_type_invariant(self);
        }
        let url_error = match build_gateway_url(self.ws_url.as_str()) {
            Ok(_) => None,
            Err(error) => Some(error),
        };
        recovery.resume_failure(outcome, url_error)
    }

    /// Goes on after what was to be done went as `outcome` says: where the
    /// session cannot be resumed, the shard is replaced.
    pub fn recover(&mut self, recovery: Recovery, outcome: RecoveryOutcome) -> (step: RecoveryStep)
        requires
            recovery@.accepts(outcome),
        ensures
            (final(self)@, step@) == recovery@.after(old(self)@, outcome),
            final(self)@.valid(),
    {
        match &recovery.phase {
            Phase::Opening(_) | Phase::Pausing(_) | Phase::Booting | Phase::Retiring(_) => {
                self.reconnect_step(recovery, outcome)
            },
            _ => self.resume_step(recovery, outcome),
        }
    }

    /// Goes on to resume the session.
    fn resume_step(&mut self, recovery: Recovery, outcome: RecoveryOutcome) -> (step: RecoveryStep)
        requires
            recovery@.resumes(),
            recovery@.accepts(outcome),
        ensures
            (final(self)@, step@) == recovery@.resume_after(old(self)@, outcome),
            final(self)@.valid(),
    {
        proof {
            use_type_invariant(&*self);
        }
        match outcome {
            RecoveryOutcome::Done => RecoveryStep::Continue(
                match recovery.phase {
                    Phase::Dropping(session_id) => {
                        Recovery::dial(session_id, build_gateway_url(self.ws_url.as_str()))
                    },
                    Phase::Dialing(session_id, _) => Recovery {
                        phase: Phase::Resuming(session_id),
                    },
                    _ => Recovery { phase: Phase::Awaiting },
                },
            ),
            RecoveryOutcome::Received(GatewayEvent::Dispatch(sequence, event)) => {
                match &event {
                    Event::Ready(ready) => {
                        self.session_id = Some(ready.ready.session_id.clone());
                    },
                    _ => {},
                }
                self.last_sequence = sequence;
                RecoveryStep::Finish(Some(GatewayStatus::ChangeSender), Ok(event))
            },
            RecoveryOutcome::Received(GatewayEvent::InvalidateSession) => RecoveryStep::Continue(
                Recovery { phase: Phase::Identifying },
            ),
            _ => RecoveryStep::Continue(self.reconnect()),
        }
    }

    /// Goes on to replace the shard.
    fn reconnect_step(&mut self, recovery: Recovery, outcome: RecoveryOutcome) -> (step:
        RecoveryStep)
        requires
            !recovery@.resumes(),
            recovery@.accepts(outcome),
        ensures
            (final(self)@, step@) == recovery@.reconnect_after(old(self)@, outcome),
            final(self)@.valid(),
    {
        proof {
            use_type_invariant(&*self);
            use_type_invariant(&recovery);
        }
        match (outcome, recovery.phase) {
            (RecoveryOutcome::Opened(shard, ready), _) => {
                proof {
                    use_type_invariant(&shard);
                }
                *self = shard;
                RecoveryStep::Continue(Recovery { phase: Phase::Retiring(ready) })
            },
            (RecoveryOutcome::Failed(_), Phase::Opening(failures)) => RecoveryStep::Continue(
                Recovery { phase: Phase::Pausing(failures + 1) },
            ),
            (RecoveryOutcome::Failed(error), _) => RecoveryStep::Finish(None, Err(error)),
            (_, Phase::Retiring(ready)) => {
                self.session_id = Some(ready.ready.session_id.clone());
                RecoveryStep::Finish(None, Ok(Event::Ready(ready)))
            },
            (_, Phase::Pausing(failures)) => {
                if failures < RECONNECT_ATTEMPTS {
                    RecoveryStep::Continue(Recovery { phase: Phase::Opening(failures) })
                } else {
                    RecoveryStep::Continue(Recovery { phase: Phase::Booting })
                }
            },
            (_, phase) => RecoveryStep::Continue(Recovery { phase }),
        }
    }
}

} // verus!
