//! How a shard comes to be: from an address and a token to a session.
//!
//! A [`Handshake`] says what is to be done next, is told how that went, and
//! ends with a [`Shard`] or an error.

use serde_json::Value;
use vstd::prelude::*;

use crate::error::{Error, GatewayError};
use crate::json::{json_of, Json};
use crate::model::{Event, GatewayEvent, LoginType, OnlineStatus, ReadyEvent};
use crate::prep::{
    build_gateway_url, gateway_url, has_shards, identify, identify_json, keepalive_name,
    safe_address, thread_name,
};
use crate::shard::{Shard, ShardView};
use crate::status::{GatewayStatus, StatusView};

verus! {

/// How far a handshake has come.
#[derive(Debug)]
pub(crate) enum Stage {
    /// The connection to the URL is being opened.
    Connecting(String),
    /// The identification is being sent.
    Identifying,
    /// The greeting is awaited.
    AwaitingHello,
    /// The thread for the heartbeats is being started, with the time between
    /// two of them.
    StartingKeepalive(u64),
    /// The start of the session is awaited.
    AwaitingReady,
    /// The start of the session is awaited, after a second identification.
    AwaitingReadyAgain,
}

/// How far a handshake has come.
pub enum StageView {
    Connecting(Seq<char>),
    Identifying,
    AwaitingHello,
    StartingKeepalive(u64),
    AwaitingReady,
    AwaitingReadyAgain,
}

/// The making of a shard.
#[derive(Debug)]
pub struct Handshake {
    pub(crate) base_url: String,
    pub(crate) token: String,
    pub(crate) shard_info: Option<[u8; 2]>,
    pub(crate) login_type: LoginType,
    pub(crate) os: String,
    pub(crate) stage: Stage,
}

/// What is known in the making of a shard.
#[verifier::ext_equal]
pub struct HandshakeView {
    pub base_url: Seq<char>,
    pub token: Seq<char>,
    pub shard_info: Option<[u8; 2]>,
    pub login_type: LoginType,
    pub os: Seq<char>,
    pub stage: StageView,
}

/// What is to be done next in a handshake.
#[derive(Debug, PartialEq)]
pub enum HandshakeAction {
    /// Open a websocket to the URL.
    Connect(String),
    /// Send the message.
    Send(Value),
    /// Receive a message.
    Receive,
    /// Start a thread that sends heartbeats: the time between two of them, in
    /// milliseconds, and the name of the thread.
    StartKeepalive(u64, String),
}

/// What is to be done next in a handshake.
pub enum HandshakeActionView {
    Connect(Seq<char>),
    Send(Json),
    Receive,
    StartKeepalive(u64, Seq<char>),
}

/// How what was to be done in a handshake went.
#[derive(Debug, PartialEq)]
pub enum HandshakeOutcome {
    /// It was done.
    Done,
    /// This message was received.
    Received(GatewayEvent),
    /// It failed.
    Failed(Error),
}

/// Where a handshake goes.
#[derive(Debug)]
pub enum HandshakeStep {
    /// On; the notice, if there is one, is for the thread that was started.
    Continue(Handshake, Option<GatewayStatus>),
    /// To its end, with the shard and what the gateway told of the session.
    Established(Shard, ReadyEvent),
    /// To an end without a shard.
    Failed(Error),
}

/// Where a handshake goes.
pub enum HandshakeStepView {
    Continue(HandshakeView, Option<StatusView>),
    Established(ShardView, ReadyEvent),
    Failed(Error),
}

impl View for Stage {
    type V = StageView;

    open(crate) spec fn view(&self) -> StageView {
        match self {
            Stage::Connecting(url) => StageView::Connecting(url@),
            Stage::Identifying => StageView::Identifying,
            Stage::AwaitingHello => StageView::AwaitingHello,
            Stage::StartingKeepalive(interval) => StageView::StartingKeepalive(*interval),
            Stage::AwaitingReady => StageView::AwaitingReady,
            Stage::AwaitingReadyAgain => StageView::AwaitingReadyAgain,
        }
    }
}

impl View for Handshake {
    type V = HandshakeView;

    open(crate) spec fn view(&self) -> HandshakeView {
        HandshakeView {
            base_url: self.base_url@,
            token: self.token@,
            shard_info: self.shard_info,
            login_type: self.login_type,
            os: self.os@,
            stage: self.stage@,
        }
    }
}

impl View for HandshakeAction {
    type V = HandshakeActionView;

    open spec fn view(&self) -> HandshakeActionView {
        match self {
            HandshakeAction::Connect(url) => HandshakeActionView::Connect(url@),
            HandshakeAction::Send(message) => HandshakeActionView::Send(json_of(*message)),
            HandshakeAction::Receive => HandshakeActionView::Receive,
            HandshakeAction::StartKeepalive(interval, name) => HandshakeActionView::StartKeepalive(
                *interval,
                name@,
            ),
        }
    }
}

impl View for HandshakeStep {
    type V = HandshakeStepView;

    open spec fn view(&self) -> HandshakeStepView {
        match self {
            HandshakeStep::Continue(handshake, notice) => HandshakeStepView::Continue(
                handshake@,
                match notice {
                    Some(notice) => Some(notice@),
                    None => None,
                },
            ),
            HandshakeStep::Established(shard, ready) => HandshakeStepView::Established(
                shard@,
                *ready,
            ),
            HandshakeStep::Failed(error) => HandshakeStepView::Failed(*error),
        }
    }
}

impl HandshakeView {
    /// What holds of every handshake: its address can be made a URL, and once the
    /// greeting was received, there are shards to be one of.
    pub open spec fn valid(self) -> bool {
        &&& safe_address(self.base_url)
        &&& match self.stage {
            StageView::Connecting(_) | StageView::Identifying | StageView::AwaitingHello => true,
            _ => has_shards(self.shard_info),
        }
    }

    /// The same handshake at another stage.
    pub open spec fn at(self, stage: StageView) -> HandshakeView {
        HandshakeView { stage, ..self }
    }

    /// The message that opens the session.
    pub open spec fn identification(self) -> Json {
        identify_json(self.token, self.shard_info, self.os)
    }

    /// What is to be done at this stage.
    pub open spec fn action(self) -> HandshakeActionView {
        match self.stage {
            StageView::Connecting(url) => HandshakeActionView::Connect(url),
            StageView::Identifying => HandshakeActionView::Send(self.identification()),
            StageView::StartingKeepalive(interval) => HandshakeActionView::StartKeepalive(
                interval,
                keepalive_name(self.shard_info),
            ),
            _ => HandshakeActionView::Receive,
        }
    }

    /// `outcome` is one that what is to be done at this stage can have. A
    /// greeting is one only where there are shards to be one of.
    pub open spec fn accepts(self, outcome: HandshakeOutcome) -> bool {
        match outcome {
            HandshakeOutcome::Done => !(self.action() is Receive),
            HandshakeOutcome::Received(event) => self.action() is Receive && (self.stage
                is AwaitingHello && event is Hello ==> has_shards(self.shard_info)),
            HandshakeOutcome::Failed(_) => true,
        }
    }

    /// The shard of the session that `ready` starts at place `sequence`.
    pub open spec fn shard(self, ready: ReadyEvent, sequence: u64) -> ShardView {
        ShardView {
            game: None,
            status: OnlineStatus::Online,
            afk: false,
            last_sequence: sequence,
            login_type: self.login_type,
            session_id: Some(ready.ready.session_id@),
            shard_info: self.shard_info,
            token: self.token,
            ws_url: self.base_url,
            os: self.os,
        }
    }

    /// Where the handshake goes after the first message once the heartbeats have
    /// started.
    pub open spec fn after_event(self, event: GatewayEvent) -> HandshakeStepView {
        match event {
            GatewayEvent::Dispatch(sequence, Event::Ready(ready)) => HandshakeStepView::Established(
                self.shard(ready, sequence),
                ready,
            ),
            _ => if event is InvalidateSession && self.stage is AwaitingReady {
                HandshakeStepView::Continue(
                    self.at(StageView::AwaitingReadyAgain),
                    Some(StatusView::SendMessage(self.identification())),
                )
            } else {
                HandshakeStepView::Failed(Error::Gateway(GatewayError::InvalidHandshake))
            },
        }
    }

    /// Where the handshake goes when what was to be done went as `outcome` says.
    pub open spec fn after(self, outcome: HandshakeOutcome) -> HandshakeStepView {
        match outcome {
            HandshakeOutcome::Failed(error) => HandshakeStepView::Failed(error),
            HandshakeOutcome::Done => HandshakeStepView::Continue(
                self.at(
                    match self.stage {
                        StageView::Connecting(_) => StageView::Identifying,
                        StageView::Identifying => StageView::AwaitingHello,
                        _ => StageView::AwaitingReady,
                    },
                ),
                None,
            ),
            HandshakeOutcome::Received(event) => if self.stage is AwaitingHello {
                match event {
                    GatewayEvent::Hello(interval) => HandshakeStepView::Continue(
                        self.at(StageView::StartingKeepalive(interval)),
                        None,
                    ),
                    _ => HandshakeStepView::Failed(Error::Gateway(GatewayError::ExpectedHello)),
                }
            } else {
                self.after_event(event)
            },
        }
    }
}

impl Shard {
    /// Starts to connect a new shard to the gateway at `base_url`, on a machine
    /// that runs `os`.
    pub fn new(
        base_url: &str,
        token: &str,
        shard_info: Option<[u8; 2]>,
        login_type: LoginType,
        os: &str,
    ) -> (r: Result<Handshake, Error>)
        requires
            safe_address(base_url@),
        ensures
            match gateway_url(base_url@) {
                Some(url) => r matches Ok(handshake) && handshake@ == (HandshakeView {
                    base_url: base_url@,
                    token: token@,
                    shard_info,
                    login_type,
                    os: os@,
                    stage: StageView::Connecting(url),
                }),
                None => r == Err::<Handshake, Error>(Error::Gateway(GatewayError::BuildingUrl)),
            },
    {
        match build_gateway_url(base_url) {
            Ok(url) => Ok(Handshake::with_url(url, base_url, token, shard_info, login_type, os)),
            Err(error) => Err(error),
        }
    }
}

impl Handshake {
    #[verifier::type_invariant]
    pub(crate) open spec fn inv(self) -> bool {
        self@.valid()
    }

    /// Starts to connect a new shard, once the URL of the gateway is known.
    pub fn with_url(
        url: String,
        base_url: &str,
        token: &str,
        shard_info: Option<[u8; 2]>,
        login_type: LoginType,
        os: &str,
    ) -> (handshake: Handshake)
        requires
            safe_address(base_url@),
        ensures
            handshake@ == (HandshakeView {
                base_url: base_url@,
                token: token@,
                shard_info,
                login_type,
                os: os@,
                stage: StageView::Connecting(url@),
            }),
    {
        Handshake {
            base_url: base_url.to_owned(),
            token: token.to_owned(),
            shard_info,
            login_type,
            os: os.to_owned(),
            stage: Stage::Connecting(url),
        }
    }

    /// What is to be done next.
    pub fn action(&self) -> (action: HandshakeAction)
        ensures
            action@ == self@.action(),
    {
        proof {
            use_type_invariant(self);
        }
        match &self.stage {
            Stage::Connecting(url) => HandshakeAction::Connect(url.clone()),
            Stage::Identifying => HandshakeAction::Send(
                identify(self.token.as_str(), self.shard_info, self.os.as_str()),
            ),
            Stage::StartingKeepalive(interval) => HandshakeAction::StartKeepalive(
                *interval,
                thread_name(self.shard_info),
            ),
            Stage::AwaitingHello | Stage::AwaitingReady | Stage::AwaitingReadyAgain =>
                HandshakeAction::Receive,
        }
    }

    /// Whether `outcome` is one that what is to be done next can have.
    pub fn accepts(&self, outcome: &HandshakeOutcome) -> (r: bool)
        ensures
            r == self@.accepts(*outcome),
    {
        let receives = match &self.stage {
            Stage::AwaitingHello | Stage::AwaitingReady | Stage::AwaitingReadyAgain => true,
            _ => false,
        };
        match outcome {
            HandshakeOutcome::Done => !receives,
            HandshakeOutcome::Received(event) => {
                let greeted = match (&self.stage, event) {
                    (Stage::AwaitingHello, GatewayEvent::Hello(_)) => true,
                    _ => false,
                };
                let shards = match self.shard_info {
                    Some(info) => info[1] > 0,
                    None => true,
                };
                receives && (!greeted || shards)
            },
            HandshakeOutcome::Failed(_) => true,
        }
    }

    /// Goes on after what was to be done went as `outcome` says.
    pub fn step(self, outcome: HandshakeOutcome) -> (step: HandshakeStep)
        requires
            self@.accepts(outcome),
        ensures
            step@ == self@.after(outcome),
    {
        proof {
            use_type_invariant(&self);
        }
        match outcome {
            HandshakeOutcome::Failed(error) => HandshakeStep::Failed(error),
            HandshakeOutcome::Done => {
                let stage = match &self.stage {
                    Stage::Connecting(_) => Stage::Identifying,
                    Stage::Identifying => Stage::AwaitingHello,
                    _ => Stage::AwaitingReady,
                };
                HandshakeStep::Continue(Handshake { stage, ..self }, None)
            },
            HandshakeOutcome::Received(event) => match &self.stage {
                Stage::AwaitingHello => match event {
                    GatewayEvent::Hello(interval) => HandshakeStep::Continue(
                        Handshake { stage: Stage::StartingKeepalive(interval), ..self },
                        None,
                    ),
                    _ => HandshakeStep::Failed(Error::Gateway(GatewayError::ExpectedHello)),
                },
                _ => self.parse_ready(event),
            },
        }
    }

    /// Goes on after the first message once the heartbeats have started, or
    /// after the second, if the first called for another identification.
    fn parse_ready(self, event: GatewayEvent) -> (step: HandshakeStep)
        requires
            self@.stage is AwaitingReady || self@.stage is AwaitingReadyAgain,
        ensures
            step@ == self@.after_event(event),
    {
        proof {
            use_type_invariant(&self);
        }
        match event {
            GatewayEvent::Dispatch(sequence, Event::Ready(ready)) => {
                let session_id = ready.ready.session_id.clone();
                let shard = Shard {
                    current_presence: (None, OnlineStatus::Online, false),
                    last_sequence: sequence,
                    login_type: self.login_type,
                    session_id: Some(session_id),
                    shard_info: self.shard_info,
                    token: self.token,
                    ws_url: self.base_url,
                    os: self.os,
                };
                HandshakeStep::Established(shard, ready)
            },
            GatewayEvent::InvalidateSession => match &self.stage {
                Stage::AwaitingReady => {
                    let identification = identify(
                        self.token.as_str(),
                        self.shard_info,
                        self.os.as_str(),
                    );
                    HandshakeStep::Continue(
                        Handshake { stage: Stage::AwaitingReadyAgain, ..self },
                        Some(GatewayStatus::SendMessage(identification)),
                    )
                },
                _ => HandshakeStep::Failed(Error::Gateway(GatewayError::InvalidHandshake)),
            },
            _ => HandshakeStep::Failed(Error::Gateway(GatewayError::InvalidHandshake)),
        }
    }
}

} // verus!
