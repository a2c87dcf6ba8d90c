//! What a shard does on the messages and errors of its connection.

use serde_json::Value;
use vstd::prelude::*;

use crate::constants::CLOSE_NORMAL;
use crate::error::{Error, GatewayError};
use crate::model::{Event, GatewayEvent, GuildId};
use crate::payload::{heartbeat, heartbeat_json};
use crate::prep::{identify, identify_json};
use crate::recovery::{Recovery, RecoveryView};
use crate::shard::{Shard, ShardView};
use crate::status::{notices, GatewayStatus, StatusView};

verus! {

/// What the voice connection of a guild is to be told.
#[derive(Debug, PartialEq)]
pub enum VoiceUpdate<'a> {
    /// The state of someone in the guild.
    State(GuildId, &'a Value),
    /// The address of the guild's voice server, if it has one, and the token for
    /// it.
    Server(GuildId, &'a Option<String>, &'a String),
}

/// What is to be done about an event before it is handed on.
#[derive(Debug, PartialEq)]
pub struct Dispatched<'a> {
    /// The notice for the thread that keeps the connection alive, if there is
    /// one.
    pub notice: Option<GatewayStatus>,
    /// What the voice connection of a guild is to be told, if there is one.
    pub voice: Option<VoiceUpdate<'a>>,
}

/// What comes after a message or an error.
#[derive(Debug)]
pub enum Next {
    /// It is dealt with: with an event to hand on, or none, or an error.
    Return(Result<Option<Event>, Error>),
    /// The connection is lost, and is to be got over.
    Recover(Recovery),
}

/// What comes after a message or an error.
pub enum NextView {
    Return(Result<Option<Event>, Error>),
    Recover(RecoveryView),
}

/// What a shard does on a message or an error.
#[derive(Debug)]
pub struct Handled {
    /// The notices for the thread that keeps the connection alive, in order.
    pub statuses: Vec<GatewayStatus>,
    pub next: Next,
}

impl View for Next {
    type V = NextView;

    open spec fn view(&self) -> NextView {
        match self {
            Next::Return(result) => NextView::Return(*result),
            Next::Recover(recovery) => NextView::Recover(recovery@),
        }
    }
}

/// The notice that `event` calls for: a resumed session has its own time between
/// two heartbeats.
pub open spec fn dispatch_notice(event: Event) -> Option<StatusView> {
    match event {
        Event::Resumed(resumed) => Some(StatusView::ChangeInterval(resumed.heartbeat_interval)),
        _ => None,
    }
}

/// What the voice connection of a guild is to be told on `event`.
pub open spec fn voice_update<'a>(event: &'a Event) -> Option<VoiceUpdate<'a>> {
    match event {
        Event::VoiceStateUpdate(update) => match update.guild_id {
            Some(guild_id) => Some(VoiceUpdate::State(guild_id, &update.voice_state)),
            None => None,
        },
        Event::VoiceServerUpdate(update) => match update.guild_id {
            Some(guild_id) => Some(VoiceUpdate::Server(guild_id, &update.endpoint, &update.token)),
            None => None,
        },
        _ => None,
    }
}

impl ShardView {
    /// How the loss of the connection is got over: the session is resumed, if it
    /// may be and is not over, and otherwise the shard is replaced.
    pub open spec fn recovery(self, may_resume: bool) -> RecoveryView {
        match self.session_id {
            Some(session_id) => if may_resume {
                RecoveryView::Dropping(session_id)
            } else {
                RecoveryView::Opening(0)
            },
            None => RecoveryView::Opening(0),
        }
    }

    /// What becomes of the shard on a message or an error: its session may be
    /// over.
    pub open spec fn after_event(self, event: Result<GatewayEvent, Error>) -> ShardView {
        if event == Ok::<GatewayEvent, Error>(GatewayEvent::InvalidateSession) {
            ShardView { session_id: None, ..self }
        } else {
            self
        }
    }

    /// The notices that a message or an error calls for, in order.
    pub open spec fn event_notices(self, event: Result<GatewayEvent, Error>) -> Seq<StatusView> {
        match event {
            Ok(GatewayEvent::Dispatch(sequence, event)) => match dispatch_notice(event) {
                Some(notice) => seq![StatusView::Sequence(sequence), notice],
                None => seq![StatusView::Sequence(sequence)],
            },
            Ok(GatewayEvent::Heartbeat(sequence)) => seq![
                StatusView::SendMessage(heartbeat_json(sequence)),
            ],
            Ok(GatewayEvent::Hello(interval)) => seq![StatusView::ChangeInterval(interval)],
            Ok(GatewayEvent::InvalidateSession) => seq![
                StatusView::SendMessage(identify_json(self.token, self.shard_info, self.os)),
            ],
            _ => seq![],
        }
    }

    /// What comes after a message or an error. The connection is lost when the
    /// gateway wants it made anew, when it closed it, and when the websocket
    /// failed. The session may then be resumed, unless the gateway wants
    /// otherwise: by its message, or by closing normally.
    pub open spec fn event_next(self, event: Result<GatewayEvent, Error>) -> NextView {
        match event {
            Ok(GatewayEvent::Dispatch(_, event)) => NextView::Return(Ok(Some(event))),
            Ok(GatewayEvent::Reconnect) => NextView::Recover(self.recovery(false)),
            Ok(_) => NextView::Return(Ok(None)),
            Err(Error::Gateway(GatewayError::Closed(code, _))) => NextView::Recover(
                self.recovery(code != Some(CLOSE_NORMAL)),
            ),
            Err(Error::WebSocket(_)) => NextView::Recover(self.recovery(true)),
            Err(error) => NextView::Return(Err(error)),
        }
    }
}

/// What the voice connection of a guild is to be told on `event`.
fn voice_of<'a>(event: &'a Event) -> (voice: Option<VoiceUpdate<'a>>)
    ensures
        voice == voice_update(event),
{
    match event {
        Event::VoiceStateUpdate(update) => match update.guild_id {
            Some(guild_id) => Some(VoiceUpdate::State(guild_id, &update.voice_state)),
            None => None,
        },
        Event::VoiceServerUpdate(update) => match update.guild_id {
            Some(guild_id) => Some(VoiceUpdate::Server(guild_id, &update.endpoint, &update.token)),
            None => None,
        },
        _ => None,
    }
}

impl Handled {
    /// What the voice connection of a guild is to be told, if there is one: only
    /// an event that is handed on calls for it.
    pub fn voice(&self) -> (voice: Option<VoiceUpdate<'_>>)
        ensures
            voice == match &self.next {
                Next::Return(Ok(Some(event))) => voice_update(event),
                _ => None,
            },
    {
        match &self.next {
            Next::Return(Ok(Some(event))) => voice_of(event),
            _ => None,
        }
    }
}

impl Shard {
    /// What is to be done about `event` before it is handed on.
    pub fn handle_dispatch<'a>(&self, event: &'a Event) -> (dispatched: Dispatched<'a>)
        ensures
            match dispatched.notice {
                Some(notice) => dispatch_notice(*event) == Some(notice@),
                None => dispatch_notice(*event) is None,
            },
            dispatched.voice == voice_update(event),
    {
        let notice = match event {
            Event::Resumed(resumed) => Some(
                GatewayStatus::ChangeInterval(resumed.heartbeat_interval),
            ),
            _ => None,
        };
        Dispatched { notice, voice: voice_of(event) }
    }

    /// Deals with a message or an error of the connection.
    pub fn handle_event(&mut self, event: Result<GatewayEvent, Error>) -> (handled: Handled)
        ensures
            final(self)@ == old(self)@.after_event(event),
            final(self)@.valid(),
            notices(handled.statuses@) == old(self)@.event_notices(event),
            handled.next@ == old(self)@.event_next(event),
    {
        proof {
            use_type_invariant(&*self);
        }
        let ghost before = self@;
        let mut statuses: Vec<GatewayStatus> = Vec::new();
        let next = match event {
            Ok(GatewayEvent::Dispatch(sequence, event)) => {
                statuses.push(GatewayStatus::Sequence(sequence));
                match self.handle_dispatch(&event).notice {
                    Some(notice) => statuses.push(notice),
                    None => {},
                }
                Next::Return(Ok(Some(event)))
            },
            Ok(GatewayEvent::Heartbeat(sequence)) => {
                statuses.push(GatewayStatus::SendMessage(heartbeat(sequence)));
                Next::Return(Ok(None))
            },
            Ok(GatewayEvent::HeartbeatAck) => Next::Return(Ok(None)),
            Ok(GatewayEvent::Hello(interval)) => {
                statuses.push(GatewayStatus::ChangeInterval(interval));
                Next::Return(Ok(None))
            },
            Ok(GatewayEvent::InvalidateSession) => {
                self.session_id = None;
                let identification = identify(
                    self.token.as_str(),
                    self.shard_info,
                    self.os.as_str(),
                );
                statuses.push(GatewayStatus::SendMessage(identification));
                Next::Return(Ok(None))
            },
            Ok(GatewayEvent::Reconnect) => Next::Recover(self.reconnect()),
            Err(Error::Gateway(GatewayError::Closed(code, _))) => {
                let may_resume = match code {
                    Some(code) => code != CLOSE_NORMAL,
                    None => true,
                };
                Next::Recover(self.recovery(may_resume))
            },
            Err(Error::WebSocket(_)) => Next::Recover(self.recovery(true)),
            Err(error) => Next::Return(Err(error)),
        };
        assert(notices(statuses@) =~= before.event_notices(event));
        Handled { statuses, next }
    }

    /// Starts to get over the loss of the connection.
    fn recovery(&self, may_resume: bool) -> (recovery: Recovery)
        ensures
            recovery@ == self@.recovery(may_resume),
    {
        match &self.session_id {
            Some(session_id) => if may_resume {
                self.resume(session_id.clone())
            } else {
                self.reconnect()
            },
            None => self.reconnect(),
        }
    }
}

} // verus!
