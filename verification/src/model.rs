//! What a shard is told and what it says of its user.

use serde_json::Value;
use vstd::prelude::*;

verus! {

/// The identifier of a channel.
#[derive(Clone, Copy, Debug, PartialEq, Eq, Structural)]
pub struct ChannelId(pub u64);

/// The identifier of a guild.
#[derive(Clone, Copy, Debug, PartialEq, Eq, Structural)]
pub struct GuildId(pub u64);

/// The identifier of a user.
#[derive(Clone, Copy, Debug, PartialEq, Eq, Structural)]
pub struct UserId(pub u64);

/// The kind of account that a token belongs to.
#[derive(Clone, Copy, Debug, PartialEq, Eq, Structural)]
pub enum LoginType {
    Bot,
    User,
}

/// A game that a user can be seen to play.
#[derive(Debug, PartialEq, Eq)]
pub struct Game {
    pub name: String,
}

impl Game {
    /// The game called `name`.
    pub fn playing(name: &str) -> (game: Game)
        ensures
            game.name@ == name@,
    {
        Game { name: name.to_owned() }
    }
}

/// Whether and how a user is seen to be there.
#[derive(Clone, Copy, Debug, PartialEq, Eq, Structural)]
pub enum OnlineStatus {
    DoNotDisturb,
    Idle,
    Invisible,
    Offline,
    Online,
}

impl OnlineStatus {
    /// The word that stands for the status in a message.
    pub open spec fn word(self) -> Seq<char> {
        match self {
            OnlineStatus::DoNotDisturb => "dnd"@,
            OnlineStatus::Idle => "idle"@,
            OnlineStatus::Invisible => "invisible"@,
            OnlineStatus::Offline => "offline"@,
            OnlineStatus::Online => "online"@,
        }
    }

    /// The word that stands for the status in a message.
    pub fn name(self) -> (name: &'static str)
        ensures
            name@ == self.word(),
    {
        match self {
            OnlineStatus::DoNotDisturb => "dnd",
            OnlineStatus::Idle => "idle",
            OnlineStatus::Invisible => "invisible",
            OnlineStatus::Offline => "offline",
            OnlineStatus::Online => "online",
        }
    }
}

/// The user whom a shard is connected for.
#[derive(Debug, PartialEq)]
pub struct CurrentUser {
    pub id: UserId,
}

/// What the gateway tells at the start of a session.
#[derive(Debug, PartialEq)]
pub struct Ready {
    pub session_id: String,
    pub user: CurrentUser,
    /// All that was told, as it was received.
    pub data: Value,
}

/// A session has started.
#[derive(Debug, PartialEq)]
pub struct ReadyEvent {
    pub ready: Ready,
}

/// A session goes on after a break.
#[derive(Debug, PartialEq)]
pub struct ResumedEvent {
    /// The time between two heartbeats, in milliseconds.
    pub heartbeat_interval: u64,
}

/// Someone joined, left or changed in a voice channel.
#[derive(Debug, PartialEq)]
pub struct VoiceStateUpdateEvent {
    pub guild_id: Option<GuildId>,
    pub voice_state: Value,
}

/// The voice server of a guild changed.
#[derive(Debug, PartialEq)]
pub struct VoiceServerUpdateEvent {
    pub guild_id: Option<GuildId>,
    pub endpoint: Option<String>,
    pub token: String,
}

/// Anything that happened and that a shard only hands on.
#[derive(Debug, PartialEq)]
pub struct UnknownEvent {
    pub kind: String,
    pub value: Value,
}

/// Something that happened.
#[derive(Debug, PartialEq)]
pub enum Event {
    Ready(ReadyEvent),
    Resumed(ResumedEvent),
    VoiceStateUpdate(VoiceStateUpdateEvent),
    VoiceServerUpdate(VoiceServerUpdateEvent),
    Unknown(UnknownEvent),
}

/// A message of the gateway.
#[derive(Debug, PartialEq)]
pub enum GatewayEvent {
    /// Something happened; with its place in the order of such messages.
    Dispatch(u64, Event),
    /// A heartbeat is asked for.
    Heartbeat(u64),
    /// The connection is to be made anew.
    Reconnect,
    /// The session is over.
    InvalidateSession,
    /// The greeting; with the time between two heartbeats, in milliseconds.
    Hello(u64),
    /// A heartbeat was received.
    HeartbeatAck,
}

} // verus!
