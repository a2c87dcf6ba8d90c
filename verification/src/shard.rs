//! The state of a shard, and what it does on its own account.

use vstd::prelude::*;

use crate::model::{ChannelId, Game, GuildId, LoginType, OnlineStatus};
use crate::payload::{
    game_name, status_update, status_update_json, sync_call, sync_call_json, sync_guild,
    sync_guild_json,
};
use crate::prep::{has_shards, safe_address};
use crate::status::{notices, GatewayStatus, StatusView};

verus! {

/// How the user is seen: the game that is played, the status, and whether the
/// user is away from the keyboard.
type CurrentPresence = (Option<Game>, OnlineStatus, bool);

/// A shard of a gateway connection: what it says of its user, and what it needs
/// to identify, to resume its session and to connect anew.
#[derive(Debug)]
pub struct Shard {
    pub(crate) current_presence: CurrentPresence,
    pub(crate) last_sequence: u64,
    pub(crate) login_type: LoginType,
    pub(crate) session_id: Option<String>,
    pub(crate) shard_info: Option<[u8; 2]>,
    pub(crate) token: String,
    pub(crate) ws_url: String,
    pub(crate) os: String,
}

/// What a shard knows.
#[verifier::ext_equal]
pub struct ShardView {
    /// The name of the game that the user is seen to play.
    pub game: Option<Seq<char>>,
    pub status: OnlineStatus,
    pub afk: bool,
    /// The place of the message after which a session is resumed.
    pub last_sequence: u64,
    pub login_type: LoginType,
    /// The session, unless it is known to be over.
    pub session_id: Option<Seq<char>>,
    /// The number of the shard, and of how many it is one.
    pub shard_info: Option<[u8; 2]>,
    pub token: Seq<char>,
    /// The address of the gateway.
    pub ws_url: Seq<char>,
    /// The operating system that is told on identification.
    pub os: Seq<char>,
}

/// The status that is shown for `status`: nobody can be seen to be offline
/// while connected, and is invisible instead.
pub open spec fn shown(status: OnlineStatus) -> OnlineStatus {
    if status == OnlineStatus::Offline {
        OnlineStatus::Invisible
    } else {
        status
    }
}

impl ShardView {
    /// What holds of every shard: its user is not shown to be offline, if it is
    /// one of several shards, there are some, and its address can be made a URL.
    pub open spec fn valid(self) -> bool {
        &&& self.status != OnlineStatus::Offline
        &&& has_shards(self.shard_info)
        &&& safe_address(self.ws_url)
    }

    /// The same shard, whose user is away from the keyboard or not.
    pub open spec fn with_afk(self, afk: bool) -> ShardView {
        ShardView { afk, ..self }
    }

    /// The same shard, whose user is seen to play `game`.
    pub open spec fn with_game(self, game: Option<Seq<char>>) -> ShardView {
        ShardView { game, ..self }
    }

    /// The same shard, whose user is seen with `status`.
    pub open spec fn with_status(self, status: OnlineStatus) -> ShardView {
        ShardView { status: shown(status), ..self }
    }

    /// The same shard, whose user is seen in another way.
    pub open spec fn with_presence(
        self,
        game: Option<Seq<char>>,
        status: OnlineStatus,
        afk: bool,
    ) -> ShardView {
        ShardView { game, status: shown(status), afk, ..self }
    }

    /// The notice that has the gateway told how the user is seen.
    pub open spec fn presence_notice(self) -> StatusView {
        StatusView::SendMessage(status_update_json(self.game, self.status, self.afk))
    }
}

impl View for Shard {
    type V = ShardView;

    open(crate) spec fn view(&self) -> ShardView {
        ShardView {
            game: game_name(self.current_presence.0),
            status: self.current_presence.1,
            afk: self.current_presence.2,
            last_sequence: self.last_sequence,
            login_type: self.login_type,
            session_id: match self.session_id {
                Some(session_id) => Some(session_id@),
                None => None,
            },
            shard_info: self.shard_info,
            token: self.token@,
            ws_url: self.ws_url@,
            os: self.os@,
        }
    }
}

/// The status that is shown for `status`.
fn shown_status(status: OnlineStatus) -> (r: OnlineStatus)
    ensures
        r == shown(status),
{
    match status {
        OnlineStatus::Offline => OnlineStatus::Invisible,
        other => other,
    }
}

impl Shard {
    #[verifier::type_invariant]
    pub(crate) open spec fn inv(self) -> bool {
        self@.valid()
    }

    /// The number of the shard and of how many it is one, if it is one of
    /// several.
    pub fn shard_info(&self) -> (shard_info: Option<[u8; 2]>)
        ensures
            shard_info == self@.shard_info,
    {
        self.shard_info
    }

    /// Sets whether the user is away from the keyboard, and gives the notice to
    /// send. How the user is seen otherwise stays.
    #[must_use]
    pub fn set_afk(&mut self, afk: bool) -> (notice: GatewayStatus)
        ensures
            final(self)@ == old(self)@.with_afk(afk),
            final(self)@.valid(),
            notice@ == final(self)@.presence_notice(),
    {
        proof {
            use_type_invariant(&*self);
        }
        self.current_presence.2 = afk;
        self.update_presence()
    }

    /// Sets the game that the user is seen to play, if any, and gives the notice
    /// to send. How the user is seen otherwise stays.
    #[must_use]
    pub fn set_game(&mut self, game: Option<Game>) -> (notice: GatewayStatus)
        ensures
            final(self)@ == old(self)@.with_game(game_name(game)),
            final(self)@.valid(),
            notice@ == final(self)@.presence_notice(),
    {
        proof {
            use_type_invariant(&*self);
        }
        self.current_presence.0 = game;
        self.update_presence()
    }

    /// Sets the status of the user, and gives the notice to send. `Offline` is
    /// shown as `Invisible`. How the user is seen otherwise stays.
    #[must_use]
    pub fn set_status(&mut self, online_status: OnlineStatus) -> (notice: GatewayStatus)
        ensures
            final(self)@ == old(self)@.with_status(online_status),
            final(self)@.valid(),
            notice@ == final(self)@.presence_notice(),
    {
        proof {
            use_type_invariant(&*self);
        }
        self.current_presence.1 = shown_status(online_status);
        self.update_presence()
    }

    /// Sets all of how the user is seen, and gives the notice to send.
    /// `Offline` is shown as `Invisible`.
    #[must_use]
    pub fn set_presence(&mut self, game: Option<Game>, status: OnlineStatus, afk: bool) -> (notice:
        GatewayStatus)
        ensures
            final(self)@ == old(self)@.with_presence(game_name(game), status, afk),
            final(self)@.valid(),
            notice@ == final(self)@.presence_notice(),
    {
        proof {
            use_type_invariant(&*self);
        }
        self.current_presence = (game, shown_status(status), afk);
        self.update_presence()
    }

    /// Asks to be told of the calls in `channels`: the notices to send, one for
    /// each channel, in their order.
    #[must_use]
    pub fn sync_calls(&self, channels: &[ChannelId]) -> (statuses: Vec<GatewayStatus>)
        ensures
            notices(statuses@) == channels@.map_values(
                |channel: ChannelId| StatusView::SendMessage(sync_call_json(channel)),
            ),
    {
        let mut statuses: Vec<GatewayStatus> = Vec::new();
        let mut next: usize = 0;
        while next < channels.len()
            invariant
                next <= channels.len(),
                statuses.len() == next,
                forall|i: int|
                    0 <= i < next ==> (#[trigger] statuses@[i])@ == StatusView::SendMessage(
                        sync_call_json(channels@[i]),
                    ),
            decreases channels.len() - next,
        {
            statuses.push(GatewayStatus::SendMessage(sync_call(channels[next])));
            next = next + 1;
        }
        statuses
    }

    /// Asks to be told of the guilds with `guild_ids`: the one notice to send.
    #[must_use]
    pub fn sync_guilds(&self, guild_ids: &[GuildId]) -> (notice: GatewayStatus)
        ensures
            notice@ == StatusView::SendMessage(sync_guild_json(guild_ids@)),
    {
        GatewayStatus::SendMessage(sync_guild(guild_ids))
    }

    /// The notice that has the gateway told how the user is seen.
    fn update_presence(&self) -> (notice: GatewayStatus)
        ensures
            notice@ == self@.presence_notice(),
    {
        GatewayStatus::SendMessage(
            status_update(
                &self.current_presence.0,
                self.current_presence.1,
                self.current_presence.2,
            ),
        )
    }
}

} // verus!
