//! What holds of what the functions for messages, addresses and presences take and
//! give, call by call.

use serde_json::Value;
use vstd::prelude::*;
use vstd::utf8::is_ascii_chars;

use crate::constants::OpCode;
use crate::error::{Error, GatewayError};
use crate::json::{json_of, Json};
use crate::laws::addresses::{
    law_addresses_are_followed_by_the_version, law_addresses_are_safe_up_to_a_length,
};
use crate::laws::messages::{
    is_message, law_heartbeat_says_the_sequence, law_identification_says_what_connects,
    law_identification_says_who_connects, law_resume_says_where_to_go_on,
    law_status_update_says_each_part, law_sync_call_says_the_channel,
    law_sync_guild_says_each_guild, said,
};
use crate::laws::presence::same_but_for_presence;
use crate::model::{ChannelId, Game, GuildId, OnlineStatus};
use crate::payload::{
    heartbeat, resume, status_update, status_update_json, sync_call, sync_call_json, sync_guild,
};
use crate::prep::{
    build_gateway_url, checked_url, decimal, identify, identify_json, is_safe_address, parsed_url,
    thread_name, versioned_url,
};
use crate::shard::Shard;
use crate::status::{notices, GatewayStatus};

verus! {

/// `message` says how the user is seen: away or not as `afk` says, with the word
/// for `status`, and playing the game called `game`, or none.
pub open spec fn says_presence(
    message: Json,
    game: Option<Seq<char>>,
    status: OnlineStatus,
    afk: bool,
) -> bool {
    let parts = said(message)->Object_0;
    &&& is_message(message, 3, said(message))
    &&& said(message) is Object
    &&& parts.dom() == set!["since"@, "afk"@, "status"@, "game"@]
    &&& parts["since"@] == Json::Integer(0)
    &&& parts["afk"@] == Json::Bool(afk)
    &&& parts["status"@] == Json::Text(
        match status {
            OnlineStatus::DoNotDisturb => "dnd"@,
            OnlineStatus::Idle => "idle"@,
            OnlineStatus::Invisible => "invisible"@,
            OnlineStatus::Offline => "offline"@,
            OnlineStatus::Online => "online"@,
        },
    )
    &&& game is None ==> parts["game"@] == Json::Null
    &&& game matches Some(name) ==> {
        &&& parts["game"@] is Object
        &&& parts["game"@]->Object_0.dom() == set!["name"@]
        &&& parts["game"@]->Object_0["name"@] == Json::Text(name)
    }
}

/// `message` identifies the one whom `token` belongs to, as the shard that
/// `shard_info` says, on a machine that runs `os`.
pub open spec fn says_identity(
    message: Json,
    token: Seq<char>,
    shard_info: Option<[u8; 2]>,
    os: Seq<char>,
) -> bool {
    let parts = said(message)->Object_0;
    &&& is_message(message, 2, said(message))
    &&& said(message) is Object
    &&& parts["token"@] == Json::Text(token)
    &&& parts["v"@] == Json::Integer(6)
    &&& parts["large_threshold"@] == Json::Integer(250)
    &&& parts["properties"@] is Object
    &&& parts["properties"@]->Object_0["$os"@] == Json::Text(os)
    &&& shard_info is None ==> parts.dom()
        == set!["token"@, "v"@, "large_threshold"@, "properties"@]
    &&& shard_info matches Some(info) ==> {
        &&& parts.dom() == set!["token"@, "v"@, "large_threshold"@, "properties"@, "shard"@]
        &&& parts["shard"@] == Json::Array(
            seq![Json::Integer(info@[0] as int), Json::Integer(info@[1] as int)],
        )
    }
}

/// `message` is the wish to go on with the session `session_id` after the message
/// at place `sequence`.
pub open spec fn says_resume(
    message: Json,
    session_id: Seq<char>,
    sequence: u64,
    token: Seq<char>,
) -> bool {
    let parts = said(message)->Object_0;
    &&& is_message(message, 6, said(message))
    &&& said(message) is Object
    &&& parts.dom() == set!["session_id"@, "seq"@, "token"@]
    &&& parts["session_id"@] == Json::Text(session_id)
    &&& parts["seq"@] == Json::Integer(sequence as int)
    &&& parts["token"@] == Json::Text(token)
}

/// An identification says who connects.
pub(crate) proof fn lemma_identify_says_identity(
    token: Seq<char>,
    shard_info: Option<[u8; 2]>,
    os: Seq<char>,
)
    ensures
        says_identity(identify_json(token, shard_info, os), token, shard_info, os),
{
    law_identification_says_who_connects(token, shard_info, os);
    law_identification_says_what_connects(token, shard_info, os);
    if let Some(info) = shard_info {
        let place = said(identify_json(token, shard_info, os))->Object_0["shard"@]->Array_0;
        assert(place =~= seq![Json::Integer(info@[0] as int), Json::Integer(info@[1] as int)]);
    }
}

/// A message about a presence says that presence.
proof fn lemma_status_update_says_presence(
    game: Option<Seq<char>>,
    status: OnlineStatus,
    afk: bool,
)
    ensures
        says_presence(status_update_json(game, status, afk), game, status, afk),
{
    law_status_update_says_each_part(game, status, afk);
}

/// What [`heartbeat`] gives says the place that it takes.
pub proof fn law_call_of_heartbeat(sequence: u64, message: Value)
    requires
        call_ensures(heartbeat, (sequence,), message),
    ensures
        is_message(json_of(message), 1, Json::Integer(sequence as int)),
{
    law_heartbeat_says_the_sequence(sequence);
}

/// What [`sync_call`] gives says the channel that it takes.
pub proof fn law_call_of_sync_call(channel: ChannelId, message: Value)
    requires
        call_ensures(sync_call, (channel,), message),
    ensures
        is_message(json_of(message), 13, said(json_of(message))),
        said(json_of(message)) is Object,
        said(json_of(message))->Object_0.dom() == set!["channel_id"@],
        said(json_of(message))->Object_0["channel_id"@] == Json::Integer(channel.0 as int),
{
    law_sync_call_says_the_channel(channel);
}

/// What [`sync_guild`] gives says each guild that it takes, in their order.
pub proof fn law_call_of_sync_guild(guilds: &[GuildId], message: Value)
    requires
        call_ensures(sync_guild, (guilds,), message),
    ensures
        is_message(json_of(message), 12, said(json_of(message))),
        said(json_of(message)) is Array,
        said(json_of(message))->Array_0.len() == guilds@.len(),
        forall|i: int|
            0 <= i < guilds@.len() ==> #[trigger] said(json_of(message))->Array_0[i]
                == Json::Integer(guilds@[i].0 as int),
{
    law_sync_guild_says_each_guild(guilds@);
}

/// What [`status_update`] gives says each part of the presence that it takes.
pub proof fn law_call_of_status_update(
    game: &Option<Game>,
    status: OnlineStatus,
    afk: bool,
    message: Value,
)
    requires
        call_ensures(status_update, (game, status, afk), message),
    ensures
        game matches Some(game) ==> says_presence(
            json_of(message),
            Some(game.name@),
            status,
            afk,
        ),
        game is None ==> says_presence(json_of(message), None, status, afk),
{
    match game {
        Some(game) => {
            lemma_status_update_says_presence(Some(game.name@), status, afk);
        },
        None => {
            lemma_status_update_says_presence(None, status, afk);
        },
    }
}

/// What [`resume`] gives says the session, the place and the token that it takes.
pub proof fn law_call_of_resume(session_id: &str, sequence: u64, token: &str, message: Value)
    requires
        call_ensures(resume, (session_id, sequence, token), message),
    ensures
        says_resume(json_of(message), session_id@, sequence, token@),
{
    law_resume_says_where_to_go_on(session_id@, sequence, token@);
}

/// What [`identify`] gives says the token and the place among several shards that
/// it takes, and the operating system.
pub proof fn law_call_of_identify(
    token: &str,
    shard_info: Option<[u8; 2]>,
    os: &str,
    message: Value,
)
    requires
        call_ensures(identify, (token, shard_info, os), message),
    ensures
        says_identity(json_of(message), token@, shard_info, os@),
{
    lemma_identify_says_identity(token@, shard_info, os@);
}

/// What [`thread_name`] gives is made of the shard's number and the number of the
/// last shard.
pub proof fn law_call_of_thread_name(shard_info: Option<[u8; 2]>, name: String)
    requires
        call_ensures(thread_name, (shard_info,), name),
    ensures
        shard_info is None ==> name@ == "serenity keepalive [unsharded]"@,
        shard_info matches Some(info) ==> name@ == "serenity keepalive [shard "@ + decimal(
            info@[0] as nat,
        ) + "/"@ + decimal((info@[1] - 1) as nat) + "]"@,
{
}

/// What [`versioned_url`] gives is the address that it takes, followed by the
/// version.
pub proof fn law_call_of_versioned_url(base: &str, text: String)
    requires
        call_ensures(versioned_url, (base,), text),
    ensures
        text@ == base@ + "?v=6"@,
{
    law_addresses_are_followed_by_the_version(base@);
}

/// What [`is_safe_address`] gives is whether the address that it takes is not too
/// long for what it holds.
pub proof fn law_call_of_is_safe_address(base: &str, safe: bool)
    requires
        call_ensures(is_safe_address, (base,), safe),
    ensures
        safe <==> {
            ||| base@.len() <= 210
            ||| base@.len() <= 1923 && is_ascii_chars(base@)
            ||| base@.len() <= 0x7fff_fffb && is_ascii_chars(base@) && !base@.contains('%')
        },
{
    law_addresses_are_safe_up_to_a_length(base@);
}

/// What [`build_gateway_url`] gives is the URL that the address stands for with
/// the version, or the error that it stands for none.
pub proof fn law_call_of_build_gateway_url(base: &str, url: Result<String, Error>)
    requires
        call_ensures(build_gateway_url, (base,), url),
    ensures
        match url {
            Ok(url) => parsed_url(base@ + "?v=6"@) == Some(url@),
            Err(error) => parsed_url(base@ + "?v=6"@) is None && error == Error::Gateway(
                GatewayError::BuildingUrl,
            ),
        },
{
    law_addresses_are_followed_by_the_version(base@);
}

/// What [`checked_url`] gives is the URL that it takes, or an error if it takes
/// none.
pub proof fn law_call_of_checked_url(url: Option<String>, checked: Result<String, Error>)
    requires
        call_ensures(checked_url, (url,), checked),
    ensures
        checked is Ok <==> url is Some,
        url matches Some(url) ==> checked == Ok::<String, Error>(url),
        url is None ==> checked == Err::<String, Error>(Error::Gateway(GatewayError::BuildingUrl)),
{
}

/// The numbers of the messages and the words of the statuses are those of the
/// protocol.
pub proof fn law_calls_of_num_and_name(
    op: OpCode,
    num: u64,
    status: OnlineStatus,
    name: &'static str,
)
    requires
        call_ensures(OpCode::num, (op,), num),
        call_ensures(OnlineStatus::name, (status,), name),
    ensures
        num == match op {
            OpCode::Heartbeat => 1u64,
            OpCode::Identify => 2u64,
            OpCode::StatusUpdate => 3u64,
            OpCode::Resume => 6u64,
            OpCode::SyncGuild => 12u64,
            OpCode::SyncCall => 13u64,
        },
        name@ == match status {
            OnlineStatus::DoNotDisturb => "dnd"@,
            OnlineStatus::Idle => "idle"@,
            OnlineStatus::Invisible => "invisible"@,
            OnlineStatus::Offline => "offline"@,
            OnlineStatus::Online => "online"@,
        },
{
}

/// What [`Game::playing`] gives has the name that it takes.
pub proof fn law_call_of_playing(name: &str, game: Game)
    requires
        call_ensures(Game::playing, (name,), game),
    ensures
        game.name@ == name@,
{
}

/// [`Shard::shard_info`] gives the place that the shard was asked for with.
pub proof fn law_call_of_shard_info(shard: &Shard, shard_info: Option<[u8; 2]>)
    requires
        call_ensures(Shard::shard_info, (shard,), shard_info),
    ensures
        shard_info == shard@.shard_info,
{
}

/// [`Shard::set_afk`] sets what it takes, keeps all else, and has the presence
/// told as it then is.
pub proof fn law_call_of_set_afk(shard: &mut Shard, afk: bool, notice: GatewayStatus)
    requires
        call_ensures(Shard::set_afk, (shard, afk), notice),
    ensures
        final(shard)@.afk == afk,
        final(shard)@.game == old(shard)@.game,
        final(shard)@.status == old(shard)@.status,
        same_but_for_presence(old(shard)@, final(shard)@),
        notice matches GatewayStatus::SendMessage(message) && says_presence(
            json_of(message),
            old(shard)@.game,
            old(shard)@.status,
            afk,
        ),
{
    lemma_status_update_says_presence(old(shard)@.game, old(shard)@.status, afk);
}

/// [`Shard::set_game`] sets what it takes, keeps all else, and has the presence
/// told as it then is.
pub proof fn law_call_of_set_game(shard: &mut Shard, game: Option<Game>, notice: GatewayStatus)
    requires
        call_ensures(Shard::set_game, (shard, game), notice),
    ensures
        game is None ==> final(shard)@.game is None,
        game matches Some(game) ==> final(shard)@.game == Some(game.name@),
        final(shard)@.status == old(shard)@.status,
        final(shard)@.afk == old(shard)@.afk,
        same_but_for_presence(old(shard)@, final(shard)@),
        notice matches GatewayStatus::SendMessage(message) && says_presence(
            json_of(message),
            final(shard)@.game,
            old(shard)@.status,
            old(shard)@.afk,
        ),
{
    lemma_status_update_says_presence(final(shard)@.game, old(shard)@.status, old(shard)@.afk);
}

/// [`Shard::set_status`] sets what it takes, or `Invisible` for `Offline`, keeps
/// all else, and has the presence told as it then is.
pub proof fn law_call_of_set_status(
    shard: &mut Shard,
    status: OnlineStatus,
    notice: GatewayStatus,
)
    requires
        call_ensures(Shard::set_status, (shard, status), notice),
    ensures
        status != OnlineStatus::Offline ==> final(shard)@.status == status,
        status == OnlineStatus::Offline ==> final(shard)@.status == OnlineStatus::Invisible,
        final(shard)@.game == old(shard)@.game,
        final(shard)@.afk == old(shard)@.afk,
        same_but_for_presence(old(shard)@, final(shard)@),
        notice matches GatewayStatus::SendMessage(message) && says_presence(
            json_of(message),
            old(shard)@.game,
            final(shard)@.status,
            old(shard)@.afk,
        ),
{
    lemma_status_update_says_presence(old(shard)@.game, final(shard)@.status, old(shard)@.afk);
}

/// [`Shard::set_presence`] sets all that it takes, or `Invisible` for `Offline`,
/// keeps all else, and has the presence told as it then is.
pub proof fn law_call_of_set_presence(
    shard: &mut Shard,
    game: Option<Game>,
    status: OnlineStatus,
    afk: bool,
    notice: GatewayStatus,
)
    requires
        call_ensures(Shard::set_presence, (shard, game, status, afk), notice),
    ensures
        game is None ==> final(shard)@.game is None,
        game matches Some(game) ==> final(shard)@.game == Some(game.name@),
        status != OnlineStatus::Offline ==> final(shard)@.status == status,
        status == OnlineStatus::Offline ==> final(shard)@.status == OnlineStatus::Invisible,
        final(shard)@.afk == afk,
        same_but_for_presence(old(shard)@, final(shard)@),
        notice matches GatewayStatus::SendMessage(message) && says_presence(
            json_of(message),
            final(shard)@.game,
            final(shard)@.status,
            afk,
        ),
{
    lemma_status_update_says_presence(final(shard)@.game, final(shard)@.status, afk);
}

/// [`Shard::sync_calls`] has one wish sent for each channel, in their order,
/// whatever the shard knows.
pub proof fn law_call_of_sync_calls(
    shard: &Shard,
    channels: &[ChannelId],
    statuses: Vec<GatewayStatus>,
)
    requires
        call_ensures(Shard::sync_calls, (shard, channels), statuses),
    ensures
        statuses@.len() == channels@.len(),
        forall|i: int|
            0 <= i < channels@.len() ==> {
                &&& #[trigger] statuses@[i] matches GatewayStatus::SendMessage(message)
                &&& is_message(json_of(message), 13, said(json_of(message)))
                &&& said(json_of(message)) is Object
                &&& said(json_of(message))->Object_0.dom() == set!["channel_id"@]
                &&& said(json_of(message))->Object_0["channel_id"@] == Json::Integer(
                    channels@[i].0 as int,
                )
            },
{
    assert(notices(statuses@).len() == channels@.len());
    assert forall|i: int| 0 <= i < channels@.len() implies {
        &&& #[trigger] statuses@[i] matches GatewayStatus::SendMessage(message)
        &&& json_of(message) == sync_call_json(channels@[i])
    } by {
        assert(notices(statuses@)[i] == statuses@[i]@);
    }
    assert forall|i: int| 0 <= i < channels@.len() implies {
        &&& #[trigger] statuses@[i] matches GatewayStatus::SendMessage(message)
        &&& is_message(json_of(message), 13, said(json_of(message)))
        &&& said(json_of(message)) is Object
        &&& said(json_of(message))->Object_0.dom() == set!["channel_id"@]
        &&& said(json_of(message))->Object_0["channel_id"@] == Json::Integer(channels@[i].0 as int)
    } by {
        law_sync_call_says_the_channel(channels@[i]);
    }
}

/// [`Shard::sync_guilds`] has one wish sent that says each guild, in their order,
/// whatever the shard knows.
pub proof fn law_call_of_sync_guilds(shard: &Shard, guilds: &[GuildId], notice: GatewayStatus)
    requires
        call_ensures(Shard::sync_guilds, (shard, guilds), notice),
    ensures
        notice matches GatewayStatus::SendMessage(message) && {
            &&& is_message(json_of(message), 12, said(json_of(message)))
            &&& said(json_of(message)) is Array
            &&& said(json_of(message))->Array_0.len() == guilds@.len()
            &&& forall|i: int|
                0 <= i < guilds@.len() ==> #[trigger] said(json_of(message))->Array_0[i]
                    == Json::Integer(guilds@[i].0 as int)
        },
{
    law_sync_guild_says_each_guild(guilds@);
}

} // verus!
