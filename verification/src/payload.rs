//! The messages that a shard sends to the gateway.

use serde_json::builder::{ArrayBuilder, ObjectBuilder};
use serde_json::Value;
use vstd::prelude::*;

use crate::constants::OpCode;
use crate::json::{
    elements, insert_array, insert_bool, insert_null, insert_object, insert_str, insert_u64,
    json_of, members, push_u64, Json,
};
use crate::model::{ChannelId, Game, GuildId, OnlineStatus};

verus! {

/// The message of kind `op` that says `d`.
pub open spec fn message_json(op: OpCode, d: Json) -> Json {
    Json::Object(map!["op"@ => Json::Integer(op.code() as int), "d"@ => d])
}

/// The heartbeat after the message at place `sequence`.
pub open spec fn heartbeat_json(sequence: u64) -> Json {
    message_json(OpCode::Heartbeat, Json::Integer(sequence as int))
}

/// The wish to be told of the call in `channel`.
pub open spec fn sync_call_json(channel: ChannelId) -> Json {
    message_json(
        OpCode::SyncCall,
        Json::Object(map!["channel_id"@ => Json::Integer(channel.0 as int)]),
    )
}

/// The wish to be told of `guilds`.
pub open spec fn sync_guild_json(guilds: Seq<GuildId>) -> Json {
    message_json(
        OpCode::SyncGuild,
        Json::Array(guilds.map_values(|guild: GuildId| Json::Integer(guild.0 as int))),
    )
}

/// A game by its name, or that there is none.
pub open spec fn game_json(game: Option<Seq<char>>) -> Json {
    match game {
        Some(name) => Json::Object(map!["name"@ => Json::Text(name)]),
        None => Json::Null,
    }
}

/// How the user is seen, part by part.
pub open spec fn presence_members(
    game: Option<Seq<char>>,
    status: OnlineStatus,
    afk: bool,
) -> Map<Seq<char>, Json> {
    map![
        "since"@ => Json::Integer(0),
        "afk"@ => Json::Bool(afk),
        "status"@ => Json::Text(status.word()),
        "game"@ => game_json(game),
    ]
}

/// How the user is to be seen from now on.
pub open spec fn status_update_json(
    game: Option<Seq<char>>,
    status: OnlineStatus,
    afk: bool,
) -> Json {
    message_json(OpCode::StatusUpdate, Json::Object(presence_members(game, status, afk)))
}

/// The wish to go on with the session `session_id` after the message at place
/// `sequence`.
pub open spec fn resume_json(session_id: Seq<char>, sequence: u64, token: Seq<char>) -> Json {
    message_json(
        OpCode::Resume,
        Json::Object(
            map![
                "session_id"@ => Json::Text(session_id),
                "seq"@ => Json::Integer(sequence as int),
                "token"@ => Json::Text(token),
            ],
        ),
    )
}

/// The name of a game, if there is one.
pub open spec fn game_name(game: Option<Game>) -> Option<Seq<char>> {
    match game {
        Some(game) => Some(game.name@),
        None => None,
    }
}

/// The two keys of a message are different.
proof fn lemma_keys_differ()
    ensures
        "op"@ != "d"@,
{
    reveal_strlit("op");
    reveal_strlit("d");
    assert("op"@.len() != "d"@.len());
}

/// Builds the heartbeat after the message at place `sequence`.
pub fn heartbeat(sequence: u64) -> (message: Value)
    ensures
        json_of(message) == heartbeat_json(sequence),
{
    let object = insert_u64(ObjectBuilder::new(), "d", sequence);
    let message = insert_u64(object, "op", OpCode::Heartbeat.num()).build();
    assert(json_of(message)->Object_0 =~= heartbeat_json(sequence)->Object_0) by {
        lemma_keys_differ();
    }
    message
}

/// Builds the wish to be told of the call in `channel`.
pub fn sync_call(channel: ChannelId) -> (message: Value)
    ensures
        json_of(message) == sync_call_json(channel),
{
    let object = insert_u64(ObjectBuilder::new(), "op", OpCode::SyncCall.num());
    let d = |d: ObjectBuilder| -> (filled: ObjectBuilder)
        ensures
            members(filled) == members(d).insert("channel_id"@, Json::Integer(channel.0 as int)),
        { insert_u64(d, "channel_id", channel.0) };
    insert_object(object, "d", d).build()
}

/// Adds the identifiers of `guilds` to `array`, in their order.
fn push_guilds(array: ArrayBuilder, guilds: &[GuildId]) -> (filled: ArrayBuilder)
    ensures
        elements(filled) == elements(array) + guilds@.map_values(
            |guild: GuildId| Json::Integer(guild.0 as int),
        ),
{
    let ghost ids = guilds@.map_values(|guild: GuildId| Json::Integer(guild.0 as int));
    let ghost before = elements(array);
    let mut filled = array;
    let mut next: usize = 0;
    assert(before + ids.take(0) =~= before);
    while next < guilds.len()
        invariant
            next <= guilds.len(),
            ids == guilds@.map_values(|guild: GuildId| Json::Integer(guild.0 as int)),
            elements(filled) == before + ids.take(next as int),
        decreases guilds.len() - next,
    {
        filled = push_u64(filled, guilds[next].0);
        assert(ids.take(next + 1) =~= ids.take(next as int).push(ids[next as int]));
        assert(before + ids.take(next + 1) =~= (before + ids.take(next as int)).push(
            ids[next as int],
        ));
        next = next + 1;
    }
    assert(ids.take(next as int) =~= ids);
    filled
}

/// Builds the wish to be told of `guilds`.
pub fn sync_guild(guilds: &[GuildId]) -> (message: Value)
    ensures
        json_of(message) == sync_guild_json(guilds@),
{
    let object = insert_u64(ObjectBuilder::new(), "op", OpCode::SyncGuild.num());
    let d = |d: ArrayBuilder| -> (filled: ArrayBuilder)
        ensures
            elements(filled) == elements(d) + guilds@.map_values(
                |guild: GuildId| Json::Integer(guild.0 as int),
            ),
        { push_guilds(d, guilds) };
    let message = insert_array(object, "d", d).build();
    proof {
        let ids = guilds@.map_values(|guild: GuildId| Json::Integer(guild.0 as int));
        assert(Seq::<Json>::empty() + ids =~= ids);
    }
    message
}

/// Adds `game`, or that there is none, to `object`.
fn insert_game(object: ObjectBuilder, game: &Option<Game>) -> (filled: ObjectBuilder)
    ensures
        members(filled) == members(object).insert("game"@, game_json(game_name(*game))),
{
    match game {
        Some(game) => {
            let fill = |o: ObjectBuilder| -> (filled: ObjectBuilder)
                ensures
                    members(filled) == members(o).insert("name"@, Json::Text(game.name@)),
                { insert_str(o, "name", game.name.as_str()) };
            insert_object(object, "game", fill)
        },
        None => insert_null(object, "game"),
    }
}

/// Builds the message that says how the user is to be seen from now on.
pub fn status_update(game: &Option<Game>, status: OnlineStatus, afk: bool) -> (message: Value)
    ensures
        json_of(message) == status_update_json(game_name(*game), status, afk),
{
    let object = insert_u64(ObjectBuilder::new(), "op", OpCode::StatusUpdate.num());
    let d = |d: ObjectBuilder| -> (filled: ObjectBuilder)
        ensures
            members(filled) == members(d).insert("since"@, Json::Integer(0)).insert(
                "afk"@,
                Json::Bool(afk),
            ).insert("status"@, Json::Text(status.word())).insert(
                "game"@,
                game_json(game_name(*game)),
            ),
        {
            let d = insert_bool(insert_u64(d, "since", 0), "afk", afk);
            insert_game(insert_str(d, "status", status.name()), game)
        };
    insert_object(object, "d", d).build()
}

/// Builds the wish to go on with the session `session_id` after the message at
/// place `sequence`.
pub fn resume(session_id: &str, sequence: u64, token: &str) -> (message: Value)
    ensures
        json_of(message) == resume_json(session_id@, sequence, token@),
{
    let d = |d: ObjectBuilder| -> (filled: ObjectBuilder)
        ensures
            members(filled) == members(d).insert("session_id"@, Json::Text(session_id@)).insert(
                "seq"@,
                Json::Integer(sequence as int),
            ).insert("token"@, Json::Text(token@)),
        {
            let d = insert_u64(insert_str(d, "session_id", session_id), "seq", sequence);
            insert_str(d, "token", token)
        };
    let object = insert_object(ObjectBuilder::new(), "d", d);
    let message = insert_u64(object, "op", OpCode::Resume.num()).build();
    assert(json_of(message)->Object_0 =~= resume_json(
        session_id@,
        sequence,
        token@,
    )->Object_0) by {
        lemma_keys_differ();
    }
    message
}

} // verus!
