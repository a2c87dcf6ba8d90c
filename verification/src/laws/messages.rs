//! What holds of the messages that a shard sends, read member by member.

use vstd::prelude::*;

use crate::json::Json;
use crate::model::{ChannelId, GuildId, OnlineStatus};
use crate::payload::{
    heartbeat_json, resume_json, status_update_json, sync_call_json, sync_guild_json,
};
use crate::prep::identify_json;

verus! {

/// `message` is an object of two members: "op", the number `op`, and "d", which
/// is `d`.
pub open spec fn is_message(message: Json, op: int, d: Json) -> bool {
    &&& message is Object
    &&& message->Object_0.dom() == set!["op"@, "d"@]
    &&& message->Object_0["op"@] == Json::Integer(op)
    &&& message->Object_0["d"@] == d
}

/// What `message` says under "d".
pub open spec fn said(message: Json) -> Json {
    message->Object_0["d"@]
}

/// The two keys of a message are different.
proof fn lemma_keys_differ()
    ensures
        "op"@ != "d"@,
{
    reveal_strlit("op");
    reveal_strlit("d");
    assert("op"@.len() != "d"@.len());
}

/// A heartbeat is a message with op code 1 that says the place of the last message.
pub proof fn law_heartbeat_says_the_sequence(sequence: u64)
    ensures
        is_message(heartbeat_json(sequence), 1, Json::Integer(sequence as int)),
{
    lemma_keys_differ();
    assert(heartbeat_json(sequence)->Object_0.dom() =~= set!["op"@, "d"@]);
}

/// The wish to be told of a call is a message with op code 13 that says the channel
/// and nothing else.
pub proof fn law_sync_call_says_the_channel(channel: ChannelId)
    ensures
        ({
            let d = said(sync_call_json(channel));
            &&& is_message(sync_call_json(channel), 13, d)
            &&& d is Object
            &&& d->Object_0.dom() == set!["channel_id"@]
            &&& d->Object_0["channel_id"@] == Json::Integer(channel.0 as int)
        }),
{
    lemma_keys_differ();
    assert(sync_call_json(channel)->Object_0.dom() =~= set!["op"@, "d"@]);
    assert(said(sync_call_json(channel))->Object_0.dom() =~= set!["channel_id"@]);
}

/// The wish to be told of guilds is a message with op code 12 that says each of them,
/// in their order.
pub proof fn law_sync_guild_says_each_guild(guilds: Seq<GuildId>)
    ensures
        ({
            let d = said(sync_guild_json(guilds));
            &&& is_message(sync_guild_json(guilds), 12, d)
            &&& d is Array
            &&& d->Array_0.len() == guilds.len()
            &&& forall|i: int|
                0 <= i < guilds.len() ==> #[trigger] d->Array_0[i] == Json::Integer(
                    guilds[i].0 as int,
                )
        }),
{
    lemma_keys_differ();
    assert(sync_guild_json(guilds)->Object_0.dom() =~= set!["op"@, "d"@]);
}

/// The four keys of a presence are different.
proof fn lemma_presence_keys_differ()
    ensures
        "since"@.len() == 5,
        "afk"@.len() == 3,
        "status"@.len() == 6,
        "game"@.len() == 4,
{
    reveal_strlit("since");
    reveal_strlit("afk");
    reveal_strlit("status");
    reveal_strlit("game");
}

/// The message about a presence is one with op code 3 that says, whatever the other
/// parts are: under "afk" whether the user is away, under "status" the word for
/// the status, under "game" the name of the game or null, and under "since" 0.
pub proof fn law_status_update_says_each_part(
    game: Option<Seq<char>>,
    status: OnlineStatus,
    afk: bool,
)
    ensures
        ({
            let d = said(status_update_json(game, status, afk));
            let parts = d->Object_0;
            &&& is_message(status_update_json(game, status, afk), 3, d)
            &&& d is Object
            &&& parts.dom() == set!["since"@, "afk"@, "status"@, "game"@]
            &&& parts["since"@] == Json::Integer(0)
            &&& parts["afk"@] == Json::Bool(afk)
            &&& parts["status"@] == Json::Text(
                match status {
                    OnlineStatus::DoNotDisturb => "dnd"@,
                    OnlineStatus::Idle => "idle"@,
                    OnlineStatus::Invisible => "invisible"@,
                    OnlineStatus::Offline => "offline"@,
                    OnlineStatus::Online => "online"@,
                },
            )
            &&& game is None ==> parts["game"@] == Json::Null
            &&& game matches Some(name) ==> {
                &&& parts["game"@] is Object
                &&& parts["game"@]->Object_0.dom() == set!["name"@]
                &&& parts["game"@]->Object_0["name"@] == Json::Text(name)
            }
        }),
{
    lemma_keys_differ();
    lemma_presence_keys_differ();
    let message = status_update_json(game, status, afk);
    assert(message->Object_0.dom() =~= set!["op"@, "d"@]);
    assert(said(message)->Object_0.dom() =~= set!["since"@, "afk"@, "status"@, "game"@]);
    if game is Some {
        assert(said(message)->Object_0["game"@]->Object_0.dom() =~= set!["name"@]);
    }
}

/// The wish to resume is a message with op code 6 that says the session, the place of
/// the last message and the token, and nothing else.
pub proof fn law_resume_says_where_to_go_on(session_id: Seq<char>, sequence: u64, token: Seq<char>)
    ensures
        ({
            let d = said(resume_json(session_id, sequence, token));
            let parts = d->Object_0;
            &&& is_message(resume_json(session_id, sequence, token), 6, d)
            &&& d is Object
            &&& parts.dom() == set!["session_id"@, "seq"@, "token"@]
            &&& parts["session_id"@] == Json::Text(session_id)
            &&& parts["seq"@] == Json::Integer(sequence as int)
            &&& parts["token"@] == Json::Text(token)
        }),
{
    lemma_keys_differ();
    reveal_strlit("session_id");
    reveal_strlit("seq");
    reveal_strlit("token");
    assert("session_id"@.len() == 10 && "seq"@.len() == 3 && "token"@.len() == 5);
    let message = resume_json(session_id, sequence, token);
    assert(message->Object_0.dom() =~= set!["op"@, "d"@]);
    assert(said(message)->Object_0.dom() =~= set!["session_id"@, "seq"@, "token"@]);
}

/// The keys of an identification are different.
proof fn lemma_identity_keys_differ()
    ensures
        "large_threshold"@.len() == 15,
        "properties"@.len() == 10,
        "token"@.len() == 5,
        "v"@.len() == 1,
        "shard"@.len() == 5,
        "token"@ != "shard"@,
{
    reveal_strlit("large_threshold");
    reveal_strlit("properties");
    reveal_strlit("token");
    reveal_strlit("v");
    reveal_strlit("shard");
    assert("token"@[0] == 't' && "shard"@[0] == 's');
}

/// An identification is a message with op code 2 that says, whatever the rest is: the
/// token, the version 6, the threshold 250, and, for one of several shards and
/// for no other, its number and of how many it is one, under "shard".
pub proof fn law_identification_says_who_connects(
    token: Seq<char>,
    shard_info: Option<[u8; 2]>,
    os: Seq<char>,
)
    ensures
        ({
            let d = said(identify_json(token, shard_info, os));
            let parts = d->Object_0;
            &&& is_message(identify_json(token, shard_info, os), 2, d)
            &&& d is Object
            &&& parts["token"@] == Json::Text(token)
            &&& parts["v"@] == Json::Integer(6)
            &&& parts["large_threshold"@] == Json::Integer(250)
            &&& shard_info is None ==> parts.dom()
                == set!["token"@, "v"@, "large_threshold"@, "properties"@]
            &&& shard_info matches Some(info) ==> {
                &&& parts.dom()
                    == set!["token"@, "v"@, "large_threshold"@, "properties"@, "shard"@]
                &&& parts["shard"@] is Array
                &&& parts["shard"@]->Array_0.len() == 2
                &&& parts["shard"@]->Array_0[0] == Json::Integer(info@[0] as int)
                &&& parts["shard"@]->Array_0[1] == Json::Integer(info@[1] as int)
            }
        }),
{
    lemma_keys_differ();
    lemma_identity_keys_differ();
    let message = identify_json(token, shard_info, os);
    assert(message->Object_0.dom() =~= set!["op"@, "d"@]);
    if shard_info is None {
        assert(said(message)->Object_0.dom()
            =~= set!["token"@, "v"@, "large_threshold"@, "properties"@]);
    } else {
        assert(said(message)->Object_0.dom()
            =~= set!["token"@, "v"@, "large_threshold"@, "properties"@, "shard"@]);
    }
}

/// An identification says, whatever the rest is, on which operating system the
/// program runs and which program it is.
pub proof fn law_identification_says_what_connects(
    token: Seq<char>,
    shard_info: Option<[u8; 2]>,
    os: Seq<char>,
)
    ensures
        ({
            let properties = said(identify_json(token, shard_info, os))->Object_0["properties"@];
            let parts = properties->Object_0;
            &&& properties is Object
            &&& parts.dom()
                == set!["$os"@, "$browser"@, "$device"@, "$referrer"@, "$referring_domain"@]
            &&& parts["$os"@] == Json::Text(os)
            &&& parts["$browser"@] == Json::Text(
                "Feature-full and ergonomic discord rust library"@,
            )
            &&& parts["$device"@] == Json::Text("serenity"@)
            &&& parts["$referrer"@] == Json::Text(""@)
            &&& parts["$referring_domain"@] == Json::Text(""@)
        }),
{
    lemma_keys_differ();
    lemma_identity_keys_differ();
    reveal_strlit("$os");
    reveal_strlit("$browser");
    reveal_strlit("$device");
    reveal_strlit("$referrer");
    reveal_strlit("$referring_domain");
    assert("$os"@.len() == 3 && "$browser"@.len() == 8 && "$device"@.len() == 7 && "$referrer"@.len()
        == 9 && "$referring_domain"@.len() == 17);
    let properties = said(identify_json(token, shard_info, os))->Object_0["properties"@];
    assert(properties->Object_0.dom()
        =~= set!["$os"@, "$browser"@, "$device"@, "$referrer"@, "$referring_domain"@]);
}

/// Two identifications are the same only for the same token, the same shard of
/// as many, and the same operating system.
pub proof fn law_identifications_are_told_apart(
    token: Seq<char>,
    shard_info: Option<[u8; 2]>,
    os: Seq<char>,
    other_token: Seq<char>,
    other_info: Option<[u8; 2]>,
    other_os: Seq<char>,
)
    requires
        identify_json(token, shard_info, os) == identify_json(other_token, other_info, other_os),
    ensures
        token == other_token,
        shard_info == other_info,
        os == other_os,
{
    law_identification_says_who_connects(token, shard_info, os);
    law_identification_says_who_connects(other_token, other_info, other_os);
    law_identification_says_what_connects(token, shard_info, os);
    law_identification_says_what_connects(other_token, other_info, other_os);
    lemma_identity_keys_differ();
    let parts = said(identify_json(token, shard_info, os))->Object_0;
    if shard_info is None || other_info is None {
        assert(parts.dom().contains("shard"@) == shard_info is Some);
        assert(parts.dom().contains("shard"@) == other_info is Some);
    } else {
        assert(parts["shard"@]->Array_0[0] == Json::Integer(shard_info->0@[0] as int));
        assert(parts["shard"@]->Array_0[1] == Json::Integer(shard_info->0@[1] as int));
        assert(shard_info->0 =~= other_info->0);
    }
}

} // verus!
