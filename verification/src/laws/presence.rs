//! What holds of how the user of a shard is seen.

use vstd::prelude::*;

use crate::constants::OpCode;
use crate::json::Json;
use crate::laws::messages::{is_message, law_status_update_says_each_part, said};
use crate::model::OnlineStatus;
use crate::payload::{game_json, message_json, presence_members};
use crate::prep::safe_address;
use crate::shard::ShardView;

verus! {

/// Each of the setters for one part of the presence leaves all else that the
/// shard knows as it was: to set the part back brings the whole shard back.
pub proof fn law_setters_keep_the_rest(
    shard: ShardView,
    game: Option<Seq<char>>,
    status: OnlineStatus,
    afk: bool,
)
    requires
        shard.valid(),
    ensures
        shard.with_afk(afk).with_afk(shard.afk) == shard,
        shard.with_game(game).with_game(shard.game) == shard,
        shard.with_status(status).with_status(shard.status) == shard,
{
}

/// `after` knows what `before` knows, but for how the user is seen.
pub open spec fn same_but_for_presence(before: ShardView, after: ShardView) -> bool {
    &&& after.last_sequence == before.last_sequence
    &&& after.login_type == before.login_type
    &&& after.session_id == before.session_id
    &&& after.shard_info == before.shard_info
    &&& after.token == before.token
    &&& after.ws_url == before.ws_url
    &&& after.os == before.os
}

/// To set whether the user is away sets that, and that alone, whatever the rest
/// of the presence is.
pub proof fn law_afk_is_set(shard: ShardView, afk: bool)
    ensures
        shard.with_afk(afk).afk == afk,
        shard.with_afk(afk).game == shard.game,
        shard.with_afk(afk).status == shard.status,
        same_but_for_presence(shard, shard.with_afk(afk)),
{
}

/// To set the game sets that, and that alone, whatever the rest of the presence
/// is.
pub proof fn law_game_is_set(shard: ShardView, game: Option<Seq<char>>)
    ensures
        shard.with_game(game).game == game,
        shard.with_game(game).status == shard.status,
        shard.with_game(game).afk == shard.afk,
        same_but_for_presence(shard, shard.with_game(game)),
{
}

/// To set the status sets that, and that alone, whatever the rest of the presence
/// is; to be offline is to be invisible.
pub proof fn law_status_is_set(shard: ShardView, status: OnlineStatus)
    ensures
        status != OnlineStatus::Offline ==> shard.with_status(status).status == status,
        shard.with_status(OnlineStatus::Offline).status == OnlineStatus::Invisible,
        shard.with_status(status).game == shard.game,
        shard.with_status(status).afk == shard.afk,
        same_but_for_presence(shard, shard.with_status(status)),
{
}

/// To set the presence sets each of its parts, and these alone, whatever the
/// presence was; to be offline is to be invisible.
pub proof fn law_presence_is_set(
    shard: ShardView,
    game: Option<Seq<char>>,
    status: OnlineStatus,
    afk: bool,
)
    ensures
        shard.with_presence(game, status, afk).game == game,
        shard.with_presence(game, status, afk).afk == afk,
        status != OnlineStatus::Offline ==> shard.with_presence(game, status, afk).status
            == status,
        shard.with_presence(game, OnlineStatus::Offline, afk).status == OnlineStatus::Invisible,
        same_but_for_presence(shard, shard.with_presence(game, status, afk)),
{
}

/// The notice about the presence is a message with op code 3 that says each part
/// of it as the shard knows it, whatever the other parts are.
pub proof fn law_presence_notice_says_each_part(shard: ShardView)
    ensures
        ({
            let message = shard.presence_notice()->SendMessage_0;
            let parts = said(message)->Object_0;
            &&& shard.presence_notice() is SendMessage
            &&& is_message(message, 3, said(message))
            &&& said(message) is Object
            &&& parts.dom() == set!["since"@, "afk"@, "status"@, "game"@]
            &&& parts["since"@] == Json::Integer(0)
            &&& parts["afk"@] == Json::Bool(shard.afk)
            &&& parts["status"@] == Json::Text(
                match shard.status {
                    OnlineStatus::DoNotDisturb => "dnd"@,
                    OnlineStatus::Idle => "idle"@,
                    OnlineStatus::Invisible => "invisible"@,
                    OnlineStatus::Offline => "offline"@,
                    OnlineStatus::Online => "online"@,
                },
            )
            &&& shard.game is None ==> parts["game"@] == Json::Null
            &&& shard.game matches Some(name) ==> {
                &&& parts["game"@] is Object
                &&& parts["game"@]->Object_0.dom() == set!["name"@]
                &&& parts["game"@]->Object_0["name"@] == Json::Text(name)
            }
        }),
{
    law_status_update_says_each_part(shard.game, shard.status, shard.afk);
}

/// A shard is as it should be where its user is not shown to be offline, where
/// there are shards to be one of, and where its address can be made a URL.
pub proof fn law_valid_shards(shard: ShardView)
    ensures
        shard.valid() <==> {
            &&& shard.status != OnlineStatus::Offline
            &&& shard.shard_info matches Some(info) ==> info@[1] != 0
            &&& safe_address(shard.ws_url)
        },
{
}

/// To set the presence is to set its three parts, in any order.
pub proof fn law_presence_is_its_parts(
    shard: ShardView,
    game: Option<Seq<char>>,
    status: OnlineStatus,
    afk: bool,
)
    ensures
        shard.with_game(game).with_status(status).with_afk(afk) == shard.with_presence(
            game,
            status,
            afk,
        ),
        shard.with_game(game).with_afk(afk).with_status(status) == shard.with_presence(
            game,
            status,
            afk,
        ),
        shard.with_status(status).with_game(game).with_afk(afk) == shard.with_presence(
            game,
            status,
            afk,
        ),
        shard.with_status(status).with_afk(afk).with_game(game) == shard.with_presence(
            game,
            status,
            afk,
        ),
        shard.with_afk(afk).with_game(game).with_status(status) == shard.with_presence(
            game,
            status,
            afk,
        ),
        shard.with_afk(afk).with_status(status).with_game(game) == shard.with_presence(
            game,
            status,
            afk,
        ),
{
}

/// Whatever status is set, the user is never shown to be offline, and every
/// other status is shown as it is.
pub proof fn law_nobody_is_offline(shard: ShardView, status: OnlineStatus)
    ensures
        shard.with_status(status).status != OnlineStatus::Offline,
        status != OnlineStatus::Offline ==> shard.with_status(status).status == status,
        status == OnlineStatus::Offline ==> shard.with_status(status).status
            == OnlineStatus::Invisible,
{
}

/// A message tells its kind and what it says.
pub proof fn law_messages_are_told_apart(a: OpCode, x: Json, b: OpCode, y: Json)
    requires
        message_json(a, x) == message_json(b, y),
    ensures
        a == b,
        x == y,
{
    let left = message_json(a, x)->Object_0;
    let right = message_json(b, y)->Object_0;
    reveal_strlit("op");
    reveal_strlit("d");
    assert("op"@.len() != "d"@.len());
    assert(left["op"@] == right["op"@]);
    assert(left["d"@] == right["d"@]);
}

/// The words for the statuses are different.
proof fn lemma_words_differ(a: OnlineStatus, b: OnlineStatus)
    requires
        a.word() == b.word(),
    ensures
        a == b,
{
    reveal_strlit("dnd");
    reveal_strlit("idle");
    reveal_strlit("invisible");
    reveal_strlit("offline");
    reveal_strlit("online");
    assert("dnd"@.len() == 3);
    assert("idle"@.len() == 4);
    assert("invisible"@.len() == 9);
    assert("offline"@.len() == 7);
    assert("online"@.len() == 6);
}

/// The notice about the presence tells all of it, and nothing else of the shard.
pub proof fn law_presence_notice_tells_the_presence(a: ShardView, b: ShardView)
    ensures
        a.presence_notice() == b.presence_notice() <==> (a.game == b.game && a.status == b.status
            && a.afk == b.afk),
{
    if a.presence_notice() == b.presence_notice() {
        let x = presence_members(a.game, a.status, a.afk);
        let y = presence_members(b.game, b.status, b.afk);
        law_messages_are_told_apart(
            OpCode::StatusUpdate,
            Json::Object(x),
            OpCode::StatusUpdate,
            Json::Object(y),
        );
        assert(x == y);
        reveal_strlit("since");
        reveal_strlit("afk");
        reveal_strlit("status");
        reveal_strlit("game");
        assert("since"@.len() == 5 && "afk"@.len() == 3 && "status"@.len() == 6 && "game"@.len()
            == 4);
        assert(x["afk"@] == y["afk"@]);
        assert(x["status"@] == y["status"@]);
        lemma_words_differ(a.status, b.status);
        assert(x["game"@] == game_json(a.game) && y["game"@] == game_json(b.game));
        if a.game is Some && b.game is Some {
            assert(game_json(a.game)->Object_0["name"@] == game_json(b.game)->Object_0["name"@]);
        }
    }
}

} // verus!
