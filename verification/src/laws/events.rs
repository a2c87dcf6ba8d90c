//! What holds of what a shard does on a message or an error, whatever it knows.

use vstd::prelude::*;

use crate::error::{Error, GatewayError};
use crate::events::{dispatch_notice, voice_update, NextView, VoiceUpdate};
use crate::json::Json;
use crate::laws::messages::{is_message, law_heartbeat_says_the_sequence};
use crate::model::{Event, GatewayEvent, VoiceServerUpdateEvent, VoiceStateUpdateEvent};
use crate::prep::identify_json;
use crate::recovery::RecoveryView;
use crate::shard::ShardView;
use crate::status::StatusView;

verus! {

/// Every event is handed on, and its place is told, by any shard. Where it says
/// that a session goes on, so is the time between two heartbeats, and nothing
/// else ever is.
pub proof fn law_events_are_handed_on(shard: ShardView, sequence: u64, event: Event)
    ensures
        ({
            let received = Ok(GatewayEvent::Dispatch(sequence, event));
            let notices = shard.event_notices(received);
            &&& shard.event_next(received) == NextView::Return(Ok(Some(event)))
            &&& notices.len() > 0
            &&& notices[0] == StatusView::Sequence(sequence)
            &&& event matches Event::Resumed(resumed) ==> notices.len() == 2 && notices[1]
                == StatusView::ChangeInterval(resumed.heartbeat_interval)
            &&& !(event is Resumed) ==> notices.len() == 1
        }),
        event matches Event::Resumed(resumed) ==> dispatch_notice(event) == Some(
            StatusView::ChangeInterval(resumed.heartbeat_interval),
        ),
        !(event is Resumed) ==> dispatch_notice(event) is None,
{
}

/// A heartbeat that is asked for is sent, with the place that was asked for, by
/// any shard, and nothing is handed on.
pub proof fn law_heartbeats_are_answered(shard: ShardView, sequence: u64)
    ensures
        ({
            let received = Ok(GatewayEvent::Heartbeat(sequence));
            let notices = shard.event_notices(received);
            &&& shard.event_next(received) == NextView::Return(Ok(None))
            &&& notices.len() == 1
            &&& notices[0] is SendMessage
            &&& is_message(notices[0]->SendMessage_0, 1, Json::Integer(sequence as int))
        }),
{
    law_heartbeat_says_the_sequence(sequence);
}

/// A greeting sets the time between two heartbeats, the receipt of a heartbeat
/// calls for nothing, and neither is handed on.
pub proof fn law_greetings_set_the_interval(shard: ShardView, interval: u64)
    ensures
        shard.event_next(Ok(GatewayEvent::Hello(interval))) == NextView::Return(Ok(None)),
        shard.event_notices(Ok(GatewayEvent::Hello(interval))) == seq![
            StatusView::ChangeInterval(interval),
        ],
        shard.event_next(Ok(GatewayEvent::HeartbeatAck)) == NextView::Return(Ok(None)),
        shard.event_notices(Ok(GatewayEvent::HeartbeatAck)).len() == 0,
{
}

/// When the gateway ends the session, any shard forgets it and nothing else,
/// identifies itself anew as what it is, and hands nothing on.
pub proof fn law_ended_sessions_are_forgotten(shard: ShardView)
    ensures
        ({
            let received = Ok(GatewayEvent::InvalidateSession);
            let after = shard.after_event(received);
            &&& shard.event_next(received) == NextView::Return(Ok(None))
            &&& shard.event_notices(received) == seq![
                StatusView::SendMessage(identify_json(shard.token, shard.shard_info, shard.os)),
            ]
            &&& after.session_id is None
            &&& after.game == shard.game
            &&& after.status == shard.status
            &&& after.afk == shard.afk
            &&& after.last_sequence == shard.last_sequence
            &&& after.login_type == shard.login_type
            &&& after.shard_info == shard.shard_info
            &&& after.token == shard.token
            &&& after.ws_url == shard.ws_url
            &&& after.os == shard.os
        }),
{
}

/// Nothing but the end of its session changes a shard.
pub proof fn law_other_events_keep_the_shard(shard: ShardView, event: Result<GatewayEvent, Error>)
    requires
        !(event matches Ok(GatewayEvent::InvalidateSession)),
    ensures
        shard.after_event(event) == shard,
{
}

/// When the gateway wants the connection made anew, any shard is replaced,
/// without a notice, whether it is in a session or not.
pub proof fn law_reconnects_replace_the_shard(shard: ShardView)
    ensures
        shard.event_next(Ok(GatewayEvent::Reconnect)) == NextView::Recover(
            RecoveryView::Opening(0),
        ),
        shard.event_notices(Ok(GatewayEvent::Reconnect)).len() == 0,
{
}

/// When the gateway closes the connection or the websocket fails, any shard gets
/// over it, without a notice: it resumes the session that it is in, unless the
/// code of the close is 1000, and is replaced where it resumes none.
pub proof fn law_losses_are_got_over(shard: ShardView, code: Option<u16>, text: String)
    ensures
        ({
            let closed = Err(Error::Gateway(GatewayError::Closed(code, text)));
            let broken = Err(Error::WebSocket(text));
            &&& shard.event_notices(closed).len() == 0
            &&& shard.event_notices(broken).len() == 0
            &&& shard.session_id is None || code == Some(1000u16) ==> shard.event_next(closed)
                == NextView::Recover(RecoveryView::Opening(0))
            &&& shard.session_id is None ==> shard.event_next(broken) == NextView::Recover(
                RecoveryView::Opening(0),
            )
            &&& shard.session_id matches Some(session_id) ==> {
                &&& code != Some(1000u16) ==> shard.event_next(closed) == NextView::Recover(
                    RecoveryView::Dropping(session_id),
                )
                &&& shard.event_next(broken) == NextView::Recover(
                    RecoveryView::Dropping(session_id),
                )
            }
        }),
{
}

/// Any other error is handed on as it is, without a notice.
pub proof fn law_other_errors_are_handed_on(shard: ShardView, error: Error)
    requires
        !(error is WebSocket),
        !(error matches Error::Gateway(GatewayError::Closed(..))),
    ensures
        shard.event_next(Err(error)) == NextView::Return(Err(error)),
        shard.event_notices(Err(error)).len() == 0,
{
}

/// A voice connection is told what the event says of its guild; an event that
/// names no guild, or is about something else, is told to none.
pub proof fn law_voice_updates_go_to_their_guild(
    state: VoiceStateUpdateEvent,
    server: VoiceServerUpdateEvent,
    event: Event,
)
    ensures
        state.guild_id matches Some(guild_id) ==> voice_update(&Event::VoiceStateUpdate(state))
            == Some(VoiceUpdate::State(guild_id, &state.voice_state)),
        state.guild_id is None ==> voice_update(&Event::VoiceStateUpdate(state)) is None,
        server.guild_id matches Some(guild_id) ==> voice_update(&Event::VoiceServerUpdate(server))
            == Some(VoiceUpdate::Server(guild_id, &server.endpoint, &server.token)),
        server.guild_id is None ==> voice_update(&Event::VoiceServerUpdate(server)) is None,
        !(event is VoiceStateUpdate) && !(event is VoiceServerUpdate) ==> voice_update(
            &event,
        ) is None,
{
}

} // verus!
