//! What holds of what the functions that move a shard on take and give, call by
//! call.

use vstd::prelude::*;

use crate::error::{Error, GatewayError};
use crate::events::{Dispatched, Handled, Next, VoiceUpdate};
use crate::handshake::{
    Handshake, HandshakeAction, HandshakeOutcome, HandshakeStep, StageView,
};
use crate::json::{json_of, Json};
use crate::laws::calls::{lemma_identify_says_identity, says_identity, says_resume};
use crate::laws::handshake::same_but_for_stage;
use crate::laws::messages::{
    is_message, law_heartbeat_says_the_sequence, law_resume_says_where_to_go_on,
};
use crate::laws::recovery::same_but_for_session;
use crate::model::{Event, GatewayEvent, LoginType, OnlineStatus, ReadyEvent};
use crate::prep::{decimal, gateway_url};
use crate::recovery::{Recovery, RecoveryAction, RecoveryOutcome, RecoveryStep, RecoveryView};
use crate::shard::{Shard, ShardView};
use crate::shutdown::{Shutdown, ShutdownAction, ShutdownStep};
use crate::status::{notices, GatewayStatus};

verus! {

/// The notices of `handled` say what each of its statuses says.
proof fn lemma_statuses_are_their_notices(handled: Handled)
    ensures
        notices(handled.statuses@).len() == handled.statuses@.len(),
        forall|i: int|
            0 <= i < handled.statuses@.len() ==> (#[trigger] handled.statuses@[i])@ == notices(
                handled.statuses@,
            )[i],
{
}

/// On any event [`Shard::handle_event`] hands it on, tells its place, and keeps
/// the shard, whatever the shard knows. Where the event says that a session goes
/// on, the time between two heartbeats is told too.
pub proof fn law_call_of_handle_event_on_an_event(
    shard: &mut Shard,
    sequence: u64,
    event: Event,
    handled: Handled,
)
    requires
        call_ensures(
            Shard::handle_event,
            (shard, Ok(GatewayEvent::Dispatch(sequence, event))),
            handled,
        ),
    ensures
        handled.next == Next::Return(Ok(Some(event))),
        final(shard)@ == old(shard)@,
        handled.statuses@.len() > 0,
        handled.statuses@[0] == GatewayStatus::Sequence(sequence),
        !(event is Resumed) ==> handled.statuses@.len() == 1,
        event matches Event::Resumed(resumed) ==> handled.statuses@.len() == 2
            && handled.statuses@[1] == GatewayStatus::ChangeInterval(resumed.heartbeat_interval),
{
    lemma_statuses_are_their_notices(handled);
    assert(handled.statuses@[0]@ == notices(handled.statuses@)[0]);
    if event is Resumed {
        assert(handled.statuses@[1]@ == notices(handled.statuses@)[1]);
    }
}

/// On a heartbeat that is asked for [`Shard::handle_event`] has it sent, hands
/// nothing on, and keeps the shard, whatever the shard knows.
pub proof fn law_call_of_handle_event_on_a_heartbeat(
    shard: &mut Shard,
    sequence: u64,
    handled: Handled,
)
    requires
        call_ensures(Shard::handle_event, (shard, Ok(GatewayEvent::Heartbeat(sequence))), handled),
    ensures
        handled.next == Next::Return(Ok(None)),
        final(shard)@ == old(shard)@,
        handled.statuses@.len() == 1,
        handled.statuses@[0] matches GatewayStatus::SendMessage(message) && is_message(
            json_of(message),
            1,
            Json::Integer(sequence as int),
        ),
{
    lemma_statuses_are_their_notices(handled);
    law_heartbeat_says_the_sequence(sequence);
    assert(handled.statuses@[0]@ == notices(handled.statuses@)[0]);
}

/// On a greeting [`Shard::handle_event`] has its interval taken over, hands
/// nothing on, and keeps the shard, whatever the shard knows.
pub proof fn law_call_of_handle_event_on_a_hello(
    shard: &mut Shard,
    interval: u64,
    handled: Handled,
)
    requires
        call_ensures(Shard::handle_event, (shard, Ok(GatewayEvent::Hello(interval))), handled),
    ensures
        handled.next == Next::Return(Ok(None)),
        final(shard)@ == old(shard)@,
        handled.statuses@.len() == 1,
        handled.statuses@[0] == GatewayStatus::ChangeInterval(interval),
{
    lemma_statuses_are_their_notices(handled);
    assert(handled.statuses@[0]@ == notices(handled.statuses@)[0]);
}

/// On the receipt of a heartbeat [`Shard::handle_event`] does nothing.
pub proof fn law_call_of_handle_event_on_an_ack(shard: &mut Shard, handled: Handled)
    requires
        call_ensures(Shard::handle_event, (shard, Ok(GatewayEvent::HeartbeatAck)), handled),
    ensures
        handled.next == Next::Return(Ok(None)),
        final(shard)@ == old(shard)@,
        handled.statuses@.len() == 0,
{
    lemma_statuses_are_their_notices(handled);
}

/// On the end of the session [`Shard::handle_event`] forgets it and nothing else,
/// and has the shard identified anew as what it is.
pub proof fn law_call_of_handle_event_on_an_ended_session(shard: &mut Shard, handled: Handled)
    requires
        call_ensures(Shard::handle_event, (shard, Ok(GatewayEvent::InvalidateSession)), handled),
    ensures
        handled.next == Next::Return(Ok(None)),
        final(shard)@.session_id is None,
        final(shard)@.last_sequence == old(shard)@.last_sequence,
        same_but_for_session(old(shard)@, final(shard)@),
        handled.statuses@.len() == 1,
        handled.statuses@[0] matches GatewayStatus::SendMessage(message) && says_identity(
            json_of(message),
            old(shard)@.token,
            old(shard)@.shard_info,
            old(shard)@.os,
        ),
{
    lemma_statuses_are_their_notices(handled);
    lemma_identify_says_identity(old(shard)@.token, old(shard)@.shard_info, old(shard)@.os);
    assert(handled.statuses@[0]@ == notices(handled.statuses@)[0]);
}

/// On the wish for another connection [`Shard::handle_event`] has the shard
/// replaced, whatever the shard knows, and keeps it meanwhile.
pub proof fn law_call_of_handle_event_on_a_reconnect(shard: &mut Shard, handled: Handled)
    requires
        call_ensures(Shard::handle_event, (shard, Ok(GatewayEvent::Reconnect)), handled),
    ensures
        handled.next matches Next::Recover(recovery) && recovery@ == RecoveryView::Opening(0),
        final(shard)@ == old(shard)@,
        handled.statuses@.len() == 0,
{
    lemma_statuses_are_their_notices(handled);
}

/// On a close or a failure of the websocket [`Shard::handle_event`] has the
/// session resumed, if the shard is in one and the code is not 1000, or else the
/// shard replaced, and keeps the shard meanwhile.
pub proof fn law_call_of_handle_event_on_a_loss(
    shard: &mut Shard,
    error: Error,
    handled: Handled,
)
    requires
        error is WebSocket || error matches Error::Gateway(GatewayError::Closed(..)),
        call_ensures(Shard::handle_event, (shard, Err(error)), handled),
    ensures
        final(shard)@ == old(shard)@,
        handled.statuses@.len() == 0,
        handled.next matches Next::Recover(recovery) && {
            let kept = !(error matches Error::Gateway(GatewayError::Closed(code, _)) && code
                == Some(1000u16));
            &&& old(shard)@.session_id is None || !kept ==> recovery@ == RecoveryView::Opening(0)
            &&& old(shard)@.session_id matches Some(session_id) ==> kept ==> recovery@
                == RecoveryView::Dropping(session_id)
        },
{
    lemma_statuses_are_their_notices(handled);
}

/// On any other error [`Shard::handle_event`] hands it on and keeps the shard.
pub proof fn law_call_of_handle_event_on_an_error(
    shard: &mut Shard,
    error: Error,
    handled: Handled,
)
    requires
        !(error is WebSocket),
        !(error matches Error::Gateway(GatewayError::Closed(..))),
        call_ensures(Shard::handle_event, (shard, Err(error)), handled),
    ensures
        handled.next == Next::Return(Err(error)),
        final(shard)@ == old(shard)@,
        handled.statuses@.len() == 0,
{
    lemma_statuses_are_their_notices(handled);
}

/// [`Shard::handle_dispatch`] and [`Handled::voice`] have the voice connection of
/// the guild that an event names told what it says of it, and no other.
pub proof fn law_calls_of_handle_dispatch_and_voice<'a>(
    shard: &Shard,
    event: &'a Event,
    dispatched: Dispatched<'a>,
    handled: &'a Handled,
    voice: Option<VoiceUpdate<'a>>,
)
    requires
        call_ensures(Shard::handle_dispatch, (shard, event), dispatched),
        handled.next == Next::Return(Ok(Some(*event))),
        call_ensures(Handled::voice, (handled,), voice),
    ensures
        dispatched.voice == voice,
        event matches Event::Resumed(resumed) ==> dispatched.notice == Some(
            GatewayStatus::ChangeInterval(resumed.heartbeat_interval),
        ),
        !(event is Resumed) ==> dispatched.notice is None,
        voice is Some <==> {
            ||| event matches Event::VoiceStateUpdate(update) && update.guild_id is Some
            ||| event matches Event::VoiceServerUpdate(update) && update.guild_id is Some
        },
        voice matches Some(VoiceUpdate::State(guild_id, state)) ==> event matches
            Event::VoiceStateUpdate(update) && update.guild_id == Some(guild_id) && *state
            == update.voice_state,
        voice matches Some(VoiceUpdate::Server(guild_id, endpoint, token)) ==> event matches
            Event::VoiceServerUpdate(update) && update.guild_id == Some(guild_id) && *endpoint
            == update.endpoint && *token == update.token,
{
}

/// [`Handled::voice`] has no voice connection told anything where no event is
/// handed on.
pub proof fn law_call_of_voice_without_an_event<'a>(
    handled: &'a Handled,
    voice: Option<VoiceUpdate<'a>>,
)
    requires
        call_ensures(Handled::voice, (handled,), voice),
        !(handled.next matches Next::Return(Ok(Some(_)))),
    ensures
        voice is None,
{
}

/// `handshake` is the start of one for the shard `shard` at `url`.
pub open spec fn opens(handshake: Handshake, shard: ShardView, url: Seq<char>) -> bool {
    &&& handshake@.stage == StageView::Connecting(url)
    &&& handshake@.base_url == shard.ws_url
    &&& handshake@.token == shard.token
    &&& handshake@.shard_info == shard.shard_info
    &&& handshake@.login_type == shard.login_type
    &&& handshake@.os == shard.os
}

/// Each attempt that [`Shard::recovery_action`] has made connects the shard as
/// what it is, sharded or not, at its own address; only where that is no URL is
/// there nothing to connect.
pub proof fn law_call_of_recovery_action_opens_the_shard(
    shard: &Shard,
    recovery: &Recovery,
    action: RecoveryAction,
)
    requires
        recovery@ is Opening,
        call_ensures(Shard::recovery_action, (shard, recovery), action),
    ensures
        match gateway_url(shard@.ws_url) {
            Some(url) => action matches RecoveryAction::Open(Ok(handshake)) && opens(
                handshake,
                shard@,
                url,
            ),
            None => action == RecoveryAction::Open(
                Err(Error::Gateway(GatewayError::BuildingUrl)),
            ),
        },
{
}

/// What [`Shard::recovery_action`] has done besides, for any shard.
pub proof fn law_call_of_recovery_action(
    shard: &Shard,
    recovery: &Recovery,
    action: RecoveryAction,
)
    requires
        !(recovery@ is Opening),
        call_ensures(Shard::recovery_action, (shard, recovery), action),
    ensures
        match recovery@ {
            RecoveryView::Dropping(_) => action is Drop,
            RecoveryView::Dialing(_, url) => action matches RecoveryAction::Connect(text) && text@
                == url,
            RecoveryView::Resuming(session_id) => action matches RecoveryAction::Send(message)
                && says_resume(
                json_of(message),
                session_id,
                shard@.last_sequence,
                shard@.token,
            ),
            RecoveryView::Awaiting => action is Receive,
            RecoveryView::Identifying => action matches RecoveryAction::Send(message)
                && says_identity(
                json_of(message),
                shard@.token,
                shard@.shard_info,
                shard@.os,
            ),
            RecoveryView::Pausing(_) => action == RecoveryAction::Sleep(1),
            RecoveryView::Booting => action matches RecoveryAction::Boot(
                token,
                login_type,
                shard_info,
            ) && token@ == shard@.token && login_type == shard@.login_type && shard_info
                == shard@.shard_info,
            RecoveryView::Retiring(_) => action is Retire,
            RecoveryView::Opening(_) => false,
        },
{
    lemma_identify_says_identity(shard@.token, shard@.shard_info, shard@.os);
    if let RecoveryView::Resuming(session_id) = recovery@ {
        law_resume_says_where_to_go_on(session_id, shard@.last_sequence, shard@.token);
    }
}

/// A shard whose connection the gateway wants made anew is first connected at the
/// address that it knows.
pub proof fn law_reconnects_start_at_the_known_address(
    shard: &mut Shard,
    handled: Handled,
    recovery: Recovery,
    kept: &Shard,
    action: RecoveryAction,
    url: Seq<char>,
)
    requires
        call_ensures(Shard::handle_event, (shard, Ok(GatewayEvent::Reconnect)), handled),
        handled.next == Next::Recover(recovery),
        kept@ == final(shard)@,
        call_ensures(Shard::recovery_action, (kept, &recovery), action),
        gateway_url(old(shard)@.ws_url) == Some(url),
    ensures
        action matches RecoveryAction::Open(Ok(handshake)) && opens(handshake, old(shard)@, url),
{
    law_call_of_handle_event_on_a_reconnect(shard, handled);
    law_call_of_recovery_action_opens_the_shard(kept, &recovery, action);
}

/// The first event that answers a resume, whatever it is and whatever the shard
/// knows, is handed on by [`Shard::recover`]; its place is the shard's last one
/// from then on, and the shard is in the session that it starts, if it starts
/// one.
pub proof fn law_call_of_recover_on_an_event(
    shard: &mut Shard,
    recovery: Recovery,
    sequence: u64,
    event: Event,
    step: RecoveryStep,
)
    requires
        recovery@ is Awaiting,
        call_ensures(
            Shard::recover,
            (
                shard,
                recovery,
                RecoveryOutcome::Received(GatewayEvent::Dispatch(sequence, event)),
            ),
            step,
        ),
    ensures
        step == RecoveryStep::Finish(Some(GatewayStatus::ChangeSender), Ok(event)),
        final(shard)@.last_sequence == sequence,
        event matches Event::Ready(ready) ==> final(shard)@.session_id == Some(
            ready.ready.session_id@,
        ),
        !(event is Ready) ==> final(shard)@.session_id == old(shard)@.session_id,
        same_but_for_session(old(shard)@, final(shard)@),
{
}

/// The next wish to resume says the place of the event that answered the one
/// before, whatever that event was.
pub proof fn law_resumes_go_on_from_the_last_answer(
    shard: &mut Shard,
    recovery: Recovery,
    sequence: u64,
    event: Event,
    step: RecoveryStep,
    later: &Shard,
    next: &Recovery,
    session_id: Seq<char>,
    action: RecoveryAction,
)
    requires
        recovery@ is Awaiting,
        call_ensures(
            Shard::recover,
            (
                shard,
                recovery,
                RecoveryOutcome::Received(GatewayEvent::Dispatch(sequence, event)),
            ),
            step,
        ),
        later@ == final(shard)@,
        next@ == RecoveryView::Resuming(session_id),
        call_ensures(Shard::recovery_action, (later, next), action),
    ensures
        action matches RecoveryAction::Send(message) && says_resume(
            json_of(message),
            session_id,
            sequence,
            old(shard)@.token,
        ),
{
    law_call_of_recover_on_an_event(shard, recovery, sequence, event, step);
    law_call_of_recovery_action(later, next, action);
}

/// While a resume goes on or is given up, [`Shard::recover`] keeps the shard and
/// goes to the next step, or to the replacement of the shard.
pub proof fn law_call_of_recover_while_resuming(
    shard: &mut Shard,
    recovery: Recovery,
    outcome: RecoveryOutcome,
    step: RecoveryStep,
)
    requires
        recovery@ is Dropping || recovery@ is Dialing || recovery@ is Resuming || recovery@
            is Awaiting || recovery@ is Identifying,
        recovery@.accepts(outcome),
        !(outcome matches RecoveryOutcome::Received(GatewayEvent::Dispatch(..))),
        call_ensures(Shard::recover, (shard, recovery, outcome), step),
    ensures
        final(shard)@ == old(shard)@,
        step matches RecoveryStep::Continue(next) && next@ == match (recovery@, outcome) {
            (_, RecoveryOutcome::Failed(_)) => RecoveryView::Opening(0),
            (_, RecoveryOutcome::Received(GatewayEvent::InvalidateSession)) =>
                RecoveryView::Identifying,
            (_, RecoveryOutcome::Received(_)) => RecoveryView::Opening(0),
            (RecoveryView::Dropping(session_id), _) => match gateway_url(old(shard)@.ws_url) {
                Some(url) => RecoveryView::Dialing(session_id, url),
                None => RecoveryView::Opening(0),
            },
            (RecoveryView::Dialing(session_id, _), _) => RecoveryView::Resuming(session_id),
            _ => RecoveryView::Awaiting,
        },
{
}

/// While a shard is being replaced, [`Shard::recover`] counts failures, waits,
/// and asks for an address after the third; the shard is kept until a new one
/// takes its place, and the lost connection is then closed.
pub proof fn law_call_of_recover_while_replacing(
    shard: &mut Shard,
    recovery: Recovery,
    outcome: RecoveryOutcome,
    step: RecoveryStep,
)
    requires
        recovery@ is Opening || recovery@ is Pausing || recovery@ is Booting,
        recovery@.valid(),
        recovery@.accepts(outcome),
        call_ensures(Shard::recover, (shard, recovery, outcome), step),
    ensures
        match outcome {
            RecoveryOutcome::Opened(new, ready) => final(shard)@ == new@ && (step matches
                RecoveryStep::Continue(next) && next@ == RecoveryView::Retiring(ready)),
            RecoveryOutcome::Failed(error) => final(shard)@ == old(shard)@ && match recovery@ {
                RecoveryView::Opening(failures) => step matches RecoveryStep::Continue(next)
                    && next@ == RecoveryView::Pausing((failures + 1) as u8),
                _ => step == RecoveryStep::Finish(None, Err(error)),
            },
            _ => final(shard)@ == old(shard)@ && (recovery@ matches RecoveryView::Pausing(failures)
                ==> step matches RecoveryStep::Continue(next) && next@ == if failures < 3 {
                RecoveryView::Opening(failures)
            } else {
                RecoveryView::Booting
            }),
        },
{
}

/// Once the lost connection is closed, [`Shard::recover`] hands on the start of
/// the new session, and the shard is in it. If it cannot be closed, that error is
/// handed on.
pub proof fn law_call_of_recover_on_the_end(
    shard: &mut Shard,
    recovery: Recovery,
    ready: ReadyEvent,
    outcome: RecoveryOutcome,
    step: RecoveryStep,
)
    requires
        recovery@ == RecoveryView::Retiring(ready),
        recovery@.accepts(outcome),
        call_ensures(Shard::recover, (shard, recovery, outcome), step),
    ensures
        final(shard)@.last_sequence == old(shard)@.last_sequence,
        same_but_for_session(old(shard)@, final(shard)@),
        outcome matches RecoveryOutcome::Failed(error) ==> step == RecoveryStep::Finish(
            None,
            Err(error),
        ) && final(shard)@ == old(shard)@,
        outcome is Done ==> step == RecoveryStep::Finish(None, Ok(Event::Ready(ready)))
            && final(shard)@.session_id == Some(ready.ready.session_id@),
{
}

/// What [`Shard::resume_failure`] gives is what failed of a resume: the error of
/// what was done, the answer that is none, or the address that is no URL.
pub proof fn law_call_of_resume_failure(
    shard: &Shard,
    recovery: &Recovery,
    outcome: &RecoveryOutcome,
    failure: Option<Error>,
)
    requires
        recovery@.accepts(*outcome),
        call_ensures(Shard::resume_failure, (shard, recovery, outcome), failure),
    ensures
        failure == match (recovery@, *outcome) {
            (RecoveryView::Opening(_), _)
            | (RecoveryView::Pausing(_), _)
            | (RecoveryView::Booting, _)
            | (RecoveryView::Retiring(_), _) => None::<Error>,
            (_, RecoveryOutcome::Failed(error)) => Some(error),
            (_, RecoveryOutcome::Received(event)) => if event is Dispatch || event
                is InvalidateSession {
                None
            } else {
                Some(Error::Gateway(GatewayError::InvalidHandshake))
            },
            (RecoveryView::Dropping(_), _) => if gateway_url(shard@.ws_url) is None {
                Some(Error::Gateway(GatewayError::BuildingUrl))
            } else {
                None
            },
            _ => None,
        },
{
}

/// What [`Recovery::dial`] gives goes on to resume where there is a URL, and to
/// replace the shard where there is none.
pub proof fn law_call_of_dial(
    session_id: String,
    url: Result<String, Error>,
    recovery: Recovery,
)
    requires
        call_ensures(Recovery::dial, (session_id, url), recovery),
    ensures
        url matches Ok(text) ==> recovery@ == RecoveryView::Dialing(session_id@, text@),
        url is Err ==> recovery@ == RecoveryView::Opening(0),
{
}

/// What [`Recovery::accepts`] gives is whether the action can have the outcome.
pub proof fn law_call_of_recovery_accepts(
    recovery: &Recovery,
    outcome: &RecoveryOutcome,
    accepted: bool,
)
    requires
        call_ensures(Recovery::accepts, (recovery, outcome), accepted),
    ensures
        accepted <==> match *outcome {
            RecoveryOutcome::Done => !(recovery@ is Awaiting || recovery@ is Opening || recovery@
                is Booting),
            RecoveryOutcome::Received(_) => recovery@ is Awaiting,
            RecoveryOutcome::Opened(..) => recovery@ is Opening || recovery@ is Booting,
            RecoveryOutcome::Failed(_) => !(recovery@ is Pausing),
        },
{
}

/// What [`Shard::new`] gives is the start of a handshake for what it takes, at the
/// URL of the address, and an error only where the address is no URL.
pub proof fn law_call_of_new(
    base_url: &str,
    token: &str,
    shard_info: Option<[u8; 2]>,
    login_type: LoginType,
    os: &str,
    started: Result<Handshake, Error>,
)
    requires
        call_ensures(Shard::new, (base_url, token, shard_info, login_type, os), started),
    ensures
        match gateway_url(base_url@) {
            Some(url) => started matches Ok(handshake) && {
                &&& handshake@.stage == StageView::Connecting(url)
                &&& handshake@.base_url == base_url@
                &&& handshake@.token == token@
                &&& handshake@.shard_info == shard_info
                &&& handshake@.login_type == login_type
                &&& handshake@.os == os@
            },
            None => started == Err::<Handshake, Error>(
                Error::Gateway(GatewayError::BuildingUrl),
            ),
        },
{
}

/// What [`Handshake::with_url`] gives is the start of a handshake for what it
/// takes.
pub proof fn law_call_of_with_url(
    url: String,
    base_url: &str,
    token: &str,
    shard_info: Option<[u8; 2]>,
    login_type: LoginType,
    os: &str,
    handshake: Handshake,
)
    requires
        call_ensures(
            Handshake::with_url,
            (url, base_url, token, shard_info, login_type, os),
            handshake,
        ),
    ensures
        handshake@.stage == StageView::Connecting(url@),
        handshake@.base_url == base_url@,
        handshake@.token == token@,
        handshake@.shard_info == shard_info,
        handshake@.login_type == login_type,
        handshake@.os == os@,
{
}

/// What [`Handshake::action`] has done, for any shard that is asked for.
pub proof fn law_call_of_handshake_action(handshake: &Handshake, action: HandshakeAction)
    requires
        call_ensures(Handshake::action, (handshake,), action),
    ensures
        match handshake@.stage {
            StageView::Connecting(url) => action matches HandshakeAction::Connect(text) && text@
                == url,
            StageView::Identifying => action matches HandshakeAction::Send(message)
                && says_identity(
                json_of(message),
                handshake@.token,
                handshake@.shard_info,
                handshake@.os,
            ),
            StageView::StartingKeepalive(interval) => action matches
                HandshakeAction::StartKeepalive(time, name) && time == interval && name@
                == match handshake@.shard_info {
                Some(info) => "serenity keepalive [shard "@ + decimal(info@[0] as nat) + "/"@
                    + decimal((info@[1] - 1) as nat) + "]"@,
                None => "serenity keepalive [unsharded]"@,
            },
            _ => action is Receive,
        },
{
    lemma_identify_says_identity(handshake@.token, handshake@.shard_info, handshake@.os);
}

/// What [`Handshake::accepts`] gives is whether the action can have the outcome.
pub proof fn law_call_of_handshake_accepts(
    handshake: &Handshake,
    outcome: &HandshakeOutcome,
    accepted: bool,
)
    requires
        call_ensures(Handshake::accepts, (handshake, outcome), accepted),
    ensures
        accepted <==> match *outcome {
            HandshakeOutcome::Done => !(handshake@.stage is AwaitingHello || handshake@.stage
                is AwaitingReady || handshake@.stage is AwaitingReadyAgain),
            HandshakeOutcome::Received(event) => {
                ||| handshake@.stage is AwaitingReady
                ||| handshake@.stage is AwaitingReadyAgain
                ||| handshake@.stage is AwaitingHello && (event is Hello ==> (
                handshake@.shard_info matches Some(info) ==> info@[1] != 0))
            },
            HandshakeOutcome::Failed(_) => true,
        },
{
}

/// While nothing fails, [`Handshake::step`] goes on in the order of a handshake.
pub proof fn law_call_of_step(
    handshake: Handshake,
    outcome: HandshakeOutcome,
    step: HandshakeStep,
)
    requires
        handshake@.accepts(outcome),
        call_ensures(Handshake::step, (handshake, outcome), step),
        outcome is Done || (handshake@.stage is AwaitingHello && outcome is Received
            && outcome->Received_0 is Hello),
    ensures
        step matches HandshakeStep::Continue(next, notice) && {
            &&& notice is None
            &&& same_but_for_stage(handshake@, next@)
            &&& next@.stage == match (handshake@.stage, outcome) {
                (
                    StageView::AwaitingHello,
                    HandshakeOutcome::Received(GatewayEvent::Hello(interval)),
                ) => StageView::StartingKeepalive(interval),
                (StageView::Connecting(_), _) => StageView::Identifying,
                (StageView::Identifying, _) => StageView::AwaitingHello,
                _ => StageView::AwaitingReady,
            }
        },
{
}

/// On the start of a session [`Handshake::step`] gives the shard that was asked
/// for, in that session and at that place, and what the gateway told.
pub proof fn law_call_of_step_on_a_session(
    handshake: Handshake,
    sequence: u64,
    ready: ReadyEvent,
    step: HandshakeStep,
)
    requires
        handshake@.stage is AwaitingReady || handshake@.stage is AwaitingReadyAgain,
        call_ensures(
            Handshake::step,
            (
                handshake,
                HandshakeOutcome::Received(GatewayEvent::Dispatch(sequence, Event::Ready(ready))),
            ),
            step,
        ),
    ensures
        step matches HandshakeStep::Established(shard, told) && {
            &&& told == ready
            &&& shard@.session_id == Some(ready.ready.session_id@)
            &&& shard@.last_sequence == sequence
            &&& shard@.status == OnlineStatus::Online
            &&& shard@.game is None
            &&& !shard@.afk
            &&& shard@.ws_url == handshake@.base_url
            &&& shard@.token == handshake@.token
            &&& shard@.shard_info == handshake@.shard_info
            &&& shard@.login_type == handshake@.login_type
            &&& shard@.os == handshake@.os
        },
{
}

/// On anything else [`Handshake::step`] gives an error, but for the first end of
/// the session before its start, on which the same identification is sent again.
pub proof fn law_call_of_step_on_anything_else(
    handshake: Handshake,
    outcome: HandshakeOutcome,
    step: HandshakeStep,
)
    requires
        handshake@.accepts(outcome),
        call_ensures(Handshake::step, (handshake, outcome), step),
    ensures
        outcome matches HandshakeOutcome::Failed(error) ==> step == HandshakeStep::Failed(error),
        outcome matches HandshakeOutcome::Received(event) ==> {
            let started = event matches GatewayEvent::Dispatch(_, Event::Ready(_));
            let again = event is InvalidateSession && handshake@.stage is AwaitingReady;
            &&& handshake@.stage is AwaitingHello && !(event is Hello) ==> step
                == HandshakeStep::Failed(Error::Gateway(GatewayError::ExpectedHello))
            &&& !(handshake@.stage is AwaitingHello) && !started && !again ==> step
                == HandshakeStep::Failed(Error::Gateway(GatewayError::InvalidHandshake))
            &&& again ==> {
                &&& step matches HandshakeStep::Continue(next, notice)
                &&& same_but_for_stage(handshake@, next@)
                &&& next@.stage is AwaitingReadyAgain
                &&& notice matches Some(GatewayStatus::SendMessage(message))
                &&& says_identity(
                    json_of(message),
                    handshake@.token,
                    handshake@.shard_info,
                    handshake@.os,
                )
            }
        },
{
    lemma_identify_says_identity(handshake@.token, handshake@.shard_info, handshake@.os);
}

/// A shard is shut down, whatever it knows, by a close with the code 1000 and
/// without a reason, then by a flush, and then by a stop of its stream; whatever
/// fails ends that.
pub proof fn law_calls_of_shutdown(
    shard: &Shard,
    state: Shutdown,
    first: Shutdown,
    action: ShutdownAction,
    outcome: Result<(), Error>,
    step: ShutdownStep,
)
    requires
        call_ensures(Shard::shutdown, (shard,), first),
        call_ensures(Shutdown::action, (&state,), action),
        call_ensures(Shutdown::step, (state, outcome), step),
    ensures
        first == Shutdown::Closing,
        state == Shutdown::Closing ==> (action matches ShutdownAction::Send(frame)
            && frame.status_code == Some(1000u16) && frame.payload@.len() == 0),
        state == Shutdown::Flushing ==> action is Flush,
        state == Shutdown::Stopping ==> action is Stop,
        outcome matches Err(error) ==> step == ShutdownStep::Finish(Err(error)),
        outcome is Ok ==> step == match state {
            Shutdown::Closing => ShutdownStep::Continue(Shutdown::Flushing),
            Shutdown::Flushing => ShutdownStep::Continue(Shutdown::Stopping),
            Shutdown::Stopping => ShutdownStep::Finish(Ok(())),
        },
{
}

} // verus!
