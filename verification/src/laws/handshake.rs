//! What holds of how a shard comes to be.

use vstd::prelude::*;
use vstd::utf8::is_ascii_chars;

use crate::error::{Error, GatewayError};
use crate::handshake::{
    HandshakeActionView, HandshakeOutcome, HandshakeStepView, HandshakeView, StageView,
};
use crate::model::{Event, GatewayEvent, OnlineStatus, ReadyEvent};
use crate::prep::{
    decimal, has_shards, identify_json, keepalive_name, safe_address, versioned, PLAIN_LIMIT,
};
use crate::shard::ShardView;
use crate::status::StatusView;

verus! {

/// Where `handshake` comes to when all that is done goes as `outcomes` say.
/// Outcomes after the end are left aside, and so are notices on the way.
pub open spec fn shaken(
    handshake: HandshakeView,
    outcomes: Seq<HandshakeOutcome>,
) -> HandshakeStepView
    decreases outcomes.len(),
{
    if outcomes.len() == 0 {
        HandshakeStepView::Continue(handshake, None)
    } else {
        match handshake.after(outcomes[0]) {
            HandshakeStepView::Continue(next, _) => shaken(next, outcomes.drop_first()),
            step => step,
        }
    }
}

/// What is done in `handshake` when it goes as `outcomes` say: one action for
/// each outcome, up to the end.
pub open spec fn handshake_actions(
    handshake: HandshakeView,
    outcomes: Seq<HandshakeOutcome>,
) -> Seq<HandshakeActionView>
    decreases outcomes.len(),
{
    if outcomes.len() == 0 {
        seq![]
    } else {
        seq![handshake.action()] + match handshake.after(outcomes[0]) {
            HandshakeStepView::Continue(next, _) => handshake_actions(next, outcomes.drop_first()),
            _ => seq![],
        }
    }
}

/// Each of `outcomes`, up to the end, is one that what is done can have.
pub open spec fn handshake_accepts(
    handshake: HandshakeView,
    outcomes: Seq<HandshakeOutcome>,
) -> bool
    decreases outcomes.len(),
{
    outcomes.len() > 0 ==> {
        &&& handshake.accepts(outcomes[0])
        &&& handshake.after(outcomes[0]) matches HandshakeStepView::Continue(next, _)
            ==> handshake_accepts(next, outcomes.drop_first())
    }
}

/// A handshake can be started for every address of no more than 210 characters,
/// and for every address of ASCII characters without escapes whose length, with
/// the version, fits in 31 bits.
pub proof fn law_ordinary_addresses_are_safe(base: Seq<char>)
    requires
        base.len() <= 210 || (is_ascii_chars(base) && !base.contains('%') && base.len()
            <= PLAIN_LIMIT - 4),
    ensures
        safe_address(base),
{
    let text = versioned(base);
    reveal_strlit("?v=");
    assert(decimal(6) =~= seq!['6']) by {
        assert(54u8 as char == '6');
    }
    assert(text =~= base + seq!['?', 'v', '=', '6']);
    if base.len() > 210 {
        assert forall|i: int| 0 <= i < text.len() implies '\0' <= #[trigger] text[i] <= '\u{7f}'
            && text[i] != '%' by {
            if i < base.len() {
                assert(text[i] == base[i]);
            }
        }
    }
}

/// `after` is `before`, but for how far it has come.
pub open spec fn same_but_for_stage(before: HandshakeView, after: HandshakeView) -> bool {
    &&& after.base_url == before.base_url
    &&& after.token == before.token
    &&& after.shard_info == before.shard_info
    &&& after.login_type == before.login_type
    &&& after.os == before.os
}

/// What is done in any handshake: the URL is connected to; the identification of
/// the shard that is asked for is sent; heartbeats are started at the interval of
/// the greeting, by a thread that is named by the shard; and messages are
/// received in between.
pub proof fn law_what_is_done_in_a_handshake(handshake: HandshakeView)
    ensures
        handshake.stage matches StageView::Connecting(url) ==> handshake.action()
            == HandshakeActionView::Connect(url),
        handshake.stage is Identifying ==> handshake.action() == HandshakeActionView::Send(
            identify_json(handshake.token, handshake.shard_info, handshake.os),
        ),
        handshake.identification() == identify_json(
            handshake.token,
            handshake.shard_info,
            handshake.os,
        ),
        handshake.stage matches StageView::StartingKeepalive(interval) ==> handshake.action()
            == HandshakeActionView::StartKeepalive(interval, keepalive_name(handshake.shard_info)),
        handshake.stage is AwaitingHello || handshake.stage is AwaitingReady || handshake.stage
            is AwaitingReadyAgain ==> handshake.action() is Receive,
{
}

/// What is done goes on, in its order, for any handshake: after the connection
/// the identification, after that the greeting, after that the heartbeats at its
/// interval, and after that the start of the session.
pub proof fn law_steps_of_a_handshake(handshake: HandshakeView, interval: u64)
    ensures
        ({
            let outcome = if handshake.stage is AwaitingHello {
                HandshakeOutcome::Received(GatewayEvent::Hello(interval))
            } else {
                HandshakeOutcome::Done
            };
            !(handshake.stage is AwaitingReady) && !(handshake.stage is AwaitingReadyAgain) ==> {
                &&& handshake.after(outcome) matches HandshakeStepView::Continue(next, notice)
                &&& notice is None
                &&& same_but_for_stage(handshake, next)
                &&& next.stage == match handshake.stage {
                    StageView::Connecting(_) => StageView::Identifying,
                    StageView::Identifying => StageView::AwaitingHello,
                    StageView::AwaitingHello => StageView::StartingKeepalive(interval),
                    _ => StageView::AwaitingReady,
                }
            }
        }),
{
}

/// The start of a session, received when it is awaited, makes the shard that was
/// asked for, whatever that is: in that session, at that place, online, at the
/// keyboard and without a game. What the gateway told is handed on.
pub proof fn law_the_start_of_a_session_makes_the_shard(
    handshake: HandshakeView,
    sequence: u64,
    ready: ReadyEvent,
)
    requires
        handshake.stage is AwaitingReady || handshake.stage is AwaitingReadyAgain,
    ensures
        handshake.after(
            HandshakeOutcome::Received(GatewayEvent::Dispatch(sequence, Event::Ready(ready))),
        ) matches HandshakeStepView::Established(shard, told) && {
            &&& told == ready
            &&& shard == handshake.shard(ready, sequence)
            &&& shard.session_id == Some(ready.ready.session_id@)
            &&& shard.last_sequence == sequence
            &&& shard.status == OnlineStatus::Online
            &&& shard.game is None
            &&& !shard.afk
            &&& shard.ws_url == handshake.base_url
            &&& shard.token == handshake.token
            &&& shard.shard_info == handshake.shard_info
            &&& shard.login_type == handshake.login_type
            &&& shard.os == handshake.os
        },
{
}

/// An end of the session, received when its start is first awaited, has the same
/// identification sent a second time, for any handshake. Received a second time,
/// it ends the handshake, as does anything else but the start of a session.
pub proof fn law_anything_else_is_no_handshake(
    handshake: HandshakeView,
    event: GatewayEvent,
)
    requires
        handshake.stage is AwaitingReady || handshake.stage is AwaitingReadyAgain,
        !(event matches GatewayEvent::Dispatch(_, Event::Ready(_))),
    ensures
        event is InvalidateSession && handshake.stage is AwaitingReady ==> {
            &&& handshake.after(HandshakeOutcome::Received(event)) matches
                HandshakeStepView::Continue(next, notice)
            &&& notice == Some(
                StatusView::SendMessage(
                    identify_json(handshake.token, handshake.shard_info, handshake.os),
                ),
            )
            &&& same_but_for_stage(handshake, next)
            &&& next.stage is AwaitingReadyAgain
        },
        !(event is InvalidateSession) || handshake.stage is AwaitingReadyAgain
            ==> handshake.after(HandshakeOutcome::Received(event)) == HandshakeStepView::Failed(
            Error::Gateway(GatewayError::InvalidHandshake),
        ),
{
}

/// Anything but a greeting, received when one is awaited, and any failure, end
/// any handshake with an error.
pub proof fn law_failures_of_a_handshake(
    handshake: HandshakeView,
    event: GatewayEvent,
    error: Error,
)
    ensures
        handshake.after(HandshakeOutcome::Failed(error)) == HandshakeStepView::Failed(error),
        handshake.stage is AwaitingHello && !(event is Hello) ==> handshake.after(
            HandshakeOutcome::Received(event),
        ) == HandshakeStepView::Failed(Error::Gateway(GatewayError::ExpectedHello)),
{
}

/// Each action can have the outcomes that it may have, and no others: what is
/// received is a message, what else is done is done, and all can fail. Only the
/// greeting of one of no shards is none.
pub proof fn law_handshake_outcomes_fit_their_action(
    handshake: HandshakeView,
    event: GatewayEvent,
    error: Error,
)
    ensures
        handshake.accepts(HandshakeOutcome::Failed(error)),
        handshake.accepts(HandshakeOutcome::Done) <==> !(handshake.stage is AwaitingHello
            || handshake.stage is AwaitingReady || handshake.stage is AwaitingReadyAgain),
        handshake.stage is AwaitingReady || handshake.stage is AwaitingReadyAgain
            ==> handshake.accepts(HandshakeOutcome::Received(event)),
        handshake.stage is AwaitingHello ==> (handshake.accepts(HandshakeOutcome::Received(event))
            <==> (event is Hello ==> (handshake.shard_info matches Some(info) ==> info@[1] != 0))),
        handshake.accepts(HandshakeOutcome::Received(event)) ==> handshake.stage is AwaitingHello
            || handshake.stage is AwaitingReady || handshake.stage is AwaitingReadyAgain,
{
}

/// A handshake is as it should be where its address can be made a URL and, once
/// it was greeted, there are shards to be one of.
pub proof fn law_valid_handshakes(handshake: HandshakeView)
    ensures
        handshake.valid() <==> {
            &&& safe_address(handshake.base_url)
            &&& handshake.stage is StartingKeepalive || handshake.stage is AwaitingReady
                || handshake.stage is AwaitingReadyAgain ==> (handshake.shard_info matches Some(
                info,
            ) ==> info@[1] != 0)
        },
{
}

/// A handshake that goes well: the connection is opened, the identification is
/// sent, the greeting is received, the heartbeats are started as it says, and
/// the start of a session is received.
pub proof fn law_handshake(
    handshake: HandshakeView,
    url: Seq<char>,
    interval: u64,
    sequence: u64,
    ready: ReadyEvent,
)
    requires
        handshake.stage == StageView::Connecting(url),
        has_shards(handshake.shard_info),
    ensures
        ({
            let outcomes = seq![
                HandshakeOutcome::Done,
                HandshakeOutcome::Done,
                HandshakeOutcome::Received(GatewayEvent::Hello(interval)),
                HandshakeOutcome::Done,
                HandshakeOutcome::Received(GatewayEvent::Dispatch(sequence, Event::Ready(ready))),
            ];
            &&& handshake_accepts(handshake, outcomes)
            &&& handshake_actions(handshake, outcomes) == seq![
                HandshakeActionView::Connect(url),
                HandshakeActionView::Send(handshake.identification()),
                HandshakeActionView::Receive,
                HandshakeActionView::StartKeepalive(interval, keepalive_name(handshake.shard_info)),
                HandshakeActionView::Receive,
            ]
            &&& shaken(handshake, outcomes) == HandshakeStepView::Established(
                handshake.shard(ready, sequence),
                ready,
            )
        }),
{
    let outcomes = seq![
        HandshakeOutcome::Done,
        HandshakeOutcome::Done,
        HandshakeOutcome::Received(GatewayEvent::Hello(interval)),
        HandshakeOutcome::Done,
        HandshakeOutcome::Received(GatewayEvent::Dispatch(sequence, Event::Ready(ready))),
    ];
    reveal_with_fuel(shaken, 7);
    reveal_with_fuel(handshake_actions, 7);
    reveal_with_fuel(handshake_accepts, 7);
    let o1 = outcomes.drop_first();
    let o2 = o1.drop_first();
    let o3 = o2.drop_first();
    let o4 = o3.drop_first();
    assert(o1[0] == outcomes[1] && o2[0] == outcomes[2] && o3[0] == outcomes[3] && o4[0]
        == outcomes[4]);
    assert(handshake_actions(handshake, outcomes) =~= seq![
        HandshakeActionView::Connect(url),
        HandshakeActionView::Send(handshake.identification()),
        HandshakeActionView::Receive,
        HandshakeActionView::StartKeepalive(interval, keepalive_name(handshake.shard_info)),
        HandshakeActionView::Receive,
    ]);
}

/// Where a session is ended before it has started, the identification is sent a
/// second time, and no third time.
pub proof fn law_handshake_identifies_twice_at_most(handshake: HandshakeView)
    ensures
        handshake.stage is AwaitingReady ==> handshake.after(
            HandshakeOutcome::Received(GatewayEvent::InvalidateSession),
        ) == HandshakeStepView::Continue(
            handshake.at(StageView::AwaitingReadyAgain),
            Some(StatusView::SendMessage(handshake.identification())),
        ),
        handshake.stage is AwaitingReadyAgain ==> handshake.after(
            HandshakeOutcome::Received(GatewayEvent::InvalidateSession),
        ) is Failed,
{
}

/// How many steps a handshake can take from `stage` on.
pub open spec fn stages_left(stage: StageView) -> nat {
    match stage {
        StageView::Connecting(_) => 6,
        StageView::Identifying => 5,
        StageView::AwaitingHello => 4,
        StageView::StartingKeepalive(_) => 3,
        StageView::AwaitingReady => 2,
        StageView::AwaitingReadyAgain => 1,
    }
}

/// A handshake comes to an end: after so many steps at most.
pub proof fn law_handshake_ends(handshake: HandshakeView, outcomes: Seq<HandshakeOutcome>)
    requires
        handshake_accepts(handshake, outcomes),
        outcomes.len() >= stages_left(handshake.stage),
    ensures
        !(shaken(handshake, outcomes) is Continue),
    decreases outcomes.len(),
{
    match handshake.after(outcomes[0]) {
        HandshakeStepView::Continue(next, _) => {
            law_handshake_ends(next, outcomes.drop_first());
        },
        _ => {},
    }
}

/// The shard that a handshake ends with is the one that it was started for, in
/// the session that the gateway told of, at the place at which it told of it, and
/// its user is seen to be online.
pub proof fn law_shards_are_as_asked_for(
    handshake: HandshakeView,
    outcomes: Seq<HandshakeOutcome>,
    shard: ShardView,
    ready: ReadyEvent,
)
    requires
        handshake.valid(),
        handshake_accepts(handshake, outcomes),
        shaken(handshake, outcomes) == HandshakeStepView::Established(shard, ready),
    ensures
        shard.valid(),
        shard.ws_url == handshake.base_url,
        shard.token == handshake.token,
        shard.shard_info == handshake.shard_info,
        shard.login_type == handshake.login_type,
        shard.os == handshake.os,
        shard.session_id == Some(ready.ready.session_id@),
        shard.game is None,
        shard.status == OnlineStatus::Online,
        !shard.afk,
        outcomes.contains(
            HandshakeOutcome::Received(
                GatewayEvent::Dispatch(shard.last_sequence, Event::Ready(ready)),
            ),
        ),
    decreases outcomes.len(),
{
    let start = HandshakeOutcome::Received(
        GatewayEvent::Dispatch(shard.last_sequence, Event::Ready(ready)),
    );
    if outcomes.len() > 0 {
        match handshake.after(outcomes[0]) {
            HandshakeStepView::Continue(next, _) => {
                let rest = outcomes.drop_first();
                law_shards_are_as_asked_for(next, rest, shard, ready);
                let k = choose|k: int| 0 <= k < rest.len() && rest[k] == start;
                assert(outcomes[k + 1] == start);
            },
            _ => {
                assert(outcomes[0] == start);
            },
        }
    }
}

/// A shard that is connected anew at the known address is the same shard: the
/// same one of as many, for the same token, at the same address.
pub proof fn law_reopened_shards_are_the_same(
    shard: ShardView,
    handshake: HandshakeView,
    outcomes: Seq<HandshakeOutcome>,
    new: ShardView,
    ready: ReadyEvent,
)
    requires
        shard.valid(),
        shard.reopened() matches Ok(h) && h == handshake,
        handshake_accepts(handshake, outcomes),
        shaken(handshake, outcomes) == HandshakeStepView::Established(new, ready),
    ensures
        new.ws_url == shard.ws_url,
        new.token == shard.token,
        new.shard_info == shard.shard_info,
        new.login_type == shard.login_type,
        new.os == shard.os,
        new.session_id == Some(ready.ready.session_id@),
{
    law_shards_are_as_asked_for(handshake, outcomes, new, ready);
}

} // verus!
