//! What holds of how a shard gets over the loss of its connection.

use vstd::prelude::*;

use crate::constants::RECONNECT_ATTEMPTS;
use crate::error::{Error, GatewayError};
use crate::handshake::StageView;
use crate::json::Json;
use crate::laws::messages::{is_message, law_resume_says_where_to_go_on, said};
use crate::model::{Event, GatewayEvent, ReadyEvent};
use crate::payload::resume_json;
use crate::prep::{gateway_url, identify_json};
use crate::recovery::{RecoveryActionView, RecoveryOutcome, RecoveryStepView, RecoveryView};
use crate::shard::{Shard, ShardView};
use crate::status::StatusView;

verus! {

/// Where the recovery `state` of `shard` comes to when all that is done goes as
/// `outcomes` say. Outcomes after the end are left aside.
pub open spec fn recovered(
    shard: ShardView,
    state: RecoveryView,
    outcomes: Seq<RecoveryOutcome>,
) -> (ShardView, RecoveryStepView)
    decreases outcomes.len(),
{
    if outcomes.len() == 0 {
        (shard, RecoveryStepView::Continue(state))
    } else {
        let (next_shard, step) = state.after(shard, outcomes[0]);
        match step {
            RecoveryStepView::Continue(next) => recovered(next_shard, next, outcomes.drop_first()),
            RecoveryStepView::Finish(..) => (next_shard, step),
        }
    }
}

/// What is done in the recovery `state` of `shard` when it goes as `outcomes`
/// say: one action for each outcome, up to the end.
pub open spec fn recovery_actions(
    shard: ShardView,
    state: RecoveryView,
    outcomes: Seq<RecoveryOutcome>,
) -> Seq<RecoveryActionView>
    decreases outcomes.len(),
{
    if outcomes.len() == 0 {
        seq![]
    } else {
        let (next_shard, step) = state.after(shard, outcomes[0]);
        seq![state.action(shard)] + match step {
            RecoveryStepView::Continue(next) => recovery_actions(
                next_shard,
                next,
                outcomes.drop_first(),
            ),
            RecoveryStepView::Finish(..) => seq![],
        }
    }
}

/// Each of `outcomes`, up to the end, is one that what is done can have.
pub open spec fn recovery_accepts(
    shard: ShardView,
    state: RecoveryView,
    outcomes: Seq<RecoveryOutcome>,
) -> bool
    decreases outcomes.len(),
{
    outcomes.len() > 0 ==> {
        let (next_shard, step) = state.after(shard, outcomes[0]);
        &&& state.accepts(outcomes[0])
        &&& step matches RecoveryStepView::Continue(next) ==> recovery_accepts(
            next_shard,
            next,
            outcomes.drop_first(),
        )
    }
}

/// `after` knows what `before` knows, but for its session and the place of the
/// last message.
pub open spec fn same_but_for_session(before: ShardView, after: ShardView) -> bool {
    &&& after.game == before.game
    &&& after.status == before.status
    &&& after.afk == before.afk
    &&& after.login_type == before.login_type
    &&& after.shard_info == before.shard_info
    &&& after.token == before.token
    &&& after.ws_url == before.ws_url
    &&& after.os == before.os
}

/// A shard is replaced as what it is: sharded or not, each attempt at an address
/// that is a URL connects there, for the same token, as the same shard of as
/// many. Only where the address is no URL is there nothing to connect.
pub proof fn law_shards_are_opened_again_as_they_are(shard: ShardView, failures: u8)
    ensures
        match gateway_url(shard.ws_url) {
            Some(url) => RecoveryView::Opening(failures).action(shard) matches
                RecoveryActionView::Open(Ok(handshake)) && {
                &&& handshake.stage == StageView::Connecting(url)
                &&& handshake.base_url == shard.ws_url
                &&& handshake.token == shard.token
                &&& handshake.shard_info == shard.shard_info
                &&& handshake.login_type == shard.login_type
                &&& handshake.os == shard.os
            },
            None => RecoveryView::Opening(failures).action(shard) == RecoveryActionView::Open(
                Err(Error::Gateway(GatewayError::BuildingUrl)),
            ),
        },
{
}

/// What is done of a shard that is replaced, besides: a second is waited after a
/// failure; an address is asked for with the shard's token, its login, and its
/// place among several; and the lost connection is closed.
pub proof fn law_what_is_done_to_replace_a_shard(
    shard: ShardView,
    failures: u8,
    ready: ReadyEvent,
)
    ensures
        RecoveryView::Pausing(failures).action(shard) == RecoveryActionView::Sleep(1),
        RecoveryView::Booting.action(shard) == RecoveryActionView::Boot(
            shard.token,
            shard.login_type,
            shard.shard_info,
        ),
        RecoveryView::Retiring(ready).action(shard) == RecoveryActionView::Retire,
{
}

/// What is done to resume a session, for any shard: the lost connection is
/// dropped, a new one is opened, the session, the place of the shard's last
/// message and its token are sent, and an answer is received. To identify again
/// is to identify as what the shard is.
pub proof fn law_what_is_done_to_resume(shard: ShardView, session_id: Seq<char>, url: Seq<char>)
    ensures
        RecoveryView::Dropping(session_id).action(shard) == RecoveryActionView::Drop,
        RecoveryView::Dialing(session_id, url).action(shard) == RecoveryActionView::Connect(url),
        RecoveryView::Awaiting.action(shard) == RecoveryActionView::Receive,
        RecoveryView::Identifying.action(shard) == RecoveryActionView::Send(
            identify_json(shard.token, shard.shard_info, shard.os),
        ),
        ({
            let message = RecoveryView::Resuming(session_id).action(shard)->Send_0;
            let parts = said(message)->Object_0;
            &&& RecoveryView::Resuming(session_id).action(shard) is Send
            &&& is_message(message, 6, said(message))
            &&& said(message) is Object
            &&& parts.dom() == set!["session_id"@, "seq"@, "token"@]
            &&& parts["session_id"@] == Json::Text(session_id)
            &&& parts["seq"@] == Json::Integer(shard.last_sequence as int)
            &&& parts["token"@] == Json::Text(shard.token)
        }),
{
    law_resume_says_where_to_go_on(session_id, shard.last_sequence, shard.token);
}

/// While nothing fails, the steps of a resume follow each other in their order,
/// and leave any shard as it is.
pub proof fn law_steps_of_a_resume(shard: ShardView, session_id: Seq<char>, url: Seq<char>)
    ensures
        RecoveryView::Dropping(session_id).after(shard, RecoveryOutcome::Done) == (
            shard,
            RecoveryStepView::Continue(
                match gateway_url(shard.ws_url) {
                    Some(url) => RecoveryView::Dialing(session_id, url),
                    None => RecoveryView::Opening(0),
                },
            ),
        ),
        RecoveryView::Dialing(session_id, url).after(shard, RecoveryOutcome::Done) == (
            shard,
            RecoveryStepView::Continue(RecoveryView::Resuming(session_id)),
        ),
        RecoveryView::Resuming(session_id).after(shard, RecoveryOutcome::Done) == (
            shard,
            RecoveryStepView::Continue(RecoveryView::Awaiting),
        ),
        RecoveryView::Awaiting.after(
            shard,
            RecoveryOutcome::Received(GatewayEvent::InvalidateSession),
        ) == (shard, RecoveryStepView::Continue(RecoveryView::Identifying)),
        RecoveryView::Identifying.after(shard, RecoveryOutcome::Done) == (
            shard,
            RecoveryStepView::Continue(RecoveryView::Awaiting),
        ),
{
}

/// The first event that answers a resume, whatever it is and whatever the shard
/// knows, is handed on, and messages go to the new connection. Its place is the
/// shard's last one from then on. If it is the start of a session, the shard is
/// in that session, and otherwise in the one that it was in.
pub proof fn law_resumes_end_with_the_first_event(shard: ShardView, sequence: u64, event: Event)
    ensures
        ({
            let (after, step) = RecoveryView::Awaiting.after(
                shard,
                RecoveryOutcome::Received(GatewayEvent::Dispatch(sequence, event)),
            );
            &&& step == RecoveryStepView::Finish(Some(StatusView::ChangeSender), Ok(event))
            &&& after.last_sequence == sequence
            &&& event matches Event::Ready(ready) ==> after.session_id == Some(
                ready.ready.session_id@,
            )
            &&& !(event is Ready) ==> after.session_id == shard.session_id
            &&& same_but_for_session(shard, after)
        }),
{
}

/// A session that was resumed goes on from where it was resumed: when its
/// connection is lost once more, the next wish to resume says the place of the
/// event with which the one before ended.
pub proof fn law_next_resume_goes_on_from_the_last(
    shard: ShardView,
    sequence: u64,
    event: Event,
    session_id: Seq<char>,
)
    ensures
        ({
            let after = RecoveryView::Awaiting.after(
                shard,
                RecoveryOutcome::Received(GatewayEvent::Dispatch(sequence, event)),
            ).0;
            let action = RecoveryView::Resuming(session_id).action(after);
            &&& action is Send
            &&& said(action->Send_0)->Object_0["seq"@] == Json::Integer(sequence as int)
            &&& said(action->Send_0)->Object_0["token"@] == Json::Text(shard.token)
        }),
{
    law_resumes_end_with_the_first_event(shard, sequence, event);
    law_what_is_done_to_resume(
        RecoveryView::Awaiting.after(
            shard,
            RecoveryOutcome::Received(GatewayEvent::Dispatch(sequence, event)),
        ).0,
        session_id,
        session_id,
    );
}

/// Whatever fails of a resume, any shard is left as it is and is replaced, and
/// what failed is why. The same goes for an answer that is none, which is no
/// handshake, and for an address that is no URL.
pub proof fn law_failures_of_a_resume(
    shard: ShardView,
    state: RecoveryView,
    error: Error,
    event: GatewayEvent,
    session_id: Seq<char>,
)
    requires
        state is Dropping || state is Dialing || state is Resuming || state is Awaiting
            || state is Identifying,
        !(event is Dispatch),
        !(event is InvalidateSession),
    ensures
        ({
            let failed = RecoveryOutcome::Failed(error);
            let received = RecoveryOutcome::Received(event);
            let replaced = (shard, RecoveryStepView::Continue(RecoveryView::Opening(0)));
            &&& state.after(shard, failed) == replaced
            &&& state.resume_failure(failed, shard.url_error()) == Some(error)
            &&& RecoveryView::Awaiting.after(shard, received) == replaced
            &&& RecoveryView::Awaiting.resume_failure(received, shard.url_error()) == Some(
                Error::Gateway(GatewayError::InvalidHandshake),
            )
            &&& RecoveryView::Dropping(session_id).resume_failure(
                RecoveryOutcome::Done,
                shard.url_error(),
            ) == if gateway_url(shard.ws_url) is None {
                Some(Error::Gateway(GatewayError::BuildingUrl))
            } else {
                None
            }
        }),
{
}

/// No error is given for a resume that goes on, nor for a shard that is being
/// replaced.
pub proof fn law_no_failures_but_of_a_resume(
    state: RecoveryView,
    outcome: RecoveryOutcome,
    sequence: u64,
    event: Event,
    url_error: Option<Error>,
)
    ensures
        RecoveryView::Awaiting.resume_failure(
            RecoveryOutcome::Received(GatewayEvent::Dispatch(sequence, event)),
            url_error,
        ) is None,
        RecoveryView::Awaiting.resume_failure(
            RecoveryOutcome::Received(GatewayEvent::InvalidateSession),
            url_error,
        ) is None,
        state is Dialing || state is Resuming || state is Identifying ==> state.resume_failure(
            RecoveryOutcome::Done,
            url_error,
        ) is None,
        state is Opening || state is Pausing || state is Booting || state is Retiring
            ==> state.resume_failure(outcome, url_error) is None,
        state is Dropping ==> state.resume_failure(RecoveryOutcome::Done, url_error) == url_error,
{
}

/// The steps of a replacement, for any shard: each failure is counted and waited
/// for; while it is less than the third, another attempt is made, and after the
/// third an address is asked for. Nothing of that changes the shard.
pub proof fn law_steps_of_a_replacement(shard: ShardView, failures: u8, error: Error)
    ensures
        failures < 3 ==> RecoveryView::Opening(failures).after(
            shard,
            RecoveryOutcome::Failed(error),
        ) == (shard, RecoveryStepView::Continue(RecoveryView::Pausing((failures + 1) as u8))),
        RecoveryView::Pausing(failures).after(shard, RecoveryOutcome::Done) == (
            shard,
            RecoveryStepView::Continue(
                if failures < 3 {
                    RecoveryView::Opening(failures)
                } else {
                    RecoveryView::Booting
                },
            ),
        ),
        RecoveryView::Booting.after(shard, RecoveryOutcome::Failed(error)) == (
            shard,
            RecoveryStepView::Finish(None, Err(error)),
        ),
{
}

/// A new shard takes the place of the old one, whatever either knows, and the
/// lost connection is then closed. If that is done, the start of its session is
/// handed on, and the shard is in that session. If that fails, so does the
/// recovery.
pub proof fn law_new_shards_take_over(
    shard: ShardView,
    failures: u8,
    new: Shard,
    ready: ReadyEvent,
    error: Error,
)
    ensures
        ({
            let opened = RecoveryOutcome::Opened(new, ready);
            let taken_over = (new@, RecoveryStepView::Continue(RecoveryView::Retiring(ready)));
            let (after, step) = RecoveryView::Retiring(ready).after(shard, RecoveryOutcome::Done);
            &&& RecoveryView::Opening(failures).after(shard, opened) == taken_over
            &&& RecoveryView::Booting.after(shard, opened) == taken_over
            &&& step == RecoveryStepView::Finish(None, Ok(Event::Ready(ready)))
            &&& after.session_id == Some(ready.ready.session_id@)
            &&& after.last_sequence == shard.last_sequence
            &&& same_but_for_session(shard, after)
            &&& RecoveryView::Retiring(ready).after(shard, RecoveryOutcome::Failed(error)) == (
                shard,
                RecoveryStepView::Finish(None, Err(error)),
            )
        }),
{
}

/// Each action can have the outcomes that it may have, and no others: what is
/// received is a message, what is connected is a shard, what is waited for comes,
/// and what else is done is done; all but the waiting can fail.
pub proof fn law_outcomes_fit_their_action(
    shard: ShardView,
    state: RecoveryView,
    outcome: RecoveryOutcome,
)
    ensures
        state.accepts(outcome) <==> match outcome {
            RecoveryOutcome::Done => !(state.action(shard) is Receive) && !(state.action(shard)
                is Open) && !(state.action(shard) is Boot),
            RecoveryOutcome::Received(_) => state.action(shard) is Receive,
            RecoveryOutcome::Opened(..) => state.action(shard) is Open || state.action(shard)
                is Boot,
            RecoveryOutcome::Failed(_) => !(state.action(shard) is Sleep),
        },
{
}

/// A session is resumed, and no shard replaced, while the lost connection is
/// dropped and a new one is opened, asked and answered. No more than three
/// failures are counted.
pub proof fn law_states_of_a_recovery(state: RecoveryView)
    ensures
        state.resumes() <==> !(state is Opening || state is Pausing || state is Booting || state
            is Retiring),
        state.valid() <==> match state {
            RecoveryView::Opening(failures) => failures <= 2,
            RecoveryView::Pausing(failures) => 1 <= failures <= 3,
            _ => true,
        },
{
}

/// To resume a session the lost connection is dropped, a new one is opened, and
/// the session, the place of the last message and the token are sent. The first
/// event is then handed on, at its place, and messages go to the new connection.
pub proof fn law_resume(
    shard: ShardView,
    session_id: Seq<char>,
    url: Seq<char>,
    sequence: u64,
    event: Event,
)
    requires
        gateway_url(shard.ws_url) == Some(url),
    ensures
        ({
            let outcomes = seq![
                RecoveryOutcome::Done,
                RecoveryOutcome::Done,
                RecoveryOutcome::Done,
                RecoveryOutcome::Received(GatewayEvent::Dispatch(sequence, event)),
            ];
            &&& recovery_accepts(shard, RecoveryView::Dropping(session_id), outcomes)
            &&& recovery_actions(shard, RecoveryView::Dropping(session_id), outcomes) == seq![
                RecoveryActionView::Drop,
                RecoveryActionView::Connect(url),
                RecoveryActionView::Send(
                    resume_json(session_id, shard.last_sequence, shard.token),
                ),
                RecoveryActionView::Receive,
            ]
            &&& recovered(shard, RecoveryView::Dropping(session_id), outcomes) == (
                shard.resumed(sequence, event),
                RecoveryStepView::Finish(Some(StatusView::ChangeSender), Ok(event)),
            )
        }),
{
    let outcomes = seq![
        RecoveryOutcome::Done,
        RecoveryOutcome::Done,
        RecoveryOutcome::Done,
        RecoveryOutcome::Received(GatewayEvent::Dispatch(sequence, event)),
    ];
    reveal_with_fuel(recovered, 6);
    reveal_with_fuel(recovery_actions, 6);
    reveal_with_fuel(recovery_accepts, 6);
    let first = outcomes.drop_first();
    let second = first.drop_first();
    let third = second.drop_first();
    assert(first[0] == outcomes[1] && second[0] == outcomes[2] && third[0] == outcomes[3]);
    assert(recovery_actions(shard, RecoveryView::Dropping(session_id), outcomes) =~= seq![
        RecoveryActionView::Drop,
        RecoveryActionView::Connect(url),
        RecoveryActionView::Send(resume_json(session_id, shard.last_sequence, shard.token)),
        RecoveryActionView::Receive,
    ]);
}

/// As often as the gateway ends the session that is being resumed, the shard
/// identifies itself again and waits on.
pub proof fn law_resume_identifies_again(shard: ShardView, rest: Seq<RecoveryOutcome>)
    ensures
        ({
            let outcomes = seq![
                RecoveryOutcome::Received(GatewayEvent::InvalidateSession),
                RecoveryOutcome::Done,
            ] + rest;
            &&& recovery_accepts(shard, RecoveryView::Awaiting, outcomes) == recovery_accepts(
                shard,
                RecoveryView::Awaiting,
                rest,
            )
            &&& recovery_actions(shard, RecoveryView::Awaiting, outcomes) == seq![
                RecoveryActionView::Receive,
                RecoveryActionView::Send(identify_json(shard.token, shard.shard_info, shard.os)),
            ] + recovery_actions(shard, RecoveryView::Awaiting, rest)
            &&& recovered(shard, RecoveryView::Awaiting, outcomes) == recovered(
                shard,
                RecoveryView::Awaiting,
                rest,
            )
        }),
{
    let outcomes = seq![
        RecoveryOutcome::Received(GatewayEvent::InvalidateSession),
        RecoveryOutcome::Done,
    ] + rest;
    let first = outcomes.drop_first();
    assert(first[0] == RecoveryOutcome::Done);
    assert(first.drop_first() =~= rest);
    reveal_with_fuel(recovered, 3);
    reveal_with_fuel(recovery_actions, 3);
    reveal_with_fuel(recovery_accepts, 3);
    assert(recovery_actions(shard, RecoveryView::Awaiting, outcomes) =~= seq![
        RecoveryActionView::Receive,
        RecoveryActionView::Send(identify_json(shard.token, shard.shard_info, shard.os)),
    ] + recovery_actions(shard, RecoveryView::Awaiting, rest));
}

/// Whatever fails while a session is being resumed, and whatever else is
/// received then, the shard is left as it was and is replaced instead.
pub proof fn law_failed_resume_is_followed_by_reconnect(
    shard: ShardView,
    state: RecoveryView,
    outcome: RecoveryOutcome,
)
    requires
        state.resumes(),
        state.accepts(outcome),
        match outcome {
            RecoveryOutcome::Received(event) => !(event is Dispatch) && !(event
                is InvalidateSession),
            _ => outcome is Failed,
        },
    ensures
        state.after(shard, outcome) == (
            shard,
            RecoveryStepView::Continue(RecoveryView::Opening(0)),
        ),
{
}

/// The resuming of a session is given up for an error exactly where the shard is
/// replaced instead, and for no error where the session goes on or is waited for.
pub proof fn law_given_up_resumes_have_an_error(
    shard: ShardView,
    state: RecoveryView,
    outcome: RecoveryOutcome,
)
    requires
        state.resumes(),
        state.accepts(outcome),
    ensures
        state.resume_failure(outcome, shard.url_error()) is Some <==> state.after(shard, outcome).1
            == RecoveryStepView::Continue(RecoveryView::Opening(0)),
{
}

/// While all attempts fail, the same shard is connected anew at the known
/// address three times, with a pause of a second after each time, and then once
/// at an address that is asked for. If that fails too, so does the recovery, and
/// the shard is left as it was.
pub proof fn law_reconnect_attempts(
    shard: ShardView,
    first: Error,
    second: Error,
    third: Error,
    last: Error,
)
    ensures
        ({
            let outcomes = seq![
                RecoveryOutcome::Failed(first),
                RecoveryOutcome::Done,
                RecoveryOutcome::Failed(second),
                RecoveryOutcome::Done,
                RecoveryOutcome::Failed(third),
                RecoveryOutcome::Done,
                RecoveryOutcome::Failed(last),
            ];
            &&& recovery_accepts(shard, RecoveryView::Opening(0), outcomes)
            &&& recovery_actions(shard, RecoveryView::Opening(0), outcomes) == seq![
                RecoveryActionView::Open(shard.reopened()),
                RecoveryActionView::Sleep(1),
                RecoveryActionView::Open(shard.reopened()),
                RecoveryActionView::Sleep(1),
                RecoveryActionView::Open(shard.reopened()),
                RecoveryActionView::Sleep(1),
                RecoveryActionView::Boot(shard.token, shard.login_type, shard.shard_info),
            ]
            &&& recovered(shard, RecoveryView::Opening(0), outcomes) == (
                shard,
                RecoveryStepView::Finish(None, Err(last)),
            )
        }),
{
    let outcomes = seq![
        RecoveryOutcome::Failed(first),
        RecoveryOutcome::Done,
        RecoveryOutcome::Failed(second),
        RecoveryOutcome::Done,
        RecoveryOutcome::Failed(third),
        RecoveryOutcome::Done,
        RecoveryOutcome::Failed(last),
    ];
    reveal_with_fuel(recovered, 9);
    reveal_with_fuel(recovery_actions, 9);
    reveal_with_fuel(recovery_accepts, 9);
    let o1 = outcomes.drop_first();
    let o2 = o1.drop_first();
    let o3 = o2.drop_first();
    let o4 = o3.drop_first();
    let o5 = o4.drop_first();
    let o6 = o5.drop_first();
    assert(o1[0] == outcomes[1] && o2[0] == outcomes[2] && o3[0] == outcomes[3] && o4[0]
        == outcomes[4] && o5[0] == outcomes[5] && o6[0] == outcomes[6]);
    assert(recovery_actions(shard, RecoveryView::Opening(0), outcomes) =~= seq![
        RecoveryActionView::Open(shard.reopened()),
        RecoveryActionView::Sleep(1),
        RecoveryActionView::Open(shard.reopened()),
        RecoveryActionView::Sleep(1),
        RecoveryActionView::Open(shard.reopened()),
        RecoveryActionView::Sleep(1),
        RecoveryActionView::Boot(shard.token, shard.login_type, shard.shard_info),
    ]);
}

/// Once a new shard is connected it takes the place of the old one, and stays
/// there even if the old connection cannot be closed. If it can, the new session
/// is handed on.
pub proof fn law_new_shards_replace_old_ones(
    shard: ShardView,
    state: RecoveryView,
    new: Shard,
    ready: ReadyEvent,
    error: Error,
)
    requires
        state is Opening || state is Booting,
    ensures
        recovered(
            shard,
            state,
            seq![RecoveryOutcome::Opened(new, ready), RecoveryOutcome::Done],
        ) == (
            new@.in_session(ready.ready.session_id@),
            RecoveryStepView::Finish(None, Ok(Event::Ready(ready))),
        ),
        recovered(
            shard,
            state,
            seq![RecoveryOutcome::Opened(new, ready), RecoveryOutcome::Failed(error)],
        ) == (new@, RecoveryStepView::Finish(None, Err(error))),
{
    let good = seq![RecoveryOutcome::Opened(new, ready), RecoveryOutcome::Done];
    let bad = seq![RecoveryOutcome::Opened(new, ready), RecoveryOutcome::Failed(error)];
    assert(good.drop_first()[0] == good[1]);
    assert(bad.drop_first()[0] == bad[1]);
    reveal_with_fuel(recovered, 3);
}

/// How many steps the replacement of a shard can take from `state` on.
pub open spec fn steps_left(state: RecoveryView) -> nat {
    match state {
        RecoveryView::Opening(failures) => (8 - 2 * failures) as nat,
        RecoveryView::Pausing(failures) => (9 - 2 * failures) as nat,
        RecoveryView::Booting => 2,
        _ => 1,
    }
}

/// The replacement of a shard comes to an end: after so many steps at most.
pub proof fn law_reconnect_ends(
    shard: ShardView,
    state: RecoveryView,
    outcomes: Seq<RecoveryOutcome>,
)
    requires
        state.valid(),
        !state.resumes(),
        recovery_accepts(shard, state, outcomes),
        outcomes.len() >= steps_left(state),
    ensures
        recovered(shard, state, outcomes).1 is Finish,
        steps_left(state) <= 8,
    decreases outcomes.len(),
{
    let (next_shard, step) = state.after(shard, outcomes[0]);
    match step {
        RecoveryStepView::Continue(next) => {
            law_reconnect_ends(next_shard, next, outcomes.drop_first());
        },
        RecoveryStepView::Finish(..) => {},
    }
}

/// How many of `actions` connect a new shard at the known address.
pub open spec fn attempts(actions: Seq<RecoveryActionView>) -> nat
    decreases actions.len(),
{
    if actions.len() == 0 {
        0
    } else {
        attempts(actions.drop_first()) + if actions[0] is Open {
            1nat
        } else {
            0nat
        }
    }
}

/// How many attempts at the known address are left in `state`.
pub open spec fn attempts_left(state: RecoveryView) -> nat {
    match state {
        RecoveryView::Opening(failures) => (RECONNECT_ATTEMPTS - failures) as nat,
        RecoveryView::Pausing(failures) => (RECONNECT_ATTEMPTS - failures) as nat,
        RecoveryView::Booting | RecoveryView::Retiring(_) => 0,
        _ => RECONNECT_ATTEMPTS as nat,
    }
}

/// No recovery, however it goes, makes more than three attempts at the known
/// address.
pub proof fn law_attempts_are_few(
    shard: ShardView,
    state: RecoveryView,
    outcomes: Seq<RecoveryOutcome>,
)
    requires
        state.valid(),
        recovery_accepts(shard, state, outcomes),
    ensures
        attempts(recovery_actions(shard, state, outcomes)) <= attempts_left(state),
        attempts_left(state) <= 3,
    decreases outcomes.len(),
{
    if outcomes.len() > 0 {
        let (next_shard, step) = state.after(shard, outcomes[0]);
        let actions = recovery_actions(shard, state, outcomes);
        match step {
            RecoveryStepView::Continue(next) => {
                law_attempts_are_few(next_shard, next, outcomes.drop_first());
                assert(actions.drop_first() =~= recovery_actions(
                    next_shard,
                    next,
                    outcomes.drop_first(),
                ));
            },
            RecoveryStepView::Finish(..) => {
                assert(actions.drop_first() =~= seq![]);
                assert(attempts(actions.drop_first()) == 0);
            },
        }
    }
}

/// A recovery that ends well leaves the shard in a session: where it ends with
/// the start of one, in that session. Where it starts by resuming, the shard has
/// to be in a session then.
pub proof fn law_recovered_shards_are_in_a_session(
    shard: ShardView,
    state: RecoveryView,
    outcomes: Seq<RecoveryOutcome>,
    event: Event,
)
    requires
        state.resumes() ==> shard.session_id is Some,
        recovered(shard, state, outcomes).1 matches RecoveryStepView::Finish(_, result) && result
            == Ok::<Event, Error>(event),
    ensures
        recovered(shard, state, outcomes).0.session_id is Some,
        event matches Event::Ready(ready) ==> recovered(shard, state, outcomes).0.session_id
            == Some(ready.ready.session_id@),
    decreases outcomes.len(),
{
    if outcomes.len() > 0 {
        let (next_shard, step) = state.after(shard, outcomes[0]);
        match step {
            RecoveryStepView::Continue(next) => {
                law_recovered_shards_are_in_a_session(
                    next_shard,
                    next,
                    outcomes.drop_first(),
                    event,
                );
            },
            RecoveryStepView::Finish(..) => {},
        }
    }
}

/// Unless a new shard takes its place, a recovery changes nothing of a shard but
/// its session and the place of the last message.
pub proof fn law_recovery_keeps_the_shard(
    shard: ShardView,
    state: RecoveryView,
    outcomes: Seq<RecoveryOutcome>,
)
    requires
        forall|i: int| 0 <= i < outcomes.len() ==> !(#[trigger] outcomes[i] is Opened),
    ensures
        recovered(shard, state, outcomes).0 == (ShardView {
            session_id: recovered(shard, state, outcomes).0.session_id,
            last_sequence: recovered(shard, state, outcomes).0.last_sequence,
            ..shard
        }),
    decreases outcomes.len(),
{
    if outcomes.len() > 0 {
        let (next_shard, step) = state.after(shard, outcomes[0]);
        match step {
            RecoveryStepView::Continue(next) => {
                assert forall|i: int| 0 <= i < outcomes.drop_first().len() implies !(
                #[trigger] outcomes.drop_first()[i] is Opened) by {
                    assert(outcomes.drop_first()[i] == outcomes[i + 1]);
                }
                law_recovery_keeps_the_shard(next_shard, next, outcomes.drop_first());
            },
            RecoveryStepView::Finish(..) => {},
        }
    }
}

} // verus!
