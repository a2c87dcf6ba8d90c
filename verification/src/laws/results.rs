//! What is handed out says what it holds.

use vstd::prelude::*;

use crate::error::Error;
use crate::events::{Next, NextView};
use crate::handshake::{
    Handshake, HandshakeAction, HandshakeActionView, HandshakeStep, HandshakeStepView,
};
use crate::json::json_of;
use crate::model::{Event, Game, LoginType, ReadyEvent};
use crate::payload::game_name;
use crate::recovery::{Recovery, RecoveryAction, RecoveryActionView, RecoveryStep, RecoveryStepView};
use crate::shard::Shard;
use crate::status::{notices, GatewayStatus, StatusView};

verus! {

/// A notice says the number or the message that it holds.
pub proof fn law_notices_say_what_they_hold(number: u64, message: serde_json::Value)
    ensures
        GatewayStatus::ChangeInterval(number)@ == StatusView::ChangeInterval(number),
        GatewayStatus::ChangeSender@ == StatusView::ChangeSender,
        GatewayStatus::SendMessage(message)@ == StatusView::SendMessage(json_of(message)),
        GatewayStatus::Sequence(number)@ == StatusView::Sequence(number),
{
}

/// Several notices say what each of them says, in their order.
pub proof fn law_notices_are_in_order(statuses: Seq<GatewayStatus>)
    ensures
        notices(statuses).len() == statuses.len(),
        forall|i: int| 0 <= i < statuses.len() ==> #[trigger] notices(statuses)[i] == statuses[i]@,
{
}

/// A game is known by its name, and no game by none.
pub proof fn law_games_are_known_by_their_names(game: Game)
    ensures
        game_name(Some(game)) == Some(game.name@),
        game_name(None) is None,
{
}

/// What comes after a message or an error says the result or the recovery that it
/// holds.
pub proof fn law_what_is_next_says_what_it_holds(
    result: Result<Option<Event>, Error>,
    recovery: Recovery,
)
    ensures
        Next::Return(result)@ == NextView::Return(result),
        Next::Recover(recovery)@ == NextView::Recover(recovery@),
{
}

/// An action of a handshake says the text, the message or the number that it
/// holds.
pub proof fn law_handshake_actions_say_what_they_hold(
    text: String,
    message: serde_json::Value,
    number: u64,
)
    ensures
        HandshakeAction::Connect(text)@ == HandshakeActionView::Connect(text@),
        HandshakeAction::Send(message)@ == HandshakeActionView::Send(json_of(message)),
        HandshakeAction::Receive@ == HandshakeActionView::Receive,
        HandshakeAction::StartKeepalive(number, text)@ == HandshakeActionView::StartKeepalive(
            number,
            text@,
        ),
{
}

/// A step of a handshake says what it holds.
pub proof fn law_handshake_steps_say_what_they_hold(
    handshake: Handshake,
    notice: GatewayStatus,
    shard: Shard,
    ready: ReadyEvent,
    error: Error,
)
    ensures
        HandshakeStep::Continue(handshake, Some(notice))@ == HandshakeStepView::Continue(
            handshake@,
            Some(notice@),
        ),
        HandshakeStep::Continue(handshake, None)@ == HandshakeStepView::Continue(handshake@, None),
        HandshakeStep::Established(shard, ready)@ == HandshakeStepView::Established(shard@, ready),
        HandshakeStep::Failed(error)@ == HandshakeStepView::Failed(error),
{
}

/// An action of a recovery says what it holds.
pub proof fn law_recovery_actions_say_what_they_hold(
    text: String,
    message: serde_json::Value,
    number: u64,
    handshake: Handshake,
    error: Error,
    login_type: LoginType,
    shard_info: Option<[u8; 2]>,
)
    ensures
        RecoveryAction::Drop@ == RecoveryActionView::Drop,
        RecoveryAction::Connect(text)@ == RecoveryActionView::Connect(text@),
        RecoveryAction::Send(message)@ == RecoveryActionView::Send(json_of(message)),
        RecoveryAction::Receive@ == RecoveryActionView::Receive,
        RecoveryAction::Open(Ok(handshake))@ == RecoveryActionView::Open(Ok(handshake@)),
        RecoveryAction::Open(Err(error))@ == RecoveryActionView::Open(Err(error)),
        RecoveryAction::Sleep(number)@ == RecoveryActionView::Sleep(number),
        RecoveryAction::Boot(text, login_type, shard_info)@ == RecoveryActionView::Boot(
            text@,
            login_type,
            shard_info,
        ),
        RecoveryAction::Retire@ == RecoveryActionView::Retire,
{
}

/// A step of a recovery says what it holds.
pub proof fn law_recovery_steps_say_what_they_hold(
    recovery: Recovery,
    notice: GatewayStatus,
    result: Result<Event, Error>,
)
    ensures
        RecoveryStep::Continue(recovery)@ == RecoveryStepView::Continue(recovery@),
        RecoveryStep::Finish(Some(notice), result)@ == RecoveryStepView::Finish(
            Some(notice@),
            result,
        ),
        RecoveryStep::Finish(None, result)@ == RecoveryStepView::Finish(None, result),
{
}

} // verus!
