//! What holds of the session of a shard.

use vstd::prelude::*;

use crate::constants::CLOSE_NORMAL;
use crate::error::{Error, GatewayError};
use crate::events::NextView;
use crate::model::GatewayEvent;
use crate::recovery::RecoveryView;
use crate::shard::ShardView;

verus! {

/// The shard after the messages and errors `events`, none of which was followed
/// by a recovery.
pub open spec fn after_events(
    shard: ShardView,
    events: Seq<Result<GatewayEvent, Error>>,
) -> ShardView
    decreases events.len(),
{
    if events.len() == 0 {
        shard
    } else {
        after_events(shard, events.drop_last()).after_event(events.last())
    }
}

/// Messages and errors change nothing of a shard but that its session is over
/// once one of them says so.
pub proof fn law_events_end_sessions_only(
    shard: ShardView,
    events: Seq<Result<GatewayEvent, Error>>,
)
    ensures
        after_events(shard, events) == (ShardView {
            session_id: if events.contains(Ok(GatewayEvent::InvalidateSession)) {
                None
            } else {
                shard.session_id
            },
            ..shard
        }),
    decreases events.len(),
{
    let end = Ok::<GatewayEvent, Error>(GatewayEvent::InvalidateSession);
    if events.len() > 0 {
        let before = events.drop_last();
        law_events_end_sessions_only(shard, before);
        if before.contains(end) {
            let k = choose|k: int| 0 <= k < before.len() && before[k] == end;
            assert(events[k] == end);
        }
        if events.contains(end) && events.last() != end {
            let k = choose|k: int| 0 <= k < events.len() && events[k] == end;
            assert(before[k] == end);
        }
        if events.last() == end {
            assert(events[events.len() - 1] == end);
        }
    }
}

/// A session that the gateway ended is never resumed: whatever came since and
/// however the connection is lost, the shard is replaced.
pub proof fn law_ended_sessions_are_not_resumed(
    shard: ShardView,
    events: Seq<Result<GatewayEvent, Error>>,
    loss: Result<GatewayEvent, Error>,
)
    requires
        events.contains(Ok(GatewayEvent::InvalidateSession)),
    ensures
        after_events(shard, events).event_next(loss) is Recover ==> after_events(
            shard,
            events,
        ).event_next(loss) == NextView::Recover(RecoveryView::Opening(0)),
{
    law_events_end_sessions_only(shard, events);
}

/// Where a recovery starts by resuming, it resumes the session that the shard is
/// in.
pub proof fn law_own_sessions_are_resumed(shard: ShardView, loss: Result<GatewayEvent, Error>)
    ensures
        shard.event_next(loss) matches NextView::Recover(state) ==> state.resumes() ==> {
            &&& shard.after_event(loss).session_id matches Some(session_id)
            &&& state == RecoveryView::Dropping(session_id)
        },
{
}

/// A session is not resumed after the gateway closed the connection normally.
pub proof fn law_normal_close_is_not_resumed(shard: ShardView, reason: String)
    ensures
        shard.event_next(Err(Error::Gateway(GatewayError::Closed(Some(CLOSE_NORMAL), reason))))
            == NextView::Recover(RecoveryView::Opening(0)),
{
}

/// A session that is not over is resumed after any other close, and after a
/// failure of the websocket.
pub proof fn law_lost_sessions_are_resumed(
    shard: ShardView,
    session_id: Seq<char>,
    code: Option<u16>,
    reason: String,
)
    requires
        shard.session_id == Some(session_id),
    ensures
        code != Some(CLOSE_NORMAL) ==> shard.event_next(
            Err(Error::Gateway(GatewayError::Closed(code, reason))),
        ) == NextView::Recover(RecoveryView::Dropping(session_id)),
        shard.event_next(Err(Error::WebSocket(reason))) == NextView::Recover(
            RecoveryView::Dropping(session_id),
        ),
{
}

} // verus!
