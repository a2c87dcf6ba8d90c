//! What a shard tells the thread that keeps its connection alive.

use serde_json::Value;
use vstd::prelude::*;

use crate::json::{json_of, Json};

verus! {

/// A notice to the thread that keeps a connection alive.
#[derive(Debug, PartialEq)]
pub enum GatewayStatus {
    /// The time between two heartbeats is another one, in milliseconds.
    ChangeInterval(u64),
    /// Messages go to the connection that was opened last.
    ChangeSender,
    /// A message is to be sent.
    SendMessage(Value),
    /// The last message was at this place in their order.
    Sequence(u64),
}

/// What a notice says.
pub enum StatusView {
    ChangeInterval(u64),
    ChangeSender,
    SendMessage(Json),
    Sequence(u64),
}

impl View for GatewayStatus {
    type V = StatusView;

    open spec fn view(&self) -> StatusView {
        match self {
            GatewayStatus::ChangeInterval(interval) => StatusView::ChangeInterval(*interval),
            GatewayStatus::ChangeSender => StatusView::ChangeSender,
            GatewayStatus::SendMessage(message) => StatusView::SendMessage(json_of(*message)),
            GatewayStatus::Sequence(sequence) => StatusView::Sequence(*sequence),
        }
    }
}

/// What notices say, in their order.
pub open spec fn notices(statuses: Seq<GatewayStatus>) -> Seq<StatusView> {
    statuses.map_values(|status: GatewayStatus| status@)
}

} // verus!
