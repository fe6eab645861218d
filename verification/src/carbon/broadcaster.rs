//! What the hub broadcaster's mailbox holds: one message per request, to
//! be signed and sent in the order of arrival.

use crate::util::carbon::msg::{type_url_of, MsgPruneExpiredPendingActions, MsgStartRelay};
use vstd::prelude::*;

verus! {

/// Requests that the mailbox holds at most.
pub const MAILBOX_CAPACITY: usize = 100;

/// A message of the relayer to the hub.
#[derive(Debug)]
pub enum HubMessage {
    StartRelay(MsgStartRelay),
    PruneExpiredPendingActions(MsgPruneExpiredPendingActions),
}

/// A request to the broadcaster. The answer travels back on a channel of
/// its own, which is not part of this value.
#[derive(Debug)]
pub struct BroadcastRequest {
    pub msg: HubMessage,
}

impl HubMessage {
    /// The name of the message's kind.
    pub open spec fn kind_name(&self) -> Seq<char> {
        match self {
            HubMessage::StartRelay(_) => "MsgStartRelay"@,
            HubMessage::PruneExpiredPendingActions(_) => "MsgPruneExpiredPendingActions"@,
        }
    }

    /// The type URL under which the message travels.
    pub fn type_url(&self) -> (r: String)
        ensures
            r@ == type_url_of(self.kind_name()),
    {
        match self {
            HubMessage::StartRelay(_) => MsgStartRelay::type_url(),
            HubMessage::PruneExpiredPendingActions(_) => MsgPruneExpiredPendingActions::type_url(),
        }
    }
}

} // verus!
