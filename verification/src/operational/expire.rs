//! The operator's request to prune expired pending actions on the hub.

use crate::conf::Carbon;
use crate::util::carbon::msg::MsgPruneExpiredPendingActions;
use vstd::prelude::*;

verus! {

/// The message that asks the hub, in the relayer's name, to prune the
/// pending actions `nonces`.
pub fn expire_pending_actions(carbon_config: &Carbon, nonces: Vec<u64>) -> (r:
    MsgPruneExpiredPendingActions)
    ensures
        r.creator@ == carbon_config.relayer_address@,
        r.nonces@ == nonces@,
{
    MsgPruneExpiredPendingActions { creator: carbon_config.relayer_address.clone(), nonces }
}

} // verus!
