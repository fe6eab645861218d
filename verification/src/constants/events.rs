//! Event type names of the hub and of the gateway contract.

use vstd::prelude::*;

verus! {

pub const CARBON_BRIDGE_PENDING_ACTION_EVENT: &'static str = "Switcheo.carbon.bridge.PendingActionEvent";

pub const CARBON_BRIDGE_EXPIRED_PENDING_ACTION_EVENT: &'static str =
    "Switcheo.carbon.bridge.ExpiredPendingActionEvent";

pub const CARBON_BRIDGE_REVERT_EVENT: &'static str = "Switcheo.carbon.bridge.BridgeRevertedEvent";

pub const CARBON_AXELAR_CALL_CONTRACT_EVENT: &'static str = "Switcheo.carbon.bridge.AxelarCallContractEvent";

pub const EVM_CONTRACT_CALL_APPROVED_EVENT: &'static str = "ContractCallApproved";

/// The signature of the gateway's approval event, whose Keccak-256 digest
/// is the first topic of its logs.
pub const EVM_CONTRACT_CALL_APPROVED_SIGNATURE: &'static str =
    "ContractCallApproved(bytes32,string,string,address,bytes32,bytes32,uint256)";

} // verus!
