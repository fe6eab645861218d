//! Wire shapes of the hub's bridge module: its state records and the
//! messages that its transactions carry.

use vstd::prelude::*;

verus! {

/// An amount of one denomination, the amount written in decimal.
#[derive(Clone, Debug, PartialEq, Default)]
pub struct Coin {
    pub denom: String,
    pub amount: String,
}

/// A bridge and whether it is switched on.
#[derive(Clone, Debug, PartialEq, Default)]
pub struct BridgeState {
    pub id: u64,
    pub name: String,
    pub is_enabled: bool,
}

/// One connection of a bridge to an external chain.
#[derive(Clone, Debug, PartialEq, Default)]
pub struct Connection {
    pub connection_id: String,
    pub bridge_id: u64,
    pub chain_id: String,
    pub chain_display_name: String,
    pub gateway_address: String,
    pub encoding: String,
    pub escrow_address: String,
    pub is_enabled: bool,
}

/// The controller contracts of a connection.
#[derive(Clone, Debug, PartialEq, Default)]
pub struct ControllerContracts {
    pub id: String,
    pub token_controller: String,
}

/// The controller addresses to replace; an absent one is left as it is.
#[derive(Clone, Debug, PartialEq, Default)]
pub struct ControllersToUpdate {
    pub token_controller: Option<String>,
}

/// An external token of a connection and the native denom it stands for.
#[derive(Clone, Debug, PartialEq, Default)]
pub struct ExternalTokenMapping {
    pub connection_id: String,
    pub is_enabled: bool,
    pub is_carbon_owned: bool,
    pub external_address: String,
    pub denom: String,
}

/// A contract on an external chain that the hub may execute.
#[derive(Clone, Debug, PartialEq, Default)]
pub struct ExecutableContract {
    pub connection_id: String,
    pub address: String,
}

/// The relay fee and block heights that the hub keeps for a pending action.
#[derive(Clone, Debug, PartialEq, Default)]
pub struct RelayDetails {
    pub fee_receiver_address: String,
    pub fee_sender_address: String,
    pub fee: Option<Coin>,
    pub block_created_at: i64,
    pub block_sent_at: Option<i64>,
}

/// The parameters of the bridge module.
#[derive(Clone, Debug, PartialEq, Default)]
pub struct Params {
    pub axelar_ibc_channel: String,
    pub ibc_timeout_height_offset: u64,
    pub relay_whitelist_duration: i64,
    pub relay_expiry_duration: i64,
}

#[derive(Clone, Debug, PartialEq, Default)]
pub struct MsgSetBridgeEnabled {
    pub creator: String,
    pub bridge_id: u64,
    pub is_enabled: bool,
}

/// The hub's reply to `MsgSetBridgeEnabled`.
#[derive(Clone, Debug, PartialEq, Default)]
pub struct MsgSetBridgeEnabledResponse {}

#[derive(Clone, Debug, PartialEq, Default)]
pub struct MsgUpdateAxelarIbcChannel {
    pub creator: String,
    pub channel_id: String,
}

/// The hub's reply to `MsgUpdateAxelarIbcChannel`.
#[derive(Clone, Debug, PartialEq, Default)]
pub struct MsgUpdateAxelarIbcChannelResponse {}

#[derive(Clone, Debug, PartialEq, Default)]
pub struct MsgUpdateIbcTimeoutHeightOffset {
    pub creator: String,
    pub offset: u64,
}

/// The hub's reply to `MsgUpdateIbcTimeoutHeightOffset`.
#[derive(Clone, Debug, PartialEq, Default)]
pub struct MsgUpdateIbcTimeoutHeightOffsetResponse {}

#[derive(Clone, Debug, PartialEq, Default)]
pub struct MsgUpdateRelayExpiry {
    pub creator: String,
    pub expiry: i64,
}

/// The hub's reply to `MsgUpdateRelayExpiry`.
#[derive(Clone, Debug, PartialEq, Default)]
pub struct MsgUpdateRelayExpiryResponse {}

#[derive(Clone, Debug, PartialEq, Default)]
pub struct MsgUpdateRelayWhitelistDuration {
    pub creator: String,
    pub whitelist_duration: i64,
}

/// The hub's reply to `MsgUpdateRelayWhitelistDuration`.
#[derive(Clone, Debug, PartialEq, Default)]
pub struct MsgUpdateRelayWhitelistDurationResponse {}

#[derive(Clone, Debug, PartialEq, Default)]
pub struct MsgUpdateParams {
    pub authority: String,
    pub params: Option<Params>,
}

/// The hub's reply to `MsgUpdateParams`.
#[derive(Clone, Debug, PartialEq, Default)]
pub struct MsgUpdateParamsResponse {}

#[derive(Clone, Debug, PartialEq, Default)]
pub struct MsgAxelarSendToken {
    pub creator: String,
    pub destination_chain: String,
    pub destination_address: String,
    pub tokens: Option<Coin>,
}

/// The hub's reply to `MsgAxelarSendToken`.
#[derive(Clone, Debug, PartialEq, Default)]
pub struct MsgAxelarSendTokenResponse {}

#[derive(Clone, Debug, PartialEq, Default)]
pub struct MsgAxelarCallContract {
    pub creator: String,
    pub destination_chain: String,
    pub destination_address: String,
    pub payload: Vec<u8>,
}

/// The hub's reply to `MsgAxelarCallContract`.
#[derive(Clone, Debug, PartialEq, Default)]
pub struct MsgAxelarCallContractResponse {}

#[derive(Clone, Debug, PartialEq, Default)]
pub struct MsgAxelarCallContractWithToken {
    pub creator: String,
    pub destination_chain: String,
    pub destination_address: String,
    pub tokens: Option<Coin>,
    pub payload: Vec<u8>,
}

/// The hub's reply to `MsgAxelarCallContractWithToken`.
#[derive(Clone, Debug, PartialEq, Default)]
pub struct MsgAxelarCallContractWithTokenResponse {}

#[derive(Clone, Debug, PartialEq, Default)]
pub struct MsgCreateConnection {
    pub creator: String,
    pub bridge_id: u64,
    pub chain_id: String,
    pub chain_display_name: String,
    pub token_gateway_address: String,
    pub encoding: String,
    pub is_enabled: bool,
}

/// The hub's reply to `MsgCreateConnection`.
#[derive(Clone, Debug, PartialEq, Default)]
pub struct MsgCreateConnectionResponse {}

#[derive(Clone, Debug, PartialEq, Default)]
pub struct MsgUpdateConnection {
    pub creator: String,
    pub connection_id: String,
    pub update_connection_params: Option<UpdateConnectionParams>,
}

/// The connection attributes to replace; an absent one is left as it is.
#[derive(Clone, Debug, PartialEq, Default)]
pub struct UpdateConnectionParams {
    pub chain_display_name: Option<String>,
    pub is_enabled: Option<bool>,
}

/// The hub's reply to `MsgUpdateConnection`.
#[derive(Clone, Debug, PartialEq, Default)]
pub struct MsgUpdateConnectionResponse {}

#[derive(Clone, Debug, PartialEq, Default)]
pub struct MsgRemoveConnection {
    pub creator: String,
    pub connection_id: String,
}

/// The hub's reply to `MsgRemoveConnection`.
#[derive(Clone, Debug, PartialEq, Default)]
pub struct MsgRemoveConnectionResponse {}

#[derive(Clone, Debug, PartialEq, Default)]
pub struct MsgAddControllersForConnection {
    pub creator: String,
    pub controllers: Option<ControllerContracts>,
}

/// The hub's reply to `MsgAddControllersForConnection`.
#[derive(Clone, Debug, PartialEq, Default)]
pub struct MsgAddControllersForConnectionResponse {}

#[derive(Clone, Debug, PartialEq, Default)]
pub struct MsgUpdateControllersForConnection {
    pub creator: String,
    pub connection_id: String,
    pub controllers: Option<ControllersToUpdate>,
}

/// The hub's reply to `MsgUpdateControllersForConnection`.
#[derive(Clone, Debug, PartialEq, Default)]
pub struct MsgUpdateControllersForConnectionResponse {}

#[derive(Clone, Debug, PartialEq, Default)]
pub struct MsgRemoveControllersForConnection {
    pub creator: String,
    pub connection_id: String,
}

/// The hub's reply to `MsgRemoveControllersForConnection`.
#[derive(Clone, Debug, PartialEq, Default)]
pub struct MsgRemoveControllersForConnectionResponse {}

#[derive(Clone, Debug, PartialEq, Default)]
pub struct MsgRemoveNonceMapForConnection {
    pub creator: String,
    pub connection_id: String,
    pub gateway_address: String,
}

/// The hub's reply to `MsgRemoveNonceMapForConnection`.
#[derive(Clone, Debug, PartialEq, Default)]
pub struct MsgRemoveNonceMapForConnectionResponse {}

#[derive(Clone, Debug, PartialEq, Default)]
pub struct MsgRegisterExternalToken {
    pub creator: String,
    pub connection_id: String,
    pub asset_address: String,
    pub decimals: Option<i64>,
    pub carbon_token_name: String,
    pub relay_fee: Option<Coin>,
}

/// The hub's reply to `MsgRegisterExternalToken`.
#[derive(Clone, Debug, PartialEq, Default)]
pub struct MsgRegisterExternalTokenResponse {}

#[derive(Clone, Debug, PartialEq, Default)]
pub struct MsgDeregisterExternalToken {
    pub creator: String,
    pub connection_id: String,
    pub denom: String,
}

/// The hub's reply to `MsgDeregisterExternalToken`.
#[derive(Clone, Debug, PartialEq, Default)]
pub struct MsgDeregisterExternalTokenResponse {}

#[derive(Clone, Debug, PartialEq, Default)]
pub struct MsgDeployNativeToken {
    pub creator: String,
    pub connection_id: String,
    pub denom: String,
    pub relay_fee: Option<Coin>,
}

/// The hub's reply to `MsgDeployNativeToken`.
#[derive(Clone, Debug, PartialEq, Default)]
pub struct MsgDeployNativeTokenResponse {}

#[derive(Clone, Debug, PartialEq, Default)]
pub struct MsgRegisterDeployedToken {
    pub creator: String,
    pub connection_id: String,
    pub token_address: String,
    pub denom: String,
}

/// The hub's reply to `MsgRegisterDeployedToken`.
#[derive(Clone, Debug, PartialEq, Default)]
pub struct MsgRegisterDeployedTokenResponse {}

#[derive(Clone, Debug, PartialEq, Default)]
pub struct MsgWithdrawToken {
    pub creator: String,
    pub connection_id: String,
    pub receiver: String,
    pub tokens: Option<Coin>,
    pub relay_fee: Option<Coin>,
}

/// The hub's reply to `MsgWithdrawToken`.
#[derive(Clone, Debug, PartialEq, Default)]
pub struct MsgWithdrawTokenResponse {}

#[derive(Clone, Debug, PartialEq, Default)]
pub struct MsgUpdateExternalToken {
    pub creator: String,
    pub connection_id: String,
    pub asset_address: String,
    pub token_name: String,
    pub decimals: i64,
    pub is_carbon_owned: bool,
}

/// The hub's reply to `MsgUpdateExternalToken`.
#[derive(Clone, Debug, PartialEq, Default)]
pub struct MsgUpdateExternalTokenResponse {}

#[derive(Clone, Debug, PartialEq, Default)]
pub struct MsgDeleteExternalToken {
    pub creator: String,
    pub connection_id: String,
    pub denom: String,
}

/// The hub's reply to `MsgDeleteExternalToken`.
#[derive(Clone, Debug, PartialEq, Default)]
pub struct MsgDeleteExternalTokenResponse {}

#[derive(Clone, Debug, PartialEq, Default)]
pub struct MsgExecuteFromCarbon {
    pub creator: String,
    pub connection_id: String,
    pub execution_contract: String,
    pub method: String,
    pub execution_bytes: Vec<u8>,
    pub tokens: Option<Coin>,
    pub relay_fee: Option<Coin>,
}

/// The hub's reply to `MsgExecuteFromCarbon`.
#[derive(Clone, Debug, PartialEq, Default)]
pub struct MsgExecuteFromCarbonResponse {}

/// Claims the relay of the pending action with the given nonce.
#[derive(Clone, Debug, PartialEq, Default)]
pub struct MsgStartRelay {
    pub relayer: String,
    pub nonce: u64,
}

/// The hub's reply to `MsgStartRelay`.
#[derive(Clone, Debug, PartialEq, Default)]
pub struct MsgStartRelayResponse {}

/// Asks the hub to prune the pending actions with the given nonces, which have expired.
#[derive(Clone, Debug, PartialEq, Default)]
pub struct MsgPruneExpiredPendingActions {
    pub creator: String,
    pub nonces: Vec<u64>,
}

/// The hub's reply to `MsgPruneExpiredPendingActions`.
#[derive(Clone, Debug, PartialEq, Default)]
pub struct MsgPruneExpiredPendingActionsResponse {}

} // verus!
