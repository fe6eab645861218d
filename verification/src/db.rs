//! The rows of the event store and the values they are made of.

use crate::codec::{hex_decode, hex_decoded, hex_encode_prefixed, hex_prefixed, keccak256, keccak256_digest};
use crate::decimal::{decimal_text, lemma_u64_text_round_trip, parse_u64, parsed_u64, u64_to_string};
use crate::json::{lemma_field_index_unique, Json, JsonTree};
use crate::text::{is_prefix, starts_with, str_equal};
use crate::util::datetime::{rfc3339_text, time_difference_str, timestamp_of_text, Timestamp};
use vstd::prelude::*;

pub mod evm_events;
pub mod store;

verus! {

/// What a pending action asks the bridge to do. The numbers are the hub's
/// wire values.
#[derive(Clone, Copy, Debug, PartialEq, Eq, Structural)]
pub enum PendingActionType {
    PendingRegisterTokenType,
    PendingDeregisterTokenType,
    PendingDeployNativeTokenType,
    PendingWithdrawAndExecuteType,
    PendingWithdrawType,
    PendingExecuteType,
}

/// Why a value of this module could not be made.
#[derive(Clone, Copy, Debug, PartialEq, Eq, Structural)]
pub enum DbError {
    /// No action type has this method prefix.
    InvalidActionTypePrefix,
    /// No action type has this wire value.
    InvalidActionTypeValue,
    /// No broadcast status has this name.
    InvalidBroadcastStatus,
}

/// How far the broadcast of an approved call has come.
#[derive(Clone, Copy, Debug, PartialEq, Eq, Structural)]
pub enum BroadcastStatus {
    PendingBroadcast,
    Broadcasting,
    Executed,
    Failed,
}

/// An amount of one denomination.
#[derive(Debug, PartialEq)]
pub struct Coin {
    pub denom: String,
    pub amount: u64,
}

pub ghost struct CoinView {
    pub denom: Seq<char>,
    pub amount: u64,
}

/// The fee that rides on a pending action and the times that bound its relay.
#[derive(Debug, PartialEq)]
pub struct RelayDetails {
    pub fee_receiver_address: String,
    pub fee_sender_address: String,
    pub fee: Coin,
    pub expiry_block_time: Timestamp,
    pub created_at: Timestamp,
    pub sent_at: Option<Timestamp>,
}

pub ghost struct RelayDetailsView {
    pub fee_receiver_address: Seq<char>,
    pub fee_sender_address: Seq<char>,
    pub fee: CoinView,
    pub expiry_block_time: Timestamp,
    pub created_at: Timestamp,
    pub sent_at: Option<Timestamp>,
}

/// A request of the hub that waits for its relay to be started.
#[derive(Debug, PartialEq)]
pub struct DbPendingActionEvent {
    pub id: i32,
    pub connection_id: String,
    pub bridge_id: String,
    pub chain_id: String,
    pub nonce: i64,
    pub pending_action_type: i32,
    pub retry_count: i32,
    pub relay_details: RelayDetails,
}

pub ghost struct PendingActionView {
    pub id: i32,
    pub connection_id: Seq<char>,
    pub bridge_id: Seq<char>,
    pub chain_id: Seq<char>,
    pub nonce: i64,
    pub pending_action_type: i32,
    pub retry_count: i32,
    pub relay_details: RelayDetailsView,
}

/// The hub's notice that a pending action has expired.
#[derive(Debug, PartialEq)]
pub struct ExpiredPendingActionEvent {
    pub nonce: i64,
    pub pending_action_type: i32,
    pub connection_id: String,
    pub relay_details: RelayDetails,
}

/// The hub's notice that the bridge has acknowledged an action.
#[derive(Clone, Debug, PartialEq)]
pub struct BridgeAcknowledgedEvent {
    pub id: i32,
    pub bridge_id: String,
    pub chain_id: String,
    pub gateway_address: String,
    pub nonce: i64,
}

/// The hub's notice that the bridge has reverted an action.
#[derive(Clone, Debug, PartialEq)]
pub struct BridgeRevertedEvent {
    pub id: i32,
    pub bridge_id: String,
    pub chain_id: String,
    pub gateway_address: String,
    pub nonce: i64,
}

/// A payload that the hub handed to the messaging layer, with its hash.
/// `payload` and `payload_hash` are hexadecimal text with an `0x` prefix.
#[derive(Debug, PartialEq)]
pub struct DbAxelarCallContractEvent {
    pub id: i32,
    pub nonce: i64,
    pub payload_hash: String,
    pub payload: String,
    pub payload_encoding: String,
}

pub ghost struct AxelarCallView {
    pub id: i32,
    pub nonce: i64,
    pub payload_hash: Seq<char>,
    pub payload: Seq<char>,
    pub payload_encoding: Seq<char>,
}

/// A call that the gateway of a destination chain has approved.
/// `source_event_index` is a decimal number of up to 256 bits.
#[derive(Debug, PartialEq)]
pub struct DbContractCallApprovedEvent {
    pub id: i32,
    pub blockchain: String,
    pub broadcast_status: BroadcastStatus,
    pub command_id: String,
    pub source_chain: String,
    pub source_address: String,
    pub contract_address: String,
    pub payload_hash: String,
    pub source_tx_hash: String,
    pub source_event_index: String,
    pub payload: String,
}

pub ghost struct ApprovedCallView {
    pub id: i32,
    pub blockchain: Seq<char>,
    pub broadcast_status: BroadcastStatus,
    pub command_id: Seq<char>,
    pub source_chain: Seq<char>,
    pub source_address: Seq<char>,
    pub contract_address: Seq<char>,
    pub payload_hash: Seq<char>,
    pub source_tx_hash: Seq<char>,
    pub source_event_index: Seq<char>,
    pub payload: Seq<char>,
}

impl PendingActionType {
    /// The wire value of an action type.
    pub open spec fn code(self) -> i32 {
        match self {
            PendingActionType::PendingRegisterTokenType => 0,
            PendingActionType::PendingDeregisterTokenType => 1,
            PendingActionType::PendingDeployNativeTokenType => 2,
            PendingActionType::PendingWithdrawAndExecuteType => 3,
            PendingActionType::PendingWithdrawType => 4,
            PendingActionType::PendingExecuteType => 5,
        }
    }

    /// The action type with the given wire value.
    pub open spec fn of_code(value: i32) -> Option<PendingActionType> {
        if value == 0 {
            Some(PendingActionType::PendingRegisterTokenType)
        } else if value == 1 {
            Some(PendingActionType::PendingDeregisterTokenType)
        } else if value == 2 {
            Some(PendingActionType::PendingDeployNativeTokenType)
        } else if value == 3 {
            Some(PendingActionType::PendingWithdrawAndExecuteType)
        } else if value == 4 {
            Some(PendingActionType::PendingWithdrawType)
        } else if value == 5 {
            Some(PendingActionType::PendingExecuteType)
        } else {
            None
        }
    }

    /// The action type that a method name of the hub stands for. The three
    /// token administration methods are matched whole; withdrawals and
    /// executions by how the name begins, the longer beginning first.
    pub open spec fn of_prefix(prefix: Seq<char>) -> Option<PendingActionType> {
        if prefix == "register_token"@ {
            Some(PendingActionType::PendingRegisterTokenType)
        } else if prefix == "deregister_token"@ {
            Some(PendingActionType::PendingDeregisterTokenType)
        } else if prefix == "deploy_native_token"@ {
            Some(PendingActionType::PendingDeployNativeTokenType)
        } else if is_prefix("withdraw_and_execute"@, prefix) {
            Some(PendingActionType::PendingWithdrawAndExecuteType)
        } else if is_prefix("withdraw"@, prefix) {
            Some(PendingActionType::PendingWithdrawType)
        } else if is_prefix("execute"@, prefix) {
            Some(PendingActionType::PendingExecuteType)
        } else {
            None
        }
    }

    pub fn from_prefix(prefix: &str) -> (r: Result<PendingActionType, DbError>)
        ensures
            match r {
                Ok(t) => PendingActionType::of_prefix(prefix@) == Some(t),
                Err(e) => e == DbError::InvalidActionTypePrefix && PendingActionType::of_prefix(
                    prefix@,
                ) is None,
            },
    {
        if str_equal(prefix, "register_token") {
            Ok(PendingActionType::PendingRegisterTokenType)
        } else if str_equal(prefix, "deregister_token") {
            Ok(PendingActionType::PendingDeregisterTokenType)
        } else if str_equal(prefix, "deploy_native_token") {
            Ok(PendingActionType::PendingDeployNativeTokenType)
        } else if starts_with(prefix, "withdraw_and_execute") {
            Ok(PendingActionType::PendingWithdrawAndExecuteType)
        } else if starts_with(prefix, "withdraw") {
            Ok(PendingActionType::PendingWithdrawType)
        } else if starts_with(prefix, "execute") {
            Ok(PendingActionType::PendingExecuteType)
        } else {
            Err(DbError::InvalidActionTypePrefix)
        }
    }

    /// The action type with the given wire value.
    pub fn try_from(value: i32) -> (r: Result<PendingActionType, DbError>)
        ensures
            match r {
                Ok(t) => PendingActionType::of_code(value) == Some(t),
                Err(e) => e == DbError::InvalidActionTypeValue && PendingActionType::of_code(
                    value,
                ) is None,
            },
    {
        if value == 0 {
            Ok(PendingActionType::PendingRegisterTokenType)
        } else if value == 1 {
            Ok(PendingActionType::PendingDeregisterTokenType)
        } else if value == 2 {
            Ok(PendingActionType::PendingDeployNativeTokenType)
        } else if value == 3 {
            Ok(PendingActionType::PendingWithdrawAndExecuteType)
        } else if value == 4 {
            Ok(PendingActionType::PendingWithdrawType)
        } else if value == 5 {
            Ok(PendingActionType::PendingExecuteType)
        } else {
            Err(DbError::InvalidActionTypeValue)
        }
    }

    /// The wire value of this action type.
    pub fn to_i32(self) -> (r: i32)
        ensures
            r == self.code(),
            PendingActionType::of_code(r) == Some(self),
    {
        match self {
            PendingActionType::PendingRegisterTokenType => 0,
            PendingActionType::PendingDeregisterTokenType => 1,
            PendingActionType::PendingDeployNativeTokenType => 2,
            PendingActionType::PendingWithdrawAndExecuteType => 3,
            PendingActionType::PendingWithdrawType => 4,
            PendingActionType::PendingExecuteType => 5,
        }
    }
}

impl BroadcastStatus {
    /// The name under which a status is stored.
    pub open spec fn name(self) -> Seq<char> {
        match self {
            BroadcastStatus::PendingBroadcast => "pending_broadcast"@,
            BroadcastStatus::Broadcasting => "broadcasting"@,
            BroadcastStatus::Executed => "executed"@,
            BroadcastStatus::Failed => "failed"@,
        }
    }

    /// The status stored under a name.
    pub open spec fn of_name(name: Seq<char>) -> Option<BroadcastStatus> {
        if name == "pending_broadcast"@ {
            Some(BroadcastStatus::PendingBroadcast)
        } else if name == "broadcasting"@ {
            Some(BroadcastStatus::Broadcasting)
        } else if name == "executed"@ {
            Some(BroadcastStatus::Executed)
        } else if name == "failed"@ {
            Some(BroadcastStatus::Failed)
        } else {
            None
        }
    }

    /// How far a status is along the way from sighting to outcome.
    pub open spec fn rank(self) -> nat {
        match self {
            BroadcastStatus::PendingBroadcast => 0,
            BroadcastStatus::Broadcasting => 1,
            BroadcastStatus::Executed => 2,
            BroadcastStatus::Failed => 2,
        }
    }

    /// The steps that a status may take: a pending call starts to be
    /// broadcast or is found already executed; a call that is being
    /// broadcast ends executed or failed.
    pub open spec fn may_become(self, next: BroadcastStatus) -> bool {
        match self {
            BroadcastStatus::PendingBroadcast => next == BroadcastStatus::Broadcasting || next
                == BroadcastStatus::Executed,
            BroadcastStatus::Broadcasting => next == BroadcastStatus::Executed || next
                == BroadcastStatus::Failed,
            BroadcastStatus::Executed => false,
            BroadcastStatus::Failed => false,
        }
    }

    pub fn as_str(self) -> (r: &'static str)
        ensures
            r@ == self.name(),
    {
        match self {
            BroadcastStatus::PendingBroadcast => "pending_broadcast",
            BroadcastStatus::Broadcasting => "broadcasting",
            BroadcastStatus::Executed => "executed",
            BroadcastStatus::Failed => "failed",
        }
    }

    pub fn from_name(name: &str) -> (r: Result<BroadcastStatus, DbError>)
        ensures
            match r {
                Ok(s) => BroadcastStatus::of_name(name@) == Some(s),
                Err(e) => e == DbError::InvalidBroadcastStatus && BroadcastStatus::of_name(name@)
                    is None,
            },
    {
        if str_equal(name, "pending_broadcast") {
            Ok(BroadcastStatus::PendingBroadcast)
        } else if str_equal(name, "broadcasting") {
            Ok(BroadcastStatus::Broadcasting)
        } else if str_equal(name, "executed") {
            Ok(BroadcastStatus::Executed)
        } else if str_equal(name, "failed") {
            Ok(BroadcastStatus::Failed)
        } else {
            Err(DbError::InvalidBroadcastStatus)
        }
    }

    /// Whether a call in this status may go on to `next`.
    pub fn can_become(self, next: BroadcastStatus) -> (r: bool)
        ensures
            r == self.may_become(next),
    {
        match self {
            BroadcastStatus::PendingBroadcast => next == BroadcastStatus::Broadcasting || next
                == BroadcastStatus::Executed,
            BroadcastStatus::Broadcasting => next == BroadcastStatus::Executed || next
                == BroadcastStatus::Failed,
            BroadcastStatus::Executed => false,
            BroadcastStatus::Failed => false,
        }
    }
}

/// Every step that a status may take moves it forward.
pub proof fn lemma_status_steps_forward(from: BroadcastStatus, to: BroadcastStatus)
    requires
        from.may_become(to),
    ensures
        from.rank() < to.rank(),
{
}

impl View for Coin {
    type V = CoinView;

    open spec fn view(&self) -> CoinView {
        CoinView { denom: self.denom@, amount: self.amount }
    }
}

impl Clone for Coin {
    fn clone(&self) -> (r: Self)
        ensures
            r@ == self@,
    {
        Coin { denom: self.denom.clone(), amount: self.amount }
    }
}

impl View for RelayDetails {
    type V = RelayDetailsView;

    open spec fn view(&self) -> RelayDetailsView {
        RelayDetailsView {
            fee_receiver_address: self.fee_receiver_address@,
            fee_sender_address: self.fee_sender_address@,
            fee: self.fee@,
            expiry_block_time: self.expiry_block_time,
            created_at: self.created_at,
            sent_at: self.sent_at,
        }
    }
}

impl Clone for RelayDetails {
    fn clone(&self) -> (r: Self)
        ensures
            r@ == self@,
    {
        RelayDetails {
            fee_receiver_address: self.fee_receiver_address.clone(),
            fee_sender_address: self.fee_sender_address.clone(),
            fee: self.fee.clone(),
            expiry_block_time: self.expiry_block_time,
            created_at: self.created_at,
            sent_at: self.sent_at,
        }
    }
}

impl View for DbPendingActionEvent {
    type V = PendingActionView;

    open spec fn view(&self) -> PendingActionView {
        PendingActionView {
            id: self.id,
            connection_id: self.connection_id@,
            bridge_id: self.bridge_id@,
            chain_id: self.chain_id@,
            nonce: self.nonce,
            pending_action_type: self.pending_action_type,
            retry_count: self.retry_count,
            relay_details: self.relay_details@,
        }
    }
}

impl Clone for DbPendingActionEvent {
    fn clone(&self) -> (r: Self)
        ensures
            r@ == self@,
    {
        DbPendingActionEvent {
            id: self.id,
            connection_id: self.connection_id.clone(),
            bridge_id: self.bridge_id.clone(),
            chain_id: self.chain_id.clone(),
            nonce: self.nonce,
            pending_action_type: self.pending_action_type,
            retry_count: self.retry_count,
            relay_details: self.relay_details.clone(),
        }
    }
}

impl Clone for ExpiredPendingActionEvent {
    fn clone(&self) -> (r: Self)
        ensures
            r.nonce == self.nonce,
            r.pending_action_type == self.pending_action_type,
            r.connection_id@ == self.connection_id@,
            r.relay_details@ == self.relay_details@,
    {
        ExpiredPendingActionEvent {
            nonce: self.nonce,
            pending_action_type: self.pending_action_type,
            connection_id: self.connection_id.clone(),
            relay_details: self.relay_details.clone(),
        }
    }
}

impl View for DbAxelarCallContractEvent {
    type V = AxelarCallView;

    open spec fn view(&self) -> AxelarCallView {
        AxelarCallView {
            id: self.id,
            nonce: self.nonce,
            payload_hash: self.payload_hash@,
            payload: self.payload@,
            payload_encoding: self.payload_encoding@,
        }
    }
}

impl Clone for DbAxelarCallContractEvent {
    fn clone(&self) -> (r: Self)
        ensures
            r@ == self@,
    {
        DbAxelarCallContractEvent {
            id: self.id,
            nonce: self.nonce,
            payload_hash: self.payload_hash.clone(),
            payload: self.payload.clone(),
            payload_encoding: self.payload_encoding.clone(),
        }
    }
}

impl View for DbContractCallApprovedEvent {
    type V = ApprovedCallView;

    open spec fn view(&self) -> ApprovedCallView {
        ApprovedCallView {
            id: self.id,
            blockchain: self.blockchain@,
            broadcast_status: self.broadcast_status,
            command_id: self.command_id@,
            source_chain: self.source_chain@,
            source_address: self.source_address@,
            contract_address: self.contract_address@,
            payload_hash: self.payload_hash@,
            source_tx_hash: self.source_tx_hash@,
            source_event_index: self.source_event_index@,
            payload: self.payload@,
        }
    }
}

impl Clone for DbContractCallApprovedEvent {
    fn clone(&self) -> (r: Self)
        ensures
            r@ == self@,
    {
        DbContractCallApprovedEvent {
            id: self.id,
            blockchain: self.blockchain.clone(),
            broadcast_status: self.broadcast_status,
            command_id: self.command_id.clone(),
            source_chain: self.source_chain.clone(),
            source_address: self.source_address.clone(),
            contract_address: self.contract_address.clone(),
            payload_hash: self.payload_hash.clone(),
            source_tx_hash: self.source_tx_hash.clone(),
            source_event_index: self.source_event_index.clone(),
            payload: self.payload.clone(),
        }
    }
}

/// The coin that a JSON object with a `denom` and a decimal `amount`, both
/// strings, denotes.
pub open spec fn coin_of_json(j: JsonTree) -> Option<CoinView> {
    match (j.str_field("denom"@), j.str_field("amount"@)) {
        (Some(denom), Some(amount)) => match parsed_u64(amount) {
            Some(n) => Some(CoinView { denom, amount: n }),
            None => None,
        },
        _ => None,
    }
}

/// The instant that the RFC 3339 string field `key` denotes.
pub open spec fn timestamp_field(j: JsonTree, key: Seq<char>) -> Option<Timestamp> {
    match j.str_field(key) {
        Some(t) => timestamp_of_text(t),
        None => None,
    }
}

/// The instant of a field that may be absent or null: `Some(None)` when it
/// is, `None` when the field is there and is no RFC 3339 string.
pub open spec fn optional_timestamp_field(j: JsonTree, key: Seq<char>) -> Option<
    Option<Timestamp>,
> {
    match j.field(key) {
        None => Some(None),
        Some(JsonTree::Null) => Some(None),
        Some(v) => match v.as_str() {
            Some(t) => match timestamp_of_text(t) {
                Some(ts) => Some(Some(ts)),
                None => None,
            },
            None => None,
        },
    }
}

/// The relay details that a JSON object denotes. Fields it does not know
/// are ignored.
pub open spec fn relay_details_of_json(j: JsonTree) -> Option<RelayDetailsView> {
    match (
        j.str_field("fee_receiver_address"@),
        j.str_field("fee_sender_address"@),
        j.field("fee"@),
        timestamp_field(j, "expiry_block_time"@),
        timestamp_field(j, "created_at"@),
        optional_timestamp_field(j, "sent_at"@),
    ) {
        (Some(receiver), Some(sender), Some(fee_json), Some(expiry), Some(created), Some(sent)) => {
            match coin_of_json(fee_json) {
                Some(fee) => Some(
                    RelayDetailsView {
                        fee_receiver_address: receiver,
                        fee_sender_address: sender,
                        fee,
                        expiry_block_time: expiry,
                        created_at: created,
                        sent_at: sent,
                    },
                ),
                None => None,
            }
        },
        _ => None,
    }
}

/// The JSON object that stands for a coin: the amount as a decimal string.
pub open spec fn coin_json(c: CoinView) -> JsonTree {
    JsonTree::Object(
        seq![
            ("denom"@, JsonTree::Str(c.denom)),
            ("amount"@, JsonTree::Str(decimal_text(c.amount as nat))),
        ],
    )
}

/// The JSON string that stands for an instant: its RFC 3339 text, if the
/// instant has one and the text reads back as the instant.
pub open spec fn timestamp_json(t: Timestamp) -> Option<JsonTree> {
    match rfc3339_text(t.seconds, t.nanos) {
        Some(s) => if timestamp_of_text(s) == Some(t) {
            Some(JsonTree::Str(s))
        } else {
            None
        },
        None => None,
    }
}

/// The JSON value that stands for an instant that may be absent.
pub open spec fn optional_timestamp_json(t: Option<Timestamp>) -> Option<JsonTree> {
    match t {
        Some(ts) => timestamp_json(ts),
        None => Some(JsonTree::Null),
    }
}

/// The JSON object that stands for relay details, if each of its instants
/// has a text that reads back as the instant.
pub open spec fn relay_details_json(rd: RelayDetailsView) -> Option<JsonTree> {
    match (
        timestamp_json(rd.expiry_block_time),
        timestamp_json(rd.created_at),
        optional_timestamp_json(rd.sent_at),
    ) {
        (Some(expiry), Some(created), Some(sent)) => Some(
            JsonTree::Object(
                seq![
                    ("fee_receiver_address"@, JsonTree::Str(rd.fee_receiver_address)),
                    ("fee_sender_address"@, JsonTree::Str(rd.fee_sender_address)),
                    ("fee"@, coin_json(rd.fee)),
                    ("expiry_block_time"@, expiry),
                    ("created_at"@, created),
                    ("sent_at"@, sent),
                ],
            ),
        ),
        _ => None,
    }
}

/// Views of optional values.
pub open spec fn opt_coin(c: Option<Coin>) -> Option<CoinView> {
    match c {
        Some(v) => Some(v@),
        None => None,
    }
}

pub open spec fn opt_relay_details(rd: Option<RelayDetails>) -> Option<RelayDetailsView> {
    match rd {
        Some(v) => Some(v@),
        None => None,
    }
}

impl RelayDetailsView {
    /// The relay has expired once the clock has reached the expiry time.
    pub open spec fn has_expired(self, now: Timestamp) -> bool {
        self.expiry_block_time.at_or_before(now)
    }

    pub open spec fn is_sent(self) -> bool {
        self.sent_at is Some
    }
}

/// A coin's amount written as a decimal string reads back as the amount.
pub proof fn lemma_coin_round_trip(c: CoinView)
    ensures
        coin_of_json(coin_json(c)) == Some(c),
{
    reveal_strlit("denom");
    reveal_strlit("amount");
    let fields = coin_json(c)->Object_0;
    assert(fields[0].0 == "denom"@);
    assert(fields[1].0 == "amount"@);
    assert("denom"@.len() != "amount"@.len());
    lemma_field_index_unique(fields, "denom"@, 0);
    lemma_field_index_unique(fields, "amount"@, 1);
    lemma_u64_text_round_trip(c.amount);
}

/// Whenever relay details can be written as JSON, reading the JSON back
/// gives the same relay details, and writing those gives the same JSON,
/// and so the same text, again.
pub proof fn lemma_relay_details_round_trip(rd: RelayDetailsView)
    requires
        relay_details_json(rd) is Some,
    ensures
        relay_details_of_json(relay_details_json(rd)->0) == Some(rd),
        relay_details_json(relay_details_of_json(relay_details_json(rd)->0)->0)
            == relay_details_json(rd),
        crate::json::json_text(
            relay_details_json(relay_details_of_json(relay_details_json(rd)->0)->0)->0,
        ) == crate::json::json_text(relay_details_json(rd)->0),
{
    reveal_strlit("fee_receiver_address");
    reveal_strlit("fee_sender_address");
    reveal_strlit("fee");
    reveal_strlit("expiry_block_time");
    reveal_strlit("created_at");
    reveal_strlit("sent_at");
    let j = relay_details_json(rd)->0;
    let fields = j->Object_0;
    assert(fields[0].0 == "fee_receiver_address"@);
    assert(fields[1].0 == "fee_sender_address"@);
    assert(fields[2].0 == "fee"@);
    assert(fields[3].0 == "expiry_block_time"@);
    assert(fields[4].0 == "created_at"@);
    assert(fields[5].0 == "sent_at"@);
    lemma_field_index_unique(fields, "fee_receiver_address"@, 0);
    lemma_field_index_unique(fields, "fee_sender_address"@, 1);
    lemma_field_index_unique(fields, "fee"@, 2);
    lemma_field_index_unique(fields, "expiry_block_time"@, 3);
    lemma_field_index_unique(fields, "created_at"@, 4);
    lemma_field_index_unique(fields, "sent_at"@, 5);
    lemma_coin_round_trip(rd.fee);
}

impl Coin {
    /// Reads a coin from a JSON object with the string fields `denom` and
    /// `amount`, the amount in decimal.
    pub fn from_json(j: &Json) -> (r: Option<Coin>)
        ensures
            opt_coin(r) == coin_of_json(j@),
    {
        let denom = match j.str_field("denom") {
            Some(d) => d,
            None => {
                return None;
            },
        };
        let amount = match j.str_field("amount") {
            Some(a) => a,
            None => {
                return None;
            },
        };
        match parse_u64(amount) {
            Some(n) => Some(Coin { denom: denom.to_owned(), amount: n }),
            None => None,
        }
    }

    /// Writes the coin as a JSON object, the amount as a decimal string.
    pub fn to_json(&self) -> (r: Json)
        ensures
            r@ == coin_json(self@),
    {
        let mut fields: Vec<(String, Json)> = Vec::new();
        fields.push(("denom".to_owned(), Json::Str(self.denom.clone())));
        fields.push(("amount".to_owned(), Json::Str(u64_to_string(self.amount))));
        let r = Json::Object(fields);
        proof {
            reveal_with_fuel(crate::json::tree_of, 3);
            assert(r@->Object_0 =~= coin_json(self@)->Object_0);
        }
        r
    }
}

/// Reads the RFC 3339 string field `key` of a JSON object.
fn read_timestamp_field(j: &Json, key: &str) -> (r: Option<Timestamp>)
    ensures
        r == timestamp_field(j@, key@),
{
    match j.str_field(key) {
        Some(t) => Timestamp::parse(t),
        None => None,
    }
}

/// Writes an instant as a JSON string, if its text reads back as the
/// instant.
fn write_timestamp(t: &Timestamp) -> (r: Option<Json>)
    ensures
        crate::json::opt_tree(r) == timestamp_json(*t),
{
    match t.to_rfc3339() {
        Some(s) => {
            if Timestamp::parse(s.as_str()) == Some(*t) {
                Some(Json::Str(s))
            } else {
                None
            }
        },
        None => None,
    }
}

impl RelayDetails {
    /// Whether the relay has expired at `now`: the clock has reached the
    /// expiry time.
    pub fn has_expired(&self, now: &Timestamp) -> (r: bool)
        ensures
            r == self@.has_expired(*now),
    {
        self.expiry_block_time.is_at_or_before(now)
    }

    /// How far `now` is from the expiry time, in words.
    pub fn get_expiry_duration(&self, now: &Timestamp) -> (r: String)
        ensures
            r@ == crate::util::datetime::distance_text(
                crate::util::datetime::whole_seconds(
                    now.total_nanos() - self.expiry_block_time.total_nanos(),
                ),
            ),
    {
        let now_nanos: i128 = now.seconds as i128 * 1_000_000_000 + now.nanos as i128;
        let expiry_nanos: i128 = self.expiry_block_time.seconds as i128 * 1_000_000_000
            + self.expiry_block_time.nanos as i128;
        time_difference_str(now_nanos - expiry_nanos)
    }

    /// Whether the hub has recorded that the action was sent.
    pub fn is_sent(&self) -> (r: bool)
        ensures
            r == self@.is_sent(),
    {
        self.sent_at.is_some()
    }

    /// Reads relay details from a JSON object.
    pub fn from_json(j: &Json) -> (r: Option<RelayDetails>)
        ensures
            opt_relay_details(r) == relay_details_of_json(j@),
    {
        let receiver = match j.str_field("fee_receiver_address") {
            Some(v) => v,
            None => {
                return None;
            },
        };
        let sender = match j.str_field("fee_sender_address") {
            Some(v) => v,
            None => {
                return None;
            },
        };
        let fee_json = match j.field("fee") {
            Some(v) => v,
            None => {
                return None;
            },
        };
        let expiry = match read_timestamp_field(j, "expiry_block_time") {
            Some(v) => v,
            None => {
                return None;
            },
        };
        let created = match read_timestamp_field(j, "created_at") {
            Some(v) => v,
            None => {
                return None;
            },
        };
        let sent: Option<Timestamp> = match j.field("sent_at") {
            None => None,
            Some(Json::Null) => None,
            Some(v) => match v.as_str() {
                Some(t) => match Timestamp::parse(t) {
                    Some(ts) => Some(ts),
                    None => {
                        return None;
                    },
                },
                None => {
                    return None;
                },
            },
        };
        match Coin::from_json(fee_json) {
            Some(fee) => Some(
                RelayDetails {
                    fee_receiver_address: receiver.to_owned(),
                    fee_sender_address: sender.to_owned(),
                    fee,
                    expiry_block_time: expiry,
                    created_at: created,
                    sent_at: sent,
                },
            ),
            None => None,
        }
    }

    /// Writes the relay details as a JSON object, if each of their instants
    /// has a text that reads back as the instant.
    pub fn to_json(&self) -> (r: Option<Json>)
        ensures
            crate::json::opt_tree(r) == relay_details_json(self@),
    {
        let expiry = match write_timestamp(&self.expiry_block_time) {
            Some(v) => v,
            None => {
                return None;
            },
        };
        let created = match write_timestamp(&self.created_at) {
            Some(v) => v,
            None => {
                return None;
            },
        };
        let sent = match &self.sent_at {
            Some(t) => match write_timestamp(t) {
                Some(v) => v,
                None => {
                    return None;
                },
            },
            None => Json::Null,
        };
        let mut fields: Vec<(String, Json)> = Vec::new();
        fields.push(("fee_receiver_address".to_owned(), Json::Str(self.fee_receiver_address.clone())));
        fields.push(("fee_sender_address".to_owned(), Json::Str(self.fee_sender_address.clone())));
        fields.push(("fee".to_owned(), self.fee.to_json()));
        fields.push(("expiry_block_time".to_owned(), expiry));
        fields.push(("created_at".to_owned(), created));
        fields.push(("sent_at".to_owned(), sent));
        let r = Json::Object(fields);
        proof {
            reveal_with_fuel(crate::json::tree_of, 3);
            assert(r@->Object_0 =~= relay_details_json(self@)->0->Object_0);
        }
        Some(r)
    }
}

impl AxelarCallView {
    /// The payload is hexadecimal text and the payload hash is the prefixed
    /// hexadecimal text of the Keccak-256 digest of the bytes it denotes.
    pub open spec fn hash_matches(self) -> bool {
        match hex_decoded(self.payload) {
            Some(bytes) => self.payload_hash == hex_prefixed(keccak256_digest(bytes)),
            None => false,
        }
    }
}

impl DbPendingActionEvent {
    /// Whether the action may still be retried at `now`: it has fewer than
    /// `max_retries` attempts on its count and its expiry time lies after
    /// `now`.
    pub fn is_retriable(&self, max_retries: i32, now: &Timestamp) -> (r: bool)
        ensures
            r == crate::db::store::is_retriable(self@, max_retries, *now),
    {
        self.retry_count < max_retries && now.is_before(&self.relay_details.expiry_block_time)
    }

    /// Whether the action has expired at `now`.
    pub fn is_expired(&self, now: &Timestamp) -> (r: bool)
        ensures
            r == crate::db::store::is_expired(self@, *now),
    {
        self.relay_details.has_expired(now)
    }

    pub fn get_relay_details(&self) -> (r: RelayDetails)
        ensures
            r@ == self@.relay_details,
    {
        self.relay_details.clone()
    }

    /// The relay details as a JSON object, if each instant in them has a
    /// text that reads back as the instant.
    pub fn get_relay_details_value(&self) -> (r: Option<Json>)
        ensures
            crate::json::opt_tree(r) == relay_details_json(self@.relay_details),
    {
        self.relay_details.to_json()
    }

    pub fn get_pending_action_type(&self) -> (r: Result<PendingActionType, DbError>)
        ensures
            match r {
                Ok(t) => PendingActionType::of_code(self.pending_action_type) == Some(t),
                Err(e) => e == DbError::InvalidActionTypeValue && PendingActionType::of_code(
                    self.pending_action_type,
                ) is None,
            },
    {
        PendingActionType::try_from(self.pending_action_type)
    }
}

impl DbAxelarCallContractEvent {
    /// The row for a payload of the given bytes: the payload and its
    /// Keccak-256 digest, both as prefixed hexadecimal text.
    pub fn from_payload(nonce: i64, payload: &[u8]) -> (r: DbAxelarCallContractEvent)
        ensures
            r.id == -1,
            r.nonce == nonce,
            r.payload@ == hex_prefixed(payload@),
            r.payload_hash@ == hex_prefixed(keccak256_digest(payload@)),
            r.payload_encoding@ == "evm_abi"@,
            r@.hash_matches(),
    {
        let digest = keccak256(payload);
        proof {
            crate::codec::lemma_hex_prefixed_round_trip(payload@);
        }
        DbAxelarCallContractEvent {
            id: -1,
            nonce,
            payload_hash: hex_encode_prefixed(digest.as_slice()),
            payload: hex_encode_prefixed(payload),
            payload_encoding: "evm_abi".to_owned(),
        }
    }

    /// Whether the payload hash is the digest of the payload.
    pub fn has_matching_hash(&self) -> (r: bool)
        ensures
            r == self@.hash_matches(),
    {
        match hex_decode(self.payload.as_str()) {
            Some(bytes) => {
                let digest = keccak256(bytes.as_slice());
                let expected = hex_encode_prefixed(digest.as_slice());
                str_equal(self.payload_hash.as_str(), expected.as_str())
            },
            None => false,
        }
    }
}

} // verus!
