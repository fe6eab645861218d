//! Reading the hub's events: attribute values, connection identifiers and
//! the rows that the store keeps for each kind of event.

use crate::codec::{base64_decode, base64_decoded, hex_prefixed, keccak256_digest};
use crate::db::{
    relay_details_of_json, AxelarCallView, BridgeRevertedEvent, DbAxelarCallContractEvent,
    DbPendingActionEvent, ExpiredPendingActionEvent, PendingActionView, RelayDetails,
    RelayDetailsView,
};
use crate::decimal::{parse_i32, parse_i64, parsed_i32, parsed_i64};
use crate::json::{json_parsed, Json};
use crate::text::{find_char, split, trim_matches, trimmed};
use crate::util::cosmos::{attribute_value, find_attribute, Event, EventView};
use vstd::prelude::*;

verus! {

/// Why an event or one of its attributes could not be read.
#[derive(Clone, Copy, Debug, PartialEq, Eq, Structural)]
pub enum ParseError {
    /// The connection identifier has fewer than three segments.
    ConnectionId,
    /// The relay details are no JSON document of the expected shape.
    RelayDetails,
    /// The nonce is no 64-bit integer.
    Nonce,
    /// The action type is no 32-bit integer.
    PendingActionType,
    /// The payload is no base64 text.
    Payload,
}

/// The first three segments of a connection identifier, which are the
/// bridge, the chain and the contract address, if it has that many.
pub open spec fn connection_parts(s: Seq<char>) -> Option<(Seq<char>, Seq<char>, Seq<char>)> {
    let parts = split(s, '/');
    if parts.len() >= 3 {
        Some((parts[0], parts[1], parts[2]))
    } else {
        None
    }
}

/// Views of the three parts of a connection identifier.
pub open spec fn parts_view(parts: (String, String, String)) -> (Seq<char>, Seq<char>, Seq<char>) {
    (parts.0@, parts.1@, parts.2@)
}

/// An attribute value without the double quotes that its JSON encoding put
/// around it.
pub fn strip_quotes(input: &str) -> (r: &str)
    ensures
        r@ == trimmed(input@, '"'),
{
    trim_matches(input, '"')
}

/// Splits a connection identifier `bridge_id/chain_id/contract_address` into
/// its three parts. Segments after the third are ignored.
pub fn parse_connection_id(connection_id: &str) -> (r: Result<(String, String, String), ParseError>)
    ensures
        match r {
            Ok(parts) => connection_parts(connection_id@) == Some(parts_view(parts)),
            Err(e) => e == ParseError::ConnectionId && connection_parts(connection_id@) is None,
        },
{
    let n = connection_id.unicode_len();
    let ghost s = connection_id@;
    proof {
        assert(s.skip(0) =~= s);
    }
    let first = find_char(connection_id, '/', 0);
    if first >= n {
        return Err(ParseError::ConnectionId);
    }
    let ghost s1 = s.skip(first + 1);
    let second = find_char(connection_id, '/', first + 1);
    if second >= n {
        proof {
            assert(split(s1, '/') =~= seq![s1]);
            assert(split(s, '/') =~= seq![s.take(first as int)] + split(s1, '/'));
        }
        return Err(ParseError::ConnectionId);
    }
    let ghost s2 = s.skip(second + 1);
    let third = find_char(connection_id, '/', second + 1);
    proof {
        let k1 = second - first - 1;
        let k2 = third - second - 1;
        assert(s1.skip(k1 + 1) =~= s2);
        assert(split(s, '/') =~= seq![s.take(first as int)] + split(s1, '/'));
        assert(split(s1, '/') =~= seq![s1.take(k1)] + split(s2, '/'));
        assert(split(s2, '/')[0] == s2.take(k2)) by {
            if k2 < s2.len() {
                assert(split(s2, '/') =~= seq![s2.take(k2)] + split(s2.skip(k2 + 1), '/'));
            } else {
                assert(s2.take(k2) =~= s2);
            }
        }
        assert(s.take(first as int) =~= s.subrange(0, first as int));
        assert(s1.take(k1) =~= s.subrange(first + 1, second as int));
        assert(s2.take(k2) =~= s.subrange(second + 1, third as int));
    }
    let bridge_id = connection_id.substring_char(0, first).to_owned();
    let chain_id = connection_id.substring_char(first + 1, second).to_owned();
    let contract = connection_id.substring_char(second + 1, third).to_owned();
    Ok((bridge_id, chain_id, contract))
}

/// The text of an attribute without its quotes.
pub open spec fn plain_value(event: EventView, key: Seq<char>) -> Seq<char> {
    trimmed(attribute_value(event.attributes, key), '"')
}

/// The relay details that a JSON text denotes.
pub open spec fn relay_details_of_text(text: Seq<char>) -> Option<RelayDetailsView> {
    match json_parsed(text) {
        Some(j) => relay_details_of_json(j),
        None => None,
    }
}

/// The row that a pending action event denotes. Of several things that
/// are wrong with an event, the first in this order is reported: relay
/// details, nonce, action type, connection identifier.
pub open spec fn pending_action_of(event: EventView) -> Result<PendingActionView, ParseError> {
    let connection_id = plain_value(event, "connection_id"@);
    match relay_details_of_text(attribute_value(event.attributes, "relay_details"@)) {
        None => Err(ParseError::RelayDetails),
        Some(relay_details) => match parsed_i64(plain_value(event, "nonce"@)) {
            None => Err(ParseError::Nonce),
            Some(nonce) => match parsed_i32(plain_value(event, "pending_action_type"@)) {
                None => Err(ParseError::PendingActionType),
                Some(pending_action_type) => match connection_parts(connection_id) {
                    None => Err(ParseError::ConnectionId),
                    Some(parts) => Ok(
                        PendingActionView {
                            id: -1i32,
                            connection_id,
                            bridge_id: parts.0,
                            chain_id: parts.1,
                            nonce,
                            pending_action_type,
                            retry_count: 0,
                            relay_details,
                        },
                    ),
                },
            },
        },
    }
}

/// What an expired pending action event denotes: nonce, action type,
/// connection identifier and relay details, the first thing wrong in the
/// order nonce, action type, relay details being reported.
pub open spec fn expired_action_of(event: EventView) -> Result<
    (i64, i32, Seq<char>, RelayDetailsView),
    ParseError,
> {
    match parsed_i64(plain_value(event, "nonce"@)) {
        None => Err(ParseError::Nonce),
        Some(nonce) => match parsed_i32(plain_value(event, "pending_action_type"@)) {
            None => Err(ParseError::PendingActionType),
            Some(pending_action_type) => match relay_details_of_text(
                attribute_value(event.attributes, "relay_details"@),
            ) {
                None => Err(ParseError::RelayDetails),
                Some(relay_details) => Ok(
                    (
                        nonce,
                        pending_action_type,
                        plain_value(event, "connection_id"@),
                        relay_details,
                    ),
                ),
            },
        },
    }
}

/// The row that a payload event denotes: the payload, which the event
/// carries in base64, and its Keccak-256 digest, both as prefixed
/// hexadecimal text.
pub open spec fn axelar_call_of(event: EventView) -> Result<AxelarCallView, ParseError> {
    match parsed_i64(plain_value(event, "nonce"@)) {
        None => Err(ParseError::Nonce),
        Some(nonce) => match base64_decoded(plain_value(event, "payload"@)) {
            None => Err(ParseError::Payload),
            Some(bytes) => Ok(
                AxelarCallView {
                    id: -1i32,
                    nonce,
                    payload_hash: hex_prefixed(keccak256_digest(bytes)),
                    payload: hex_prefixed(bytes),
                    payload_encoding: "evm_abi"@,
                },
            ),
        },
    }
}

/// Reads the text of an attribute without its quotes.
fn read_plain_value(event: &Event, key: &str) -> (r: String)
    ensures
        r@ == plain_value(event@, key@),
{
    let raw = find_attribute(event, key);
    strip_quotes(raw.as_str()).to_owned()
}

/// Reads relay details from JSON text.
pub fn parse_relay_details(text: &str) -> (r: Option<RelayDetails>)
    ensures
        crate::db::opt_relay_details(r) == relay_details_of_text(text@),
{
    match Json::parse(text) {
        Some(j) => RelayDetails::from_json(&j),
        None => None,
    }
}

/// Reads the row of a pending action from its event.
pub fn parse_bridge_pending_action_event(event: &Event) -> (r: Result<
    DbPendingActionEvent,
    ParseError,
>)
    ensures
        match r {
            Ok(row) => pending_action_of(event@) == Ok::<PendingActionView, ParseError>(row@),
            Err(e) => pending_action_of(event@) == Err::<PendingActionView, ParseError>(e),
        },
{
    let connection_id = read_plain_value(event, "connection_id");
    let details_text = find_attribute(event, "relay_details");
    let relay_details = match parse_relay_details(details_text.as_str()) {
        Some(v) => v,
        None => {
            return Err(ParseError::RelayDetails);
        },
    };
    let nonce_text = read_plain_value(event, "nonce");
    let nonce = match parse_i64(nonce_text.as_str()) {
        Some(v) => v,
        None => {
            return Err(ParseError::Nonce);
        },
    };
    let type_text = read_plain_value(event, "pending_action_type");
    let pending_action_type = match parse_i32(type_text.as_str()) {
        Some(v) => v,
        None => {
            return Err(ParseError::PendingActionType);
        },
    };
    match parse_connection_id(connection_id.as_str()) {
        Ok((bridge_id, chain_id, _)) => Ok(
            DbPendingActionEvent {
                id: -1,
                connection_id,
                bridge_id,
                chain_id,
                nonce,
                pending_action_type,
                retry_count: 0,
                relay_details,
            },
        ),
        Err(e) => Err(e),
    }
}

/// Reads the hub's notice that a pending action has expired.
pub fn parse_expired_pending_action_event(event: &Event) -> (r: Result<
    ExpiredPendingActionEvent,
    ParseError,
>)
    ensures
        match r {
            Ok(x) => expired_action_of(event@) == Ok::<
                (i64, i32, Seq<char>, RelayDetailsView),
                ParseError,
            >((x.nonce, x.pending_action_type, x.connection_id@, x.relay_details@)),
            Err(e) => expired_action_of(event@) == Err::<
                (i64, i32, Seq<char>, RelayDetailsView),
                ParseError,
            >(e),
        },
{
    let nonce_text = read_plain_value(event, "nonce");
    let nonce = match parse_i64(nonce_text.as_str()) {
        Some(v) => v,
        None => {
            return Err(ParseError::Nonce);
        },
    };
    let type_text = read_plain_value(event, "pending_action_type");
    let pending_action_type = match parse_i32(type_text.as_str()) {
        Some(v) => v,
        None => {
            return Err(ParseError::PendingActionType);
        },
    };
    let connection_id = read_plain_value(event, "connection_id");
    let details_text = find_attribute(event, "relay_details");
    match parse_relay_details(details_text.as_str()) {
        Some(relay_details) => Ok(
            ExpiredPendingActionEvent { nonce, pending_action_type, connection_id, relay_details },
        ),
        None => Err(ParseError::RelayDetails),
    }
}

/// Reads the hub's notice that the bridge has reverted an action.
pub fn parse_bridge_reverted_event(event: &Event) -> (r: Result<BridgeRevertedEvent, ParseError>)
    ensures
        match r {
            Ok(x) => {
                &&& parsed_i64(plain_value(event@, "nonce"@)) == Some(x.nonce)
                &&& x.id == -1
                &&& x.bridge_id@ == plain_value(event@, "bridge_id"@)
                &&& x.chain_id@ == plain_value(event@, "chain_id"@)
                &&& x.gateway_address@ == plain_value(event@, "gateway_address"@)
            },
            Err(e) => e == ParseError::Nonce && parsed_i64(plain_value(event@, "nonce"@)) is None,
        },
{
    let bridge_id = read_plain_value(event, "bridge_id");
    let chain_id = read_plain_value(event, "chain_id");
    let gateway_address = read_plain_value(event, "gateway_address");
    let nonce_text = read_plain_value(event, "nonce");
    match parse_i64(nonce_text.as_str()) {
        Some(nonce) => Ok(BridgeRevertedEvent { id: -1, bridge_id, chain_id, gateway_address, nonce }),
        None => Err(ParseError::Nonce),
    }
}

/// Reads the row of a payload from its event. The row's hash is the
/// digest of its payload.
pub fn parse_axelar_call_contract_event(event: &Event) -> (r: Result<
    DbAxelarCallContractEvent,
    ParseError,
>)
    ensures
        match r {
            Ok(row) => axelar_call_of(event@) == Ok::<AxelarCallView, ParseError>(row@)
                && row@.hash_matches(),
            Err(e) => axelar_call_of(event@) == Err::<AxelarCallView, ParseError>(e),
        },
{
    let nonce_text = read_plain_value(event, "nonce");
    let nonce = match parse_i64(nonce_text.as_str()) {
        Some(v) => v,
        None => {
            return Err(ParseError::Nonce);
        },
    };
    let payload_base64 = read_plain_value(event, "payload");
    match base64_decode(payload_base64.as_str()) {
        Some(bytes) => Ok(DbAxelarCallContractEvent::from_payload(nonce, bytes.as_slice())),
        None => Err(ParseError::Payload),
    }
}

} // verus!
