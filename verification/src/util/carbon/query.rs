//! What the hub's REST interface says about pending actions.

use crate::db::{
    relay_details_of_json, DbPendingActionEvent, PendingActionType, PendingActionView, RelayDetails,
    RelayDetailsView,
};
use crate::decimal::{parse_i64, parsed_i64, signed_text};
use crate::json::{items_view, json_parsed, Json, JsonTree};
use crate::util::carbon::parser::{connection_parts, parse_connection_id};
use vstd::prelude::*;

verus! {

/// Why an answer of the REST interface could not be used.
#[derive(Clone, Copy, Debug, PartialEq, Eq, Structural)]
pub enum QueryError {
    /// The answer has no array of pending nonces.
    NoncesMissing,
    /// A nonce is no string.
    NonceNotString,
    /// A nonce is no 64-bit integer.
    NonceInvalid,
    /// The answer has no action, or the action is no string.
    ActionMissing,
    /// The action is no JSON text.
    ActionJson,
    /// The action has no connection identifier.
    ConnectionIdMissing,
    /// The action's relay details have not the expected shape.
    RelayDetails,
    /// The connection identifier has fewer than three segments.
    ConnectionId,
    /// The action names no method that stands for an action type.
    ActionType,
}

/// The nonce that an item of the nonce array denotes.
pub open spec fn nonce_of(item: JsonTree) -> Result<i64, QueryError> {
    match item.as_str() {
        None => Err(QueryError::NonceNotString),
        Some(text) => match parsed_i64(text) {
            Some(n) => Ok(n),
            None => Err(QueryError::NonceInvalid),
        },
    }
}

/// The nonces that the items of an array denote; the first item that
/// denotes none decides the error.
pub open spec fn nonces_of(items: Seq<JsonTree>) -> Result<Seq<i64>, QueryError>
    decreases items.len(),
{
    if items.len() == 0 {
        Ok(Seq::empty())
    } else {
        match nonces_of(items.drop_last()) {
            Err(e) => Err(e),
            Ok(head) => match nonce_of(items.last()) {
                Ok(n) => Ok(head.push(n)),
                Err(e) => Err(e),
            },
        }
    }
}

/// The hub's set of pending nonces, as its answer gives it.
pub open spec fn pending_nonces_of(j: JsonTree) -> Result<Seq<i64>, QueryError> {
    match j.field("pending_action_nonces"@) {
        Some(JsonTree::Array(items)) => nonces_of(items),
        _ => Err(QueryError::NoncesMissing),
    }
}

/// The action inside the hub's answer: a JSON document that the answer
/// carries as a string.
pub open spec fn action_of(j: JsonTree) -> Result<JsonTree, QueryError> {
    match j.str_field("action"@) {
        None => Err(QueryError::ActionMissing),
        Some(text) => match json_parsed(text) {
            Some(action) => Ok(action),
            None => Err(QueryError::ActionJson),
        },
    }
}

/// The relay details of the action in the hub's answer.
pub open spec fn action_relay_details_of(j: JsonTree) -> Result<RelayDetailsView, QueryError> {
    match action_of(j) {
        Err(e) => Err(e),
        Ok(action) => match action.field("relay_details"@) {
            Some(details) => match relay_details_of_json(details) {
                Some(rd) => Ok(rd),
                None => Err(QueryError::RelayDetails),
            },
            None => Err(QueryError::RelayDetails),
        },
    }
}

/// The action type that the action's method stands for.
pub open spec fn action_type_of(action: JsonTree) -> Option<PendingActionType> {
    match action.str_field("method"@) {
        Some(method) => PendingActionType::of_prefix(method),
        None => None,
    }
}

/// The row that the hub's answer about the pending action `nonce`
/// denotes.
pub open spec fn pending_action_of(j: JsonTree, nonce: i64) -> Result<PendingActionView, QueryError> {
    match action_of(j) {
        Err(e) => Err(e),
        Ok(action) => match action.str_field("connection_id"@) {
            None => Err(QueryError::ConnectionIdMissing),
            Some(connection_id) => match action_relay_details_of(j) {
                Err(e) => Err(e),
                Ok(relay_details) => match connection_parts(connection_id) {
                    None => Err(QueryError::ConnectionId),
                    Some(parts) => match action_type_of(action) {
                        None => Err(QueryError::ActionType),
                        Some(t) => Ok(
                            PendingActionView {
                                id: -1i32,
                                connection_id,
                                bridge_id: parts.0,
                                chain_id: parts.1,
                                nonce,
                                pending_action_type: t.code(),
                                retry_count: 0,
                                relay_details,
                            },
                        ),
                    },
                },
            },
        },
    }
}

/// Where the hub lists its pending nonces.
pub fn pending_action_nonces_url(rest_url: &str) -> (r: String)
    ensures
        r@ == rest_url@ + "/carbon/bridge/v1/pending_action_nonce"@,
{
    let mut url = rest_url.to_owned();
    url.append("/carbon/bridge/v1/pending_action_nonce");
    url
}

/// Where the hub tells of the pending action `nonce`.
pub fn pending_action_url(rest_url: &str, nonce: i64) -> (r: String)
    ensures
        r@ == rest_url@ + "/carbon/bridge/v1/pending_action/"@ + signed_text(nonce as int),
{
    let mut url = rest_url.to_owned();
    url.append("/carbon/bridge/v1/pending_action/");
    let text = crate::decimal::i64_to_string(nonce);
    url.append(text.as_str());
    url
}

/// If a prefix of the items does not denote nonces, the items fail the
/// same way.
proof fn lemma_nonces_prefix(items: Seq<JsonTree>, n: int)
    requires
        0 <= n <= items.len(),
        nonces_of(items.take(n)) is Err,
    ensures
        nonces_of(items) == nonces_of(items.take(n)),
    decreases items.len() - n,
{
    if n < items.len() {
        assert(items.take(n + 1).drop_last() =~= items.take(n));
        lemma_nonces_prefix(items, n + 1);
    } else {
        assert(items.take(n) =~= items);
    }
}

/// Reads the hub's set of pending nonces from its answer.
pub fn get_pending_action_nonces(resp: &Json) -> (r: Result<Vec<i64>, QueryError>)
    ensures
        match r {
            Ok(nonces) => pending_nonces_of(resp@) == Ok::<Seq<i64>, QueryError>(nonces@),
            Err(e) => pending_nonces_of(resp@) == Err::<Seq<i64>, QueryError>(e),
        },
{
    let items = match resp.field("pending_action_nonces") {
        Some(a) => match a.as_array() {
            Some(items) => items,
            None => {
                return Err(QueryError::NoncesMissing);
            },
        },
        None => {
            return Err(QueryError::NoncesMissing);
        },
    };
    let ghost trees = items_view(items@);
    let mut out: Vec<i64> = Vec::new();
    let mut i: usize = 0;
    while i < items.len()
        invariant
            i <= items@.len(),
            trees == items_view(items@),
            pending_nonces_of(resp@) == nonces_of(trees),
            nonces_of(trees.take(i as int)) == Ok::<Seq<i64>, QueryError>(out@),
        decreases items@.len() - i,
    {
        proof {
            assert(trees.take(i + 1).drop_last() =~= trees.take(i as int));
            assert(trees.take(i + 1).last() == items@[i as int]@);
        }
        let text = match items[i].as_str() {
            Some(t) => t,
            None => {
                proof {
                    assert(nonce_of(trees.take(i + 1).last()) == Err::<i64, QueryError>(
                        QueryError::NonceNotString,
                    ));
                    lemma_nonces_prefix(trees, i + 1);
                }
                return Err(QueryError::NonceNotString);
            },
        };
        match parse_i64(text) {
            Some(n) => {
                out.push(n);
            },
            None => {
                proof {
                    assert(nonce_of(trees.take(i + 1).last()) == Err::<i64, QueryError>(
                        QueryError::NonceInvalid,
                    ));
                    lemma_nonces_prefix(trees, i + 1);
                }
                return Err(QueryError::NonceInvalid);
            },
        }
        i += 1;
    }
    assert(trees.take(i as int) =~= trees);
    Ok(out)
}

/// Reads the action inside the hub's answer.
fn read_action(resp: &Json) -> (r: Result<Json, QueryError>)
    ensures
        match r {
            Ok(action) => action_of(resp@) == Ok::<JsonTree, QueryError>(action@),
            Err(e) => action_of(resp@) == Err::<JsonTree, QueryError>(e),
        },
{
    match resp.str_field("action") {
        None => Err(QueryError::ActionMissing),
        Some(text) => match Json::parse(text) {
            Some(action) => Ok(action),
            None => Err(QueryError::ActionJson),
        },
    }
}

/// Reads the relay details of the action in the hub's answer.
pub fn get_pending_action_relay_details(resp: &Json) -> (r: Result<RelayDetails, QueryError>)
    ensures
        match r {
            Ok(rd) => action_relay_details_of(resp@) == Ok::<RelayDetailsView, QueryError>(rd@),
            Err(e) => action_relay_details_of(resp@) == Err::<RelayDetailsView, QueryError>(e),
        },
{
    let action = match read_action(resp) {
        Ok(a) => a,
        Err(e) => {
            return Err(e);
        },
    };
    match action.field("relay_details") {
        Some(details) => match RelayDetails::from_json(details) {
            Some(rd) => Ok(rd),
            None => Err(QueryError::RelayDetails),
        },
        None => Err(QueryError::RelayDetails),
    }
}

/// Reads the row of the pending action `nonce` from the hub's answer. The
/// action type is the one that the action's method stands for.
pub fn get_pending_action(resp: &Json, nonce: i64) -> (r: Result<DbPendingActionEvent, QueryError>)
    ensures
        match r {
            Ok(row) => pending_action_of(resp@, nonce) == Ok::<PendingActionView, QueryError>(row@),
            Err(e) => pending_action_of(resp@, nonce) == Err::<PendingActionView, QueryError>(e),
        },
{
    let action = match read_action(resp) {
        Ok(a) => a,
        Err(e) => {
            return Err(e);
        },
    };
    let connection_id = match action.str_field("connection_id") {
        Some(c) => c.to_owned(),
        None => {
            return Err(QueryError::ConnectionIdMissing);
        },
    };
    let relay_details = match action.field("relay_details") {
        Some(details) => match RelayDetails::from_json(details) {
            Some(rd) => rd,
            None => {
                return Err(QueryError::RelayDetails);
            },
        },
        None => {
            return Err(QueryError::RelayDetails);
        },
    };
    let (bridge_id, chain_id) = match parse_connection_id(connection_id.as_str()) {
        Ok((b, c, _)) => (b, c),
        Err(_) => {
            return Err(QueryError::ConnectionId);
        },
    };
    let action_type = match action.str_field("method") {
        Some(method) => match PendingActionType::from_prefix(method) {
            Ok(t) => t,
            Err(_) => {
                return Err(QueryError::ActionType);
            },
        },
        None => {
            return Err(QueryError::ActionType);
        },
    };
    Ok(
        DbPendingActionEvent {
            id: -1,
            connection_id,
            bridge_id,
            chain_id,
            nonce,
            pending_action_type: action_type.to_i32(),
            retry_count: 0,
            relay_details,
        },
    )
}

} // verus!
