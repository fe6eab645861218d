//! Catching up on a range of the hub's blocks: the searches that find the
//! relevant transactions, the events in what the searches return, what the
//! events do to the store, and where to look for the approvals that belong
//! to them.

use crate::carbon::listener::{
    ingest_pending_actions, pending_ingest_matches, pending_ingested_all, PendingIngest,
};
use crate::codec::{percent_encoded, url_encode};
use crate::conf::{chain_index, find_chain, Chain};
use crate::constants::events::{CARBON_AXELAR_CALL_CONTRACT_EVENT, CARBON_BRIDGE_PENDING_ACTION_EVENT};
use crate::db::store::{axelar_views, EventStore, StoreState};
use crate::db::{AxelarCallView, DbAxelarCallContractEvent};
use crate::decimal::{decimal_text, push_decimal};
use crate::evm::broadcaster::fixed_bytes;
use crate::evm::listener::{
    address_topic, first_block, live_filter, FilterError, LogFilter,
};
use crate::json::{items_view, Json, JsonTree};
use crate::util::carbon::parser::{axelar_call_of, parse_axelar_call_contract_event};
use crate::util::cosmos::{
    event_views, events_named, filter_events, outcome_events, Event, EventView, TxResultInner,
};
use crate::util::datetime::Timestamp;
use vstd::prelude::*;

verus! {

/// One transaction that a search returned.
#[derive(Debug)]
pub struct TxResult {
    pub hash: String,
    pub height: String,
    pub index: u64,
    pub tx_result: TxResultInner,
    pub tx: String,
}

/// Why what a search returned could not be used.
#[derive(Clone, Copy, Debug, PartialEq, Eq, Structural)]
pub enum SyncError {
    /// The answer has not the shape of a search result.
    Shape,
}

/// The condition that confines a search to the blocks `start` to `end`.
pub open spec fn height_range(start: u64, end: u64) -> Seq<char> {
    " AND tx.height>="@ + decimal_text(start as nat) + " AND tx.height<="@ + decimal_text(
        end as nat,
    )
}

/// The search for the pending actions of a bridge in a range of blocks.
pub open spec fn pending_action_search(bridge_id: Seq<char>, start: u64, end: u64) -> Seq<char> {
    CARBON_BRIDGE_PENDING_ACTION_EVENT@ + ".connection_id CONTAINS '"@ + bridge_id + "/'"@
        + height_range(start, end)
}

/// The search for the payloads in a range of blocks.
pub open spec fn call_contract_search(start: u64, end: u64) -> Seq<char> {
    CARBON_AXELAR_CALL_CONTRACT_EVENT@ + ".nonce EXISTS"@ + height_range(start, end)
}

/// The address at which the hub's node answers a search.
pub open spec fn search_url(rpc_url: Seq<char>, query: Seq<char>) -> Seq<char> {
    rpc_url + "/tx_search?query=\""@ + percent_encoded(vstd::utf8::encode_utf8(query)) + "\""@
}

/// The events of one transaction of a search result, which also has to
/// state its hash, height, index and bytes.
pub open spec fn found_tx_events(j: JsonTree) -> Option<Seq<EventView>> {
    match (
        j.str_field("hash"@),
        j.str_field("height"@),
        j.field("index"@),
        j.field("tx_result"@),
        j.str_field("tx"@),
    ) {
        (Some(_), Some(_), Some(index), Some(outcome), Some(_)) => if index.as_u64() is Some {
            outcome_events(outcome)
        } else {
            None
        },
        _ => None,
    }
}

/// The events of the transactions of a search result, in their order.
pub open spec fn found_events(txs: Seq<JsonTree>) -> Option<Seq<EventView>>
    decreases txs.len(),
{
    if txs.len() == 0 {
        Some(Seq::empty())
    } else {
        match (found_events(txs.drop_last()), found_tx_events(txs.last())) {
            (Some(head), Some(last)) => Some(head + last),
            _ => None,
        }
    }
}

/// The events that the answer to a search carries.
pub open spec fn search_events(j: JsonTree) -> Option<Seq<EventView>> {
    match (j.field("id"@), j.str_field("jsonrpc"@), j.field("result"@)) {
        (Some(id), Some(_), Some(result)) => match (
            id.as_i64(),
            result.field("txs"@),
            result.str_field("total_count"@),
        ) {
            (Some(n), Some(JsonTree::Array(txs)), Some(_)) => if i32::MIN <= n <= i32::MAX {
                found_events(txs)
            } else {
                None
            },
            _ => None,
        },
        _ => None,
    }
}

/// The store and the payloads that were kept after the payload events of
/// a search: a payload that can be read is handed to the store, and kept
/// for the search of its approval, if the store has a pending action with
/// its nonce.
pub open spec fn calls_synced(s: StoreState, events: Seq<EventView>) -> (StoreState, Seq<AxelarCallView>)
    decreases events.len(),
{
    if events.len() == 0 {
        (s, Seq::empty())
    } else {
        let (t, kept) = calls_synced(s, events.drop_last());
        match axelar_call_of(events.last()) {
            Ok(row) => if t.has_pending(row.nonce) {
                (t.save_axelar(row), kept.push(row))
            } else {
                (t, kept)
            },
            Err(_) => (t, kept),
        }
    }
}

/// Appends the condition that confines a search to a range of blocks.
fn push_height_range(query: &mut String, start_height: u64, end_height: u64)
    ensures
        final(query)@ == old(query)@ + height_range(start_height, end_height),
{
    query.append(" AND tx.height>=");
    push_decimal(query, start_height);
    query.append(" AND tx.height<=");
    push_decimal(query, end_height);
    assert(final(query)@ =~= old(query)@ + height_range(start_height, end_height));
}

/// The search for the pending actions of a bridge in a range of blocks.
pub fn pending_action_query(bridge_id: &str, start_height: u64, end_height: u64) -> (r: String)
    ensures
        r@ == pending_action_search(bridge_id@, start_height, end_height),
{
    let mut query = CARBON_BRIDGE_PENDING_ACTION_EVENT.to_owned();
    query.append(".connection_id CONTAINS '");
    query.append(bridge_id);
    query.append("/'");
    push_height_range(&mut query, start_height, end_height);
    query
}

/// The search for the payloads in a range of blocks.
pub fn call_contract_query(start_height: u64, end_height: u64) -> (r: String)
    ensures
        r@ == call_contract_search(start_height, end_height),
{
    let mut query = CARBON_AXELAR_CALL_CONTRACT_EVENT.to_owned();
    query.append(".nonce EXISTS");
    push_height_range(&mut query, start_height, end_height);
    query
}

/// The address at which the hub's node answers the search `query`.
pub fn abci_query(carbon_rpc_url: &str, query: &str) -> (r: String)
    ensures
        r@ == search_url(carbon_rpc_url@, query@),
{
    let encoded = url_encode(query);
    let mut url = carbon_rpc_url.to_owned();
    url.append("/tx_search?query=\"");
    url.append(encoded.as_str());
    url.append("\"");
    url
}

impl TxResult {
    /// Reads a transaction of a search result from a JSON object.
    pub fn from_json(j: &Json) -> (r: Option<TxResult>)
        ensures
            match r {
                Some(t) => {
                    &&& found_tx_events(j@) == Some(event_views(t.tx_result.events@))
                    &&& j@.str_field("hash"@) == Some(t.hash@)
                    &&& j@.str_field("height"@) == Some(t.height@)
                    &&& j@.field("index"@)->0.as_u64() == Some(t.index)
                    &&& j@.str_field("tx"@) == Some(t.tx@)
                },
                None => found_tx_events(j@) is None,
            },
    {
        let hash = match j.str_field("hash") {
            Some(v) => v,
            None => {
                return None;
            },
        };
        let height = match j.str_field("height") {
            Some(v) => v,
            None => {
                return None;
            },
        };
        let index_json = match j.field("index") {
            Some(v) => v,
            None => {
                return None;
            },
        };
        let outcome = match j.field("tx_result") {
            Some(v) => v,
            None => {
                return None;
            },
        };
        let tx = match j.str_field("tx") {
            Some(v) => v,
            None => {
                return None;
            },
        };
        let index = match index_json.as_u64() {
            Some(v) => v,
            None => {
                return None;
            },
        };
        match TxResultInner::from_json(outcome) {
            Some(tx_result) => Some(
                TxResult {
                    hash: hash.to_owned(),
                    height: height.to_owned(),
                    index,
                    tx_result,
                    tx: tx.to_owned(),
                },
            ),
            None => None,
        }
    }
}

/// If a prefix of the transactions does not denote events, the whole
/// does not.
proof fn lemma_found_prefix(txs: Seq<JsonTree>, n: int)
    requires
        0 <= n <= txs.len(),
        found_events(txs.take(n)) is None,
    ensures
        found_events(txs) is None,
    decreases txs.len() - n,
{
    if n < txs.len() {
        assert(txs.take(n + 1).drop_last() =~= txs.take(n));
        lemma_found_prefix(txs, n + 1);
    } else {
        assert(txs.take(n) =~= txs);
    }
}

/// Appends copies of `more` to `events`.
fn append_events(events: &mut Vec<Event>, more: &Vec<Event>)
    ensures
        event_views(final(events)@) == event_views(old(events)@) + event_views(more@),
{
    let ghost start = event_views(events@);
    let mut i: usize = 0;
    while i < more.len()
        invariant
            i <= more@.len(),
            event_views(events@) == start + event_views(more@.take(i as int)),
        decreases more@.len() - i,
    {
        let ghost before = event_views(events@);
        events.push(more[i].clone());
        assert(event_views(events@) =~= before.push(more@[i as int]@));
        assert(event_views(more@.take(i + 1)) =~= event_views(more@.take(i as int)).push(
            more@[i as int]@,
        ));
        assert(event_views(events@) =~= start + event_views(more@.take(i + 1)));
        i += 1;
    }
    assert(more@.take(i as int) =~= more@);
}

/// The events of the given type in the answer to a search.
pub fn extract_events(response: &Json, event_type: &str) -> (r: Result<Vec<Event>, SyncError>)
    ensures
        match r {
            Ok(events) => search_events(response@) is Some && event_views(events@) == events_named(
                search_events(response@)->0,
                event_type@,
            ),
            Err(_) => search_events(response@) is None,
        },
{
    let id_ok = match response.field("id") {
        Some(id) => match id.as_i64() {
            Some(n) => n >= -2147483648 && n <= 2147483647,
            None => false,
        },
        None => false,
    };
    if !id_ok {
        return Err(SyncError::Shape);
    }
    if response.str_field("jsonrpc").is_none() {
        return Err(SyncError::Shape);
    }
    let result = match response.field("result") {
        Some(v) => v,
        None => {
            return Err(SyncError::Shape);
        },
    };
    let txs = match result.field("txs") {
        Some(a) => match a.as_array() {
            Some(items) => items,
            None => {
                return Err(SyncError::Shape);
            },
        },
        None => {
            return Err(SyncError::Shape);
        },
    };
    if result.str_field("total_count").is_none() {
        return Err(SyncError::Shape);
    }
    let ghost trees = items_view(txs@);
    let mut all: Vec<Event> = Vec::new();
    let mut i: usize = 0;
    while i < txs.len()
        invariant
            i <= txs@.len(),
            trees == items_view(txs@),
            search_events(response@) == found_events(trees),
            found_events(trees.take(i as int)) == Some(event_views(all@)),
        decreases txs@.len() - i,
    {
        proof {
            assert(trees.take(i + 1).drop_last() =~= trees.take(i as int));
            assert(trees.take(i + 1).last() == txs@[i as int]@);
        }
        match TxResult::from_json(&txs[i]) {
            Some(tx) => {
                append_events(&mut all, &tx.tx_result.events);
            },
            None => {
                proof {
                    lemma_found_prefix(trees, i + 1);
                }
                return Err(SyncError::Shape);
            },
        }
        i += 1;
    }
    assert(trees.take(i as int) =~= trees);
    Ok(filter_events(&all, event_type))
}

/// Whether a payload is to be kept: the store has a pending action with
/// its nonce.
pub fn should_save_call_contract_event(
    store: &EventStore,
    axelar_call_contract_event: &DbAxelarCallContractEvent,
) -> (r: bool)
    requires
        store@.wf(),
    ensures
        r == store@.has_pending(axelar_call_contract_event.nonce),
{
    store.get_pending_action_by_nonce(axelar_call_contract_event.nonce).is_some()
}

/// Deals with the pending action events of a search: each action that can
/// be read and has not expired at `now` is handed to the store.
pub fn sync_pending_actions(store: &mut EventStore, events: &Vec<Event>, now: &Timestamp) -> (r: Vec<
    PendingIngest,
>)
    requires
        old(store)@.wf(),
    ensures
        r@.len() == events@.len(),
        final(store)@ == pending_ingested_all(old(store)@, event_views(events@), *now),
        forall|i: int|
            0 <= i < events@.len() ==> pending_ingest_matches(
                #[trigger] r@[i],
                pending_ingested_all(old(store)@, event_views(events@).take(i), *now),
                event_views(events@)[i],
                *now,
            ),
        final(store)@.wf(),
{
    ingest_pending_actions(store, events, now)
}

/// Deals with the payload events of a search: each payload that can be
/// read is handed to the store, and returned for the search of its
/// approval, if the store has a pending action with its nonce.
pub fn sync_call_contract_events(store: &mut EventStore, events: &Vec<Event>) -> (r: Vec<
    DbAxelarCallContractEvent,
>)
    requires
        old(store)@.wf(),
    ensures
        final(store)@ == calls_synced(old(store)@, event_views(events@)).0,
        axelar_views(r@) == calls_synced(old(store)@, event_views(events@)).1,
        final(store)@.wf(),
{
    let ghost views = event_views(events@);
    let ghost start = store@;
    let mut kept: Vec<DbAxelarCallContractEvent> = Vec::new();
    let mut i: usize = 0;
    while i < events.len()
        invariant
            i <= events@.len(),
            views == event_views(events@),
            store@.wf(),
            store@ == calls_synced(start, views.take(i as int)).0,
            axelar_views(kept@) == calls_synced(start, views.take(i as int)).1,
        decreases events@.len() - i,
    {
        proof {
            assert(views.take(i + 1).drop_last() =~= views.take(i as int));
            assert(views.take(i + 1).last() == events@[i as int]@);
        }
        match parse_axelar_call_contract_event(&events[i]) {
            Ok(call) => {
                if should_save_call_contract_event(store, &call) {
                    store.save_axelar_call_contract_event(&call);
                    let ghost before = axelar_views(kept@);
                    kept.push(call);
                    assert(axelar_views(kept@) =~= before.push(call@));
                }
            },
            Err(_) => {},
        }
        i += 1;
    }
    assert(views.take(i as int) =~= views);
    kept
}

/// The chain on which the approval of a kept payload is to be looked
/// for: the chain of the pending action with the payload's nonce, if the
/// store has the action and a configured chain serves it.
pub fn sync_chain(store: &EventStore, chains: &Vec<Chain>, call: &DbAxelarCallContractEvent) -> (r:
    Option<usize>)
    requires
        store@.wf(),
    ensures
        match r {
            Some(i) => store@.pending_by_nonce(call.nonce) is Some && chain_index(
                chains@,
                store@.pending_by_nonce(call.nonce)->0.chain_id,
            ) == Some(i as int),
            None => store@.pending_by_nonce(call.nonce) is None || chain_index(
                chains@,
                store@.pending_by_nonce(call.nonce)->0.chain_id,
            ) is None,
        },
{
    match store.get_chain_id_for_nonce(call.nonce) {
        Some(chain_id) => find_chain(chains, chain_id.as_str()),
        None => None,
    }
}

/// The selection of logs in which the approval of a payload is looked
/// for: the gateway's logs that name the relayer's executable and the
/// payload's hash, in the last `max_query_blocks` blocks before
/// `current_block` and after.
pub fn save_contract_call_approved_events(
    chain_config: &Chain,
    payload_hash: &str,
    current_block: u64,
) -> (r: Result<LogFilter, FilterError>)
    ensures
        match r {
            Ok(f) => {
                &&& fixed_bytes(chain_config.axelar_gateway_proxy@, 20) == Some(f.address@)
                &&& fixed_bytes(chain_config.carbon_axelar_gateway@, 20) is Some
                &&& f.topic2@ == address_topic(
                    fixed_bytes(chain_config.carbon_axelar_gateway@, 20)->0,
                )
                &&& f.topic0 is None
                &&& f.topic3 is Some && fixed_bytes(payload_hash@, 32) == Some(f.topic3->0@)
                &&& f.from_block == Some(first_block(current_block, chain_config.max_query_blocks))
                &&& f.to_block is None
            },
            Err(FilterError::GatewayAddress) => fixed_bytes(chain_config.axelar_gateway_proxy@, 20)
                is None,
            Err(FilterError::ExecutableAddress) => fixed_bytes(
                chain_config.axelar_gateway_proxy@,
                20,
            ) is Some && fixed_bytes(chain_config.carbon_axelar_gateway@, 20) is None,
            Err(FilterError::PayloadHash) => fixed_bytes(chain_config.axelar_gateway_proxy@, 20)
                is Some && fixed_bytes(chain_config.carbon_axelar_gateway@, 20) is Some
                && fixed_bytes(payload_hash@, 32) is None,
        },
{
    let f = match live_filter(chain_config) {
        Ok(f) => f,
        Err(e) => {
            return Err(e);
        },
    };
    let topic3 = match crate::codec::hex_decode(payload_hash) {
        Some(bytes) => {
            if bytes.len() == 32 {
                bytes
            } else {
                return Err(FilterError::PayloadHash);
            }
        },
        None => {
            return Err(FilterError::PayloadHash);
        },
    };
    Ok(
        LogFilter {
            address: f.address,
            topic0: None,
            topic2: f.topic2,
            topic3: Some(topic3),
            from_block: Some(current_block.saturating_sub(chain_config.max_query_blocks)),
            to_block: None,
        },
    )
}

} // verus!
