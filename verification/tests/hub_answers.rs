use carbon_axelar_relayer::carbon::listener::SubscriptionKind;
use carbon_axelar_relayer::conf::Chain;
use carbon_axelar_relayer::db::store::EventStore;
use carbon_axelar_relayer::db::{Coin, DbPendingActionEvent, RelayDetails};
use carbon_axelar_relayer::evm::listener::FilterError;
use carbon_axelar_relayer::json::Json;
use carbon_axelar_relayer::operational::tx_sync::{
    call_contract_query, extract_events as extract_search_events, pending_action_query,
    save_contract_call_approved_events, should_save_call_contract_event, sync_call_contract_events,
    sync_chain, sync_pending_actions, SyncError,
};
use carbon_axelar_relayer::util::carbon::parser::{
    parse_axelar_call_contract_event, parse_bridge_pending_action_event,
    parse_bridge_reverted_event, parse_expired_pending_action_event, parse_relay_details,
    ParseError,
};
use carbon_axelar_relayer::util::carbon::query::{
    get_pending_action, get_pending_action_nonces, get_pending_action_relay_details,
    pending_action_nonces_url, pending_action_url, QueryError,
};
use carbon_axelar_relayer::util::carbon::tx::{
    account_url, adjusted_gas, block_url, broadcast_url, timeout_height, DEFAULT_GAS,
};
use carbon_axelar_relayer::util::cosmos::{
    extract_events, filter_events, find_attribute, get_account_info, get_latest_block_height,
    send_transaction, Attribute, CosmosError, Event,
};
use carbon_axelar_relayer::util::datetime::Timestamp;
use carbon_axelar_relayer::ws::{find_subscription, subscribe_message, FrameAction, JSONWebSocketClient};

fn json(text: &str) -> Json {
    Json::parse(text).unwrap()
}

fn attribute(key: &str, value: &str) -> Attribute {
    Attribute { index: false, key: key.to_string(), value: value.to_string() }
}

fn event(event_type: &str, attributes: Vec<Attribute>) -> Event {
    Event { attributes, event_type: event_type.to_string() }
}

const DETAILS: &str = "{\"fee_receiver_address\":\"\",\"fee_sender_address\":\"swth1sender\",\
    \"fee\":{\"denom\":\"usdc\",\"amount\":\"100\"},\"expiry_block_time\":\"2024-05-01T12:10:00Z\",\
    \"created_at\":\"2024-05-01T12:00:00Z\"}";

fn details() -> RelayDetails {
    RelayDetails {
        fee_receiver_address: "".to_string(),
        fee_sender_address: "swth1sender".to_string(),
        fee: Coin { denom: "usdc".to_string(), amount: 100 },
        expiry_block_time: Timestamp::new(1714565400, 0),
        created_at: Timestamp::new(1714564800, 0),
        sent_at: None,
    }
}

fn frame_with(events: &str) -> String {
    format!(
        "{{\"id\":\"1\",\"jsonrpc\":\"2.0\",\"result\":{{\"query\":\"q\",\"data\":{{\
         \"type\":\"tendermint/event/Tx\",\"value\":{{\"TxResult\":{{\"height\":\"10\",\
         \"tx\":\"AAAA\",\"result\":{{\"data\":\"\",\"gas_wanted\":\"1\",\"gas_used\":\"1\",\
         \"events\":{}}}}}}}}}}}}}",
        events
    )
}

const TWO_EVENTS: &str = "[{\"type\":\"a\",\"attributes\":[{\"index\":true,\"key\":\"k\",\"value\":\"v\"}]},\
    {\"type\":\"b\",\"attributes\":[]},\
    {\"type\":\"a\",\"attributes\":[{\"index\":false,\"key\":\"k\",\"value\":\"w\"},\
    {\"index\":false,\"key\":\"k\",\"value\":\"x\"}]}]";

#[test]
fn events_of_one_type_are_taken_from_a_frame() {
    let events = extract_events(&frame_with(TWO_EVENTS), "a").unwrap();
    assert_eq!(events.len(), 2);
    assert_eq!(events[0].event_type, "a");
    assert_eq!(events[0].attributes.len(), 1);
    assert!(events[0].attributes[0].index);
    assert_eq!(events[0].attributes[0].key, "k");
    assert_eq!(events[0].attributes[0].value, "v");
    assert_eq!(events[1].attributes.len(), 2);
    assert_eq!(find_attribute(&events[1], "k"), "w");
    assert_eq!(find_attribute(&events[1], "missing"), "");
    assert_eq!(extract_events(&frame_with(TWO_EVENTS), "b").unwrap().len(), 1);
    assert!(extract_events(&frame_with(TWO_EVENTS), "c").unwrap().is_empty());
    assert!(extract_events(&frame_with("[]"), "a").unwrap().is_empty());
}

#[test]
fn a_frame_must_have_every_field() {
    assert_eq!(extract_events("{", "a").err(), Some(CosmosError::Json));
    assert_eq!(extract_events("{}", "a").err(), Some(CosmosError::Frame));
    assert_eq!(extract_events(&frame_with("{}"), "a").err(), Some(CosmosError::Frame));
    assert_eq!(
        extract_events(&frame_with("[{\"type\":\"a\"}]"), "a").err(),
        Some(CosmosError::Frame)
    );
    assert_eq!(
        extract_events(&frame_with("[{\"type\":\"a\",\"attributes\":[{\"key\":\"k\",\"value\":\"v\"}]}]"), "a").err(),
        Some(CosmosError::Frame)
    );
    let no_tx = frame_with("[]").replace("\"tx\":\"AAAA\",", "");
    assert_eq!(extract_events(&no_tx, "a").err(), Some(CosmosError::Frame));
    let number_id = frame_with("[]").replace("\"id\":\"1\"", "\"id\":1");
    assert_eq!(extract_events(&number_id, "a").err(), Some(CosmosError::Frame));
}

#[test]
fn events_are_filtered_by_type_in_order() {
    let events = vec![
        event("a", vec![attribute("n", "1")]),
        event("b", vec![attribute("n", "2")]),
        event("a", vec![attribute("n", "3")]),
    ];
    let found = filter_events(&events, "a");
    assert_eq!(found.len(), 2);
    assert_eq!(find_attribute(&found[0], "n"), "1");
    assert_eq!(find_attribute(&found[1], "n"), "3");
}

#[test]
fn a_pending_action_is_read_from_its_event() {
    let e = event(
        "Switcheo.carbon.bridge.PendingActionEvent",
        vec![
            attribute("relay_details", DETAILS),
            attribute("pending_action_type", "\"4\""),
            attribute("nonce", "\"42\""),
            attribute("connection_id", "\"axelar/ethereum-1/0xGW\""),
            attribute("nonce", "\"43\""),
        ],
    );
    let expected = DbPendingActionEvent {
        id: -1,
        connection_id: "axelar/ethereum-1/0xGW".to_string(),
        bridge_id: "axelar".to_string(),
        chain_id: "ethereum-1".to_string(),
        nonce: 42,
        pending_action_type: 4,
        retry_count: 0,
        relay_details: details(),
    };
    assert_eq!(parse_bridge_pending_action_event(&e), Ok(expected));
    let none = event("x", vec![]);
    assert_eq!(parse_bridge_pending_action_event(&none), Err(ParseError::RelayDetails));
    assert_eq!(parse_relay_details(DETAILS), Some(details()));
    assert_eq!(parse_relay_details("[]"), None);
}

#[test]
fn an_expiry_notice_is_read_from_its_event() {
    let e = event(
        "Switcheo.carbon.bridge.ExpiredPendingActionEvent",
        vec![
            attribute("nonce", "7"),
            attribute("pending_action_type", "1"),
            attribute("connection_id", "\"axelar/bsc-1/0xGW\""),
            attribute("relay_details", DETAILS),
        ],
    );
    let notice = parse_expired_pending_action_event(&e).unwrap();
    assert_eq!(notice.nonce, 7);
    assert_eq!(notice.pending_action_type, 1);
    assert_eq!(notice.connection_id, "axelar/bsc-1/0xGW");
    assert_eq!(notice.relay_details, details());
    let mut bad = e.clone();
    bad.attributes[1].value = "one".to_string();
    assert_eq!(parse_expired_pending_action_event(&bad).err(), Some(ParseError::PendingActionType));
    let mut bad = e.clone();
    bad.attributes[3].value = "{}".to_string();
    assert_eq!(parse_expired_pending_action_event(&bad).err(), Some(ParseError::RelayDetails));
}

#[test]
fn a_revert_notice_is_read_from_its_event() {
    let e = event(
        "Switcheo.carbon.bridge.BridgeRevertedEvent",
        vec![
            attribute("bridge_id", "\"axelar\""),
            attribute("chain_id", "\"ethereum-1\""),
            attribute("gateway_address", "\"0xGW\""),
            attribute("nonce", "\"-3\""),
        ],
    );
    let notice = parse_bridge_reverted_event(&e).unwrap();
    assert_eq!(notice.id, -1);
    assert_eq!(notice.bridge_id, "axelar");
    assert_eq!(notice.chain_id, "ethereum-1");
    assert_eq!(notice.gateway_address, "0xGW");
    assert_eq!(notice.nonce, -3);
}

#[test]
fn a_payload_is_read_from_its_event() {
    let e = event(
        "Switcheo.carbon.bridge.AxelarCallContractEvent",
        vec![attribute("nonce", "\"42\""), attribute("payload", "\"3q2+7w==\"")],
    );
    let row = parse_axelar_call_contract_event(&e).unwrap();
    assert_eq!(row.nonce, 42);
    assert_eq!(row.payload, "0xdeadbeef");
    assert_eq!(
        row.payload_hash,
        format!("0x{}", hex::encode(ethers::utils::keccak256([0xde, 0xad, 0xbe, 0xef])))
    );
    assert_eq!(row.payload_encoding, "evm_abi");
    assert!(row.has_matching_hash());
    let empty = event("x", vec![attribute("nonce", "1")]);
    let row = parse_axelar_call_contract_event(&empty).unwrap();
    assert_eq!(row.payload, "0x");
}

#[test]
fn account_number_and_sequence_are_read() {
    let ok = json("{\"account\":{\"account_number\":\"12\",\"sequence\":\"345\"}}");
    assert_eq!(get_account_info(&ok), Ok((12, 345)));
    assert_eq!(get_account_info(&json("{}")), Err(CosmosError::AccountNumberMissing));
    assert_eq!(
        get_account_info(&json("{\"account\":{\"account_number\":12,\"sequence\":\"3\"}}")),
        Err(CosmosError::AccountNumberMissing)
    );
    assert_eq!(
        get_account_info(&json("{\"account\":{\"account_number\":\"x\",\"sequence\":\"3\"}}")),
        Err(CosmosError::AccountNumberInvalid)
    );
    assert_eq!(
        get_account_info(&json("{\"account\":{\"account_number\":\"12\"}}")),
        Err(CosmosError::SequenceMissing)
    );
    assert_eq!(
        get_account_info(&json("{\"account\":{\"account_number\":\"12\",\"sequence\":\"-1\"}}")),
        Err(CosmosError::SequenceInvalid)
    );
}

#[test]
fn the_latest_block_height_is_read() {
    let ok = json("{\"result\":{\"block\":{\"header\":{\"height\":\"123456\"}}}}");
    assert_eq!(get_latest_block_height(&ok), Ok(123456));
    assert_eq!(get_latest_block_height(&json("{\"result\":{}}")), Err(CosmosError::HeightMissing));
    assert_eq!(
        get_latest_block_height(&json("{\"result\":{\"block\":{\"header\":{\"height\":123}}}}")),
        Err(CosmosError::HeightMissing)
    );
    assert_eq!(
        get_latest_block_height(&json("{\"result\":{\"block\":{\"header\":{\"height\":\"1.5\"}}}}")),
        Err(CosmosError::HeightInvalid)
    );
}

#[test]
fn a_transaction_is_taken_when_its_code_is_zero() {
    assert_eq!(send_transaction(&json("{\"tx_response\":{\"code\":0,\"txhash\":\"AB\"}}")), Ok(()));
    assert_eq!(
        send_transaction(&json("{\"tx_response\":{\"code\":32,\"raw_log\":\"sequence\"}}")),
        Err(CosmosError::TxFailed)
    );
    assert_eq!(send_transaction(&json("{\"tx_response\":{}}")), Err(CosmosError::CodeMissing));
    assert_eq!(send_transaction(&json("{\"code\":0}")), Err(CosmosError::CodeMissing));
    assert_eq!(
        send_transaction(&json("{\"tx_response\":{\"code\":\"0\"}}")),
        Err(CosmosError::CodeMissing)
    );
    assert_eq!(
        send_transaction(&json("{\"tx_response\":{\"code\":0.0}}")),
        Err(CosmosError::CodeMissing)
    );
}

#[test]
fn transaction_figures() {
    assert_eq!(adjusted_gas(DEFAULT_GAS), Some(1_200_000_000));
    assert_eq!(adjusted_gas(0), Some(0));
    assert_eq!(adjusted_gas(9), Some(10));
    assert_eq!(adjusted_gas(u64::MAX), None);
    assert_eq!(timeout_height(1000), Some(1100));
    assert_eq!(timeout_height(u64::MAX - 100), Some(u64::MAX));
    assert_eq!(timeout_height(u64::MAX - 99), None);
    assert_eq!(account_url("http://hub", "swth1x"), "http://hub/cosmos/auth/v1beta1/accounts/swth1x");
    assert_eq!(block_url("http://hub"), "http://hub/block");
    assert_eq!(broadcast_url("http://hub"), "http://hub/cosmos/tx/v1beta1/txs");
}

#[test]
fn pending_nonces_are_read() {
    assert_eq!(pending_action_nonces_url("http://hub"), "http://hub/carbon/bridge/v1/pending_action_nonce");
    assert_eq!(pending_action_url("http://hub", 42), "http://hub/carbon/bridge/v1/pending_action/42");
    assert_eq!(pending_action_url("http://hub", -1), "http://hub/carbon/bridge/v1/pending_action/-1");
    let ok = json("{\"pending_action_nonces\":[\"11\",\"12\",\"-3\"]}");
    assert_eq!(get_pending_action_nonces(&ok), Ok(vec![11, 12, -3]));
    assert_eq!(get_pending_action_nonces(&json("{\"pending_action_nonces\":[]}")), Ok(vec![]));
    assert_eq!(get_pending_action_nonces(&json("{}")), Err(QueryError::NoncesMissing));
    assert_eq!(
        get_pending_action_nonces(&json("{\"pending_action_nonces\":\"11\"}")),
        Err(QueryError::NoncesMissing)
    );
    assert_eq!(
        get_pending_action_nonces(&json("{\"pending_action_nonces\":[\"11\",12,\"x\"]}")),
        Err(QueryError::NonceNotString)
    );
    assert_eq!(
        get_pending_action_nonces(&json("{\"pending_action_nonces\":[\"11\",\"x\",12]}")),
        Err(QueryError::NonceInvalid)
    );
}

fn action_answer(action: &str) -> Json {
    Json::object(vec![("action".to_string(), Json::string(action))])
}

#[test]
fn a_pending_action_is_read_from_the_hub() {
    let action = format!(
        "{{\"connection_id\":\"axelar/ethereum-1/0xGW\",\"method\":\"withdraw_and_execute_x\",\"relay_details\":{}}}",
        DETAILS
    );
    let row = get_pending_action(&action_answer(&action), 42).unwrap();
    assert_eq!(row.id, -1);
    assert_eq!(row.nonce, 42);
    assert_eq!(row.connection_id, "axelar/ethereum-1/0xGW");
    assert_eq!(row.bridge_id, "axelar");
    assert_eq!(row.chain_id, "ethereum-1");
    assert_eq!(row.pending_action_type, 3);
    assert_eq!(row.retry_count, 0);
    assert_eq!(row.relay_details, details());
    assert_eq!(get_pending_action_relay_details(&action_answer(&action)), Ok(details()));
}

#[test]
fn what_is_wrong_with_a_pending_action_is_named() {
    assert_eq!(get_pending_action(&json("{}"), 1).err(), Some(QueryError::ActionMissing));
    assert_eq!(get_pending_action(&action_answer("{"), 1).err(), Some(QueryError::ActionJson));
    assert_eq!(get_pending_action(&action_answer("{}"), 1).err(), Some(QueryError::ConnectionIdMissing));
    assert_eq!(
        get_pending_action(&action_answer("{\"connection_id\":\"a/b/c\"}"), 1).err(),
        Some(QueryError::RelayDetails)
    );
    let short = format!("{{\"connection_id\":\"a/b\",\"method\":\"withdraw\",\"relay_details\":{}}}", DETAILS);
    assert_eq!(get_pending_action(&action_answer(&short), 1).err(), Some(QueryError::ConnectionId));
    let no_method = format!("{{\"connection_id\":\"a/b/c\",\"relay_details\":{}}}", DETAILS);
    assert_eq!(get_pending_action(&action_answer(&no_method), 1).err(), Some(QueryError::ActionType));
    let odd_method = format!("{{\"connection_id\":\"a/b/c\",\"method\":\"mint\",\"relay_details\":{}}}", DETAILS);
    assert_eq!(get_pending_action(&action_answer(&odd_method), 1).err(), Some(QueryError::ActionType));
    assert_eq!(get_pending_action_relay_details(&json("{}")).err(), Some(QueryError::ActionMissing));
    assert_eq!(
        get_pending_action_relay_details(&action_answer("{\"relay_details\":{}}")).err(),
        Some(QueryError::RelayDetails)
    );
}

#[test]
fn the_subscribe_request_has_the_expected_text() {
    assert_eq!(
        subscribe_message("1", "a.b CONTAINS 'x/'"),
        "{\"id\":\"1\",\"jsonrpc\":\"2.0\",\"method\":\"subscribe\",\"params\":{\"query\":\"a.b CONTAINS 'x/'\"}}"
    );
}

#[test]
fn frames_go_to_their_subscription() {
    let mut client = JSONWebSocketClient::new("ws://hub".to_string());
    client.add_cosmos_subscription("1".to_string(), "q1".to_string(), SubscriptionKind::PendingAction);
    client.add_cosmos_subscription("2".to_string(), "q2".to_string(), SubscriptionKind::BridgeReverted);
    client.add_cosmos_subscription("1".to_string(), "q3".to_string(), SubscriptionKind::AxelarCallContract);
    assert_eq!(client.url, "ws://hub");
    assert_eq!(client.handle_message(""), FrameAction::Ignore);
    assert_eq!(client.handle_message("oops"), FrameAction::Malformed);
    assert_eq!(client.handle_message("{\"id\":\"1\",\"result\":{}}"), FrameAction::Ignore);
    assert_eq!(client.handle_message("{\"id\":\"1\"}"), FrameAction::Ignore);
    assert_eq!(client.handle_message("{\"id\":\"1\",\"result\":[1]}"), FrameAction::Ignore);
    assert_eq!(client.handle_message("{\"id\":\"2\",\"result\":{\"a\":1}}"), FrameAction::Dispatch(1));
    assert_eq!(client.handle_message("{\"id\":\"1\",\"result\":{\"a\":1}}"), FrameAction::Dispatch(2));
    assert_eq!(client.handle_message("{\"id\":\"9\",\"result\":{\"a\":1}}"), FrameAction::UnknownSubscription);
    assert_eq!(client.handle_message("{\"id\":1,\"result\":{\"a\":1}}"), FrameAction::MissingId);
    assert_eq!(client.handle_message("{\"result\":{\"a\":1}}"), FrameAction::MissingId);
    assert_eq!(find_subscription(&client.subscriptions, "2"), Some(1));
    assert_eq!(find_subscription(&client.subscriptions, "3"), None);
}

fn search_answer(txs: &str) -> Json {
    json(&format!(
        "{{\"id\":-1,\"jsonrpc\":\"2.0\",\"result\":{{\"txs\":{},\"total_count\":\"2\"}}}}",
        txs
    ))
}

fn found_tx(events: &str) -> String {
    format!(
        "{{\"hash\":\"AB\",\"height\":\"5\",\"index\":0,\"tx\":\"AAAA\",\"tx_result\":{{\"data\":\"\",\
         \"gas_wanted\":\"1\",\"gas_used\":\"1\",\"events\":{}}}}}",
        events
    )
}

#[test]
fn searches_are_worded() {
    assert_eq!(
        pending_action_query("axelar", 100, 200),
        "Switcheo.carbon.bridge.PendingActionEvent.connection_id CONTAINS 'axelar/' AND tx.height>=100 AND tx.height<=200"
    );
    assert_eq!(
        call_contract_query(0, 18446744073709551615),
        "Switcheo.carbon.bridge.AxelarCallContractEvent.nonce EXISTS AND tx.height>=0 AND tx.height<=18446744073709551615"
    );
}

#[test]
fn events_are_taken_from_a_search_result() {
    let answer = search_answer(&format!("[{},{}]", found_tx(TWO_EVENTS), found_tx(TWO_EVENTS)));
    let events = extract_search_events(&answer, "a").unwrap();
    assert_eq!(events.len(), 4);
    assert_eq!(find_attribute(&events[0], "k"), "v");
    assert_eq!(find_attribute(&events[1], "k"), "w");
    assert_eq!(find_attribute(&events[2], "k"), "v");
    assert_eq!(extract_search_events(&answer, "b").unwrap().len(), 2);
    assert!(extract_search_events(&search_answer("[]"), "a").unwrap().is_empty());
    assert_eq!(extract_search_events(&json("{}"), "a").err(), Some(SyncError::Shape));
    let no_index = found_tx("[]").replace("\"index\":0,", "");
    assert_eq!(
        extract_search_events(&search_answer(&format!("[{}]", no_index)), "a").err(),
        Some(SyncError::Shape)
    );
    let big_id = search_answer("[]").to_text().replace("\"id\":-1", "\"id\":4294967296");
    assert_eq!(extract_search_events(&json(&big_id), "a").err(), Some(SyncError::Shape));
}

fn chain(chain_id: &str, max_query_blocks: u64) -> Chain {
    Chain {
        chain_id: chain_id.to_string(),
        rpc_url: "http://evm".to_string(),
        ws_url: "ws://evm".to_string(),
        has_ws: false,
        axelar_gateway_proxy: format!("0x{}", "aa".repeat(20)),
        carbon_axelar_gateway: format!("0x{}", "bb".repeat(20)),
        max_query_blocks,
        relayer_private_key: "SECRET-REDACTED".to_string(),
        backfill_poll_frequency: Some(60),
    }
}

#[test]
fn a_synced_range_fills_the_store() {
    let mut store = EventStore::new();
    let now = Timestamp::new(1714564800, 0);
    let pending = |nonce: &str, expiry: &str| {
        event(
            "Switcheo.carbon.bridge.PendingActionEvent",
            vec![
                attribute("connection_id", "\"axelar/ethereum-1/0xGW\""),
                attribute("nonce", nonce),
                attribute("pending_action_type", "4"),
                attribute("relay_details", &DETAILS.replace("2024-05-01T12:10:00Z", expiry)),
            ],
        )
    };
    let events = vec![
        pending("1", "2024-05-01T12:10:00Z"),
        pending("2", "2024-05-01T11:00:00Z"),
        pending("x", "2024-05-01T12:10:00Z"),
        pending("1", "2024-05-01T12:10:00Z"),
    ];
    let done = sync_pending_actions(&mut store, &events, &now);
    assert_eq!(done.len(), 4);
    assert!(store.get_pending_action_by_nonce(1).is_some());
    assert!(store.get_pending_action_by_nonce(2).is_none());

    let payload = |nonce: &str, data: &str| {
        event(
            "Switcheo.carbon.bridge.AxelarCallContractEvent",
            vec![attribute("nonce", nonce), attribute("payload", data)],
        )
    };
    let calls = vec![payload("1", "\"3q2+7w==\""), payload("2", "\"AAAA\""), payload("1", "\"!\"")];
    let kept = sync_call_contract_events(&mut store, &calls);
    assert_eq!(kept.len(), 1);
    assert_eq!(kept[0].payload, "0xdeadbeef");
    assert!(should_save_call_contract_event(&store, &kept[0]));
    assert!(store.get_axelar_call_contract_event(&kept[0].payload_hash).is_some());

    let chains = vec![chain("bsc-1", 10), chain("ethereum-1", 10)];
    assert_eq!(sync_chain(&store, &chains, &kept[0]), Some(1));
    assert_eq!(sync_chain(&store, &vec![chain("bsc-1", 10)], &kept[0]), None);
    let mut other = kept[0].clone();
    other.nonce = 77;
    assert_eq!(sync_chain(&store, &chains, &other), None);
    assert!(!should_save_call_contract_event(&store, &other));

    let filter = save_contract_call_approved_events(&chains[1], &kept[0].payload_hash, 105).unwrap();
    assert_eq!(filter.from_block, Some(95));
    assert_eq!(filter.to_block, None);
    assert_eq!(filter.topic3.unwrap(), ethers::utils::keccak256([0xde, 0xad, 0xbe, 0xef]).to_vec());
    assert_eq!(filter.address, vec![0xaa; 20]);
    assert!(filter.topic0.is_none());
    assert_eq!(
        save_contract_call_approved_events(&chains[1], &kept[0].payload_hash, 5).unwrap().from_block,
        Some(0)
    );
    assert_eq!(
        save_contract_call_approved_events(&chains[1], "0x1234", 5).err(),
        Some(FilterError::PayloadHash)
    );
}
