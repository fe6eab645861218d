use carbon_axelar_relayer::carbon::broadcaster::HubMessage;
use carbon_axelar_relayer::carbon::listener::{
    ingest_pending_action, init_ws, process_axelar_call_contract_event,
    process_bridge_pending_action, process_bridge_reverted_event,
    process_expired_pending_action_event, AxelarIngest, PendingIngest, SubscriptionKind,
};
use carbon_axelar_relayer::carbon::retry::{
    expired_nonces, is_expired_or_sent, is_whitelisted_or_sufficient_fees, needs_hydrogen_quote,
    prune_processed_nonces, queue_expire_relay, queue_start_relay, record_start_relay,
    retry_pending_actions, Delivery,
};
use carbon_axelar_relayer::conf::{find_chain, Carbon, Chain, Fee, RelayStrategy};
use carbon_axelar_relayer::db::evm_events::{save_call_contract_approved_event, ApprovedIngest};
use carbon_axelar_relayer::db::store::{EventStore, SaveOutcome, StatusChange};
use carbon_axelar_relayer::db::{
    BroadcastStatus, Coin, DbAxelarCallContractEvent, DbPendingActionEvent, RelayDetails,
};
use carbon_axelar_relayer::evm::broadcaster::{
    begin_broadcast, broadcast_result, classify_send_error, finish_broadcast, initial_attempt,
    next_step, queue_new_events_for_broadcast, BroadcastAttempt, BroadcastFailure, BroadcastStep,
    SendOutcome, WorkerStep,
};
use carbon_axelar_relayer::evm::listener::{backfill, live_filter, FilterError};
use carbon_axelar_relayer::fee::fee::{
    get_hydrogen_fee, get_hydrogen_fee_url, has_enough_fees, FeeError, FeeResponse,
};
use carbon_axelar_relayer::fee::strategies::{
    check_all_strategy, check_greater_than_0_strategy, check_hydrogen_strategy, meets_quote,
};
use carbon_axelar_relayer::db::PendingActionType;
use carbon_axelar_relayer::operational::expire::expire_pending_actions;
use carbon_axelar_relayer::util::carbon::msg::{MsgPruneExpiredPendingActions, MsgStartRelay};
use carbon_axelar_relayer::util::carbon::parser::ParseError;
use carbon_axelar_relayer::util::cosmos::{Attribute, CosmosError, Event};
use carbon_axelar_relayer::util::datetime::Timestamp;
use carbon_axelar_relayer::util::evm::ContractCallApprovedEvent;

const NOW: i64 = 1714564800;

fn now() -> Timestamp {
    Timestamp::new(NOW, 0)
}

fn carbon() -> Carbon {
    Carbon {
        chain_id: "carbon-1".to_string(),
        axelar_bridge_id: "axelar".to_string(),
        rpc_url: "http://hub:26657".to_string(),
        rest_url: "http://hub:1317".to_string(),
        ws_url: "ws://hub:26657/websocket".to_string(),
        relayer_address: "swth1relayer".to_string(),
        relayer_mnemonic: "SECRET-REDACTED".to_string(),
        account_prefix: "swth".to_string(),
        maximum_start_relay_retry_count: 3,
    }
}

fn fee(strategy: RelayStrategy) -> Fee {
    Fee {
        relay_strategy: strategy,
        hydrogen_url: "http://hydrogen".to_string(),
        fee_tolerance_bp: 500,
        whitelist_addresses: vec!["swth1friend".to_string()],
    }
}

fn chain(chain_id: &str) -> Chain {
    Chain {
        chain_id: chain_id.to_string(),
        rpc_url: "http://evm".to_string(),
        ws_url: "ws://evm".to_string(),
        has_ws: true,
        axelar_gateway_proxy: format!("0x{}", "aa".repeat(20)),
        carbon_axelar_gateway: format!("0x{}", "bb".repeat(20)),
        max_query_blocks: 1000,
        relayer_private_key: "SECRET-REDACTED".to_string(),
        backfill_poll_frequency: None,
    }
}

fn pending(nonce: i64, amount: u64, denom: &str, action_type: i32, expiry: i64) -> DbPendingActionEvent {
    DbPendingActionEvent {
        id: -1,
        connection_id: "axelar/ethereum-1/0xGW".to_string(),
        bridge_id: "axelar".to_string(),
        chain_id: "ethereum-1".to_string(),
        nonce,
        pending_action_type: action_type,
        retry_count: 0,
        relay_details: RelayDetails {
            fee_receiver_address: "".to_string(),
            fee_sender_address: "swth1sender".to_string(),
            fee: Coin { denom: denom.to_string(), amount },
            expiry_block_time: Timestamp::new(expiry, 0),
            created_at: Timestamp::new(NOW - 60, 0),
            sent_at: None,
        },
    }
}

fn quote(withdraw: &str) -> FeeResponse {
    FeeResponse {
        withdraw: withdraw.to_string(),
        register_token: "5000".to_string(),
        deregister_token: "4000".to_string(),
        deploy_native_token: "3000".to_string(),
        withdraw_and_execute: "2000".to_string(),
        quoted_at: "2024-05-01T12:00:00Z".to_string(),
    }
}

fn attribute(key: &str, value: &str) -> Attribute {
    Attribute { index: true, key: key.to_string(), value: value.to_string() }
}

fn pending_event(nonce: &str, expiry: &str) -> Event {
    let details = format!(
        "{{\"fee_receiver_address\":\"\",\"fee_sender_address\":\"swth1sender\",\
         \"fee\":{{\"denom\":\"usdc\",\"amount\":\"100\"}},\"expiry_block_time\":\"{}\",\
         \"created_at\":\"2024-05-01T11:59:00Z\",\"sent_at\":null}}",
        expiry
    );
    Event {
        attributes: vec![
            attribute("connection_id", "\"axelar/ethereum-1/0xGW\""),
            attribute("nonce", nonce),
            attribute("pending_action_type", "4"),
            attribute("relay_details", &details),
        ],
        event_type: "Switcheo.carbon.bridge.PendingActionEvent".to_string(),
    }
}

fn payload_event(nonce: &str, payload_base64: &str) -> Event {
    Event {
        attributes: vec![
            attribute("nonce", nonce),
            attribute("payload", &format!("\"{}\"", payload_base64)),
        ],
        event_type: "Switcheo.carbon.bridge.AxelarCallContractEvent".to_string(),
    }
}

fn approval(payload: &[u8]) -> ContractCallApprovedEvent {
    ContractCallApprovedEvent {
        command_id: vec![0x01; 32],
        source_chain: "carbon".to_string(),
        source_address: "swth1sender".to_string(),
        contract_address: vec![0xbb; 20],
        payload_hash: ethers::utils::keccak256(payload).to_vec(),
        source_tx_hash: vec![0x02; 32],
        source_event_index: "3".to_string(),
    }
}

fn frame(events_json: &str) -> String {
    format!(
        "{{\"id\":\"1\",\"jsonrpc\":\"2.0\",\"result\":{{\"query\":\"q\",\"data\":{{\
         \"type\":\"tendermint/event/Tx\",\"value\":{{\"TxResult\":{{\"height\":\"10\",\
         \"tx\":\"AAAA\",\"result\":{{\"data\":\"\",\"gas_wanted\":\"1\",\"gas_used\":\"1\",\
         \"events\":[{}]}}}}}}}}}}}}",
        events_json
    )
}

fn pending_event_json(nonce: i64, expiry: &str) -> String {
    format!(
        "{{\"type\":\"Switcheo.carbon.bridge.PendingActionEvent\",\"attributes\":[\
         {{\"index\":true,\"key\":\"connection_id\",\"value\":\"\\\"axelar/ethereum-1/0xGW\\\"\"}},\
         {{\"index\":true,\"key\":\"nonce\",\"value\":\"\\\"{}\\\"\"}},\
         {{\"index\":false,\"key\":\"pending_action_type\",\"value\":\"4\"}},\
         {{\"index\":false,\"key\":\"relay_details\",\"value\":\"{{\\\"fee_receiver_address\\\":\\\"\\\",\
         \\\"fee_sender_address\\\":\\\"swth1sender\\\",\\\"fee\\\":{{\\\"denom\\\":\\\"usdc\\\",\
         \\\"amount\\\":\\\"100\\\"}},\\\"expiry_block_time\\\":\\\"{}\\\",\
         \\\"created_at\\\":\\\"2024-05-01T11:59:00Z\\\",\\\"sent_at\\\":null}}\"}}]}}",
        nonce, expiry
    )
}

// Hub pipeline.

#[test]
fn happy_path_withdraw() {
    let mut store = EventStore::new();
    let config = carbon();
    let policy = fee(RelayStrategy::GreaterThan0);

    let text = frame(&pending_event_json(42, "2024-05-01T12:10:00Z"));
    let done = process_bridge_pending_action(&mut store, &text, &now()).unwrap();
    assert_eq!(done.len(), 1);
    let row = match &done[0] {
        PendingIngest::Kept(row, SaveOutcome::Saved) => row.clone(),
        other => panic!("unexpected {:?}", other),
    };
    assert_eq!(row.nonce, 42);
    assert_eq!(row.bridge_id, "axelar");
    assert_eq!(row.chain_id, "ethereum-1");
    assert_eq!(row.pending_action_type, 4);
    assert_eq!(row.relay_details.fee.amount, 100);
    let stored = store.get_pending_action_by_nonce(42).unwrap();
    assert_eq!(stored.retry_count, 0);
    assert_eq!(stored.id, 1);

    assert!(!needs_hydrogen_quote(&policy, &row));
    assert!(is_whitelisted_or_sufficient_fees(&policy, &row, None));
    let msg = queue_start_relay(&config, 42, Some(&row.relay_details), &now()).unwrap();
    assert_eq!(msg, MsgStartRelay { relayer: "swth1relayer".to_string(), nonce: 42 });
    record_start_relay(&mut store, 42, Delivery::Replied);
    assert_eq!(store.get_pending_action_by_nonce(42).unwrap().retry_count, 1);

    let payload = [0xde, 0xad, 0xbe, 0xef];
    let kept = process_axelar_call_contract_event(&mut store, &payload_event("\"42\"", "3q2+7w=="));
    assert_eq!(kept, AxelarIngest::Kept(SaveOutcome::Saved));
    let hash = format!("0x{}", hex::encode(ethers::utils::keccak256(payload)));
    let call = store.get_axelar_call_contract_event(&hash).unwrap();
    assert_eq!(call.payload, "0xdeadbeef");
    assert_eq!(call.nonce, 42);

    let kept = save_call_contract_approved_event(&mut store, &chain("ethereum-1"), &approval(&payload));
    assert_eq!(kept, ApprovedIngest::Kept(SaveOutcome::Saved));
    let chains = vec![chain("ethereum-1")];
    let queue = queue_new_events_for_broadcast(&store, &chains);
    assert_eq!(queue.len(), 1);
    assert_eq!(queue[0].channel, Some(0));
    let approved = &queue[0].event;
    assert_eq!(approved.payload, "0xdeadbeef");
    assert_eq!(approved.payload_hash, hash);
    assert_eq!(approved.command_id, format!("0x{}", "01".repeat(32)));
    assert_eq!(approved.contract_address, format!("0x{}", "bb".repeat(20)));
    assert_eq!(approved.broadcast_status, BroadcastStatus::PendingBroadcast);

    assert_eq!(begin_broadcast(&mut store, approved.id, true), WorkerStep::Broadcast);
    assert_eq!(store.get_broadcast_status(approved.id), Some(BroadcastStatus::Broadcasting));
    let step = next_step(initial_attempt(1000), SendOutcome::Confirmed);
    assert_eq!(step, BroadcastStep::Done);
    assert_eq!(finish_broadcast(&mut store, approved.id, true), StatusChange::Applied);
    assert_eq!(store.get_broadcast_status(approved.id), Some(BroadcastStatus::Executed));
    assert!(queue_new_events_for_broadcast(&store, &chains).is_empty());
}

#[test]
fn expired_on_arrival() {
    let mut store = EventStore::new();
    let done = ingest_pending_action(&mut store, &pending_event("\"7\"", "2024-05-01T11:59:59Z"), &now());
    assert!(matches!(done, PendingIngest::Expired(7)));
    assert!(store.get_pending_action_by_nonce(7).is_none());
    assert!(retry_pending_actions(&store, &carbon(), &now()).is_empty());
}

#[test]
fn an_action_that_arrives_at_its_expiry_time_has_expired() {
    let mut store = EventStore::new();
    let done = ingest_pending_action(&mut store, &pending_event("\"7\"", "2024-05-01T12:00:00Z"), &now());
    assert!(matches!(done, PendingIngest::Expired(7)));
    assert!(store.get_pending_action_by_nonce(7).is_none());
    let done = ingest_pending_action(&mut store, &pending_event("\"8\"", "2024-05-01T12:00:01Z"), &now());
    assert!(matches!(done, PendingIngest::Kept(_, SaveOutcome::Saved)));
    assert!(store.get_pending_action_by_nonce(8).is_some());
}

#[test]
fn malformed_pending_actions_are_named() {
    let mut store = EventStore::new();
    let mut event = pending_event("\"7\"", "2024-05-01T12:10:00Z");
    event.attributes[3].value = "{".to_string();
    assert!(matches!(
        ingest_pending_action(&mut store, &event, &now()),
        PendingIngest::Malformed(ParseError::RelayDetails)
    ));
    let event = pending_event("\"seven\"", "2024-05-01T12:10:00Z");
    assert!(matches!(
        ingest_pending_action(&mut store, &event, &now()),
        PendingIngest::Malformed(ParseError::Nonce)
    ));
    let mut event = pending_event("\"7\"", "2024-05-01T12:10:00Z");
    event.attributes[2].value = "withdraw".to_string();
    assert!(matches!(
        ingest_pending_action(&mut store, &event, &now()),
        PendingIngest::Malformed(ParseError::PendingActionType)
    ));
    let mut event = pending_event("\"7\"", "2024-05-01T12:10:00Z");
    event.attributes[0].value = "\"axelar/ethereum-1\"".to_string();
    assert!(matches!(
        ingest_pending_action(&mut store, &event, &now()),
        PendingIngest::Malformed(ParseError::ConnectionId)
    ));
    assert!(expired_nonces(&store, &Timestamp::new(i64::MAX, 0)).is_empty());
}

#[test]
fn a_frame_that_is_no_frame_changes_nothing() {
    let mut store = EventStore::new();
    assert_eq!(
        process_bridge_pending_action(&mut store, "not json", &now()).err(),
        Some(CosmosError::Json)
    );
    assert_eq!(
        process_bridge_pending_action(&mut store, "{\"id\":\"1\"}", &now()).err(),
        Some(CosmosError::Frame)
    );
}

#[test]
fn the_same_event_twice_gives_one_row() {
    let mut store = EventStore::new();
    let event = pending_event("\"42\"", "2024-05-01T12:10:00Z");
    assert!(matches!(
        ingest_pending_action(&mut store, &event, &now()),
        PendingIngest::Kept(_, SaveOutcome::Saved)
    ));
    record_start_relay(&mut store, 42, Delivery::Replied);
    assert!(matches!(
        ingest_pending_action(&mut store, &event, &now()),
        PendingIngest::Kept(_, SaveOutcome::Duplicate)
    ));
    let rows = retry_pending_actions(&store, &carbon(), &now());
    assert_eq!(rows.len(), 1);
    assert_eq!(rows[0].retry_count, 1);

    let call = DbAxelarCallContractEvent::from_payload(42, &[1, 2, 3]);
    assert_eq!(store.save_axelar_call_contract_event(&call), SaveOutcome::Saved);
    assert_eq!(store.save_axelar_call_contract_event(&call), SaveOutcome::Duplicate);

    let live = approval(&[1, 2, 3]);
    let config = chain("ethereum-1");
    assert_eq!(
        save_call_contract_approved_event(&mut store, &config, &live),
        ApprovedIngest::Kept(SaveOutcome::Saved)
    );
    assert_eq!(
        save_call_contract_approved_event(&mut store, &config, &live),
        ApprovedIngest::Kept(SaveOutcome::Duplicate)
    );
    assert_eq!(store.get_pending_broadcast_events().len(), 1);
    assert_eq!(
        save_call_contract_approved_event(&mut store, &chain("polygon-1"), &live),
        ApprovedIngest::Kept(SaveOutcome::Saved)
    );
    assert_eq!(store.get_pending_broadcast_events().len(), 2);
}

#[test]
fn rows_that_break_an_invariant_are_refused() {
    let mut store = EventStore::new();
    let mut row = pending(1, 100, "usdc", 4, NOW + 600);
    row.retry_count = -1;
    assert_eq!(store.save_bridge_pending_action_event(&row), SaveOutcome::Rejected);
    assert!(store.get_pending_action_by_nonce(1).is_none());
    let mut call = DbAxelarCallContractEvent::from_payload(1, &[1, 2, 3]);
    call.payload_hash = format!("0x{}", "00".repeat(32));
    assert_eq!(store.save_axelar_call_contract_event(&call), SaveOutcome::Rejected);
    assert!(store.get_axelar_call_contract_event(&call.payload_hash).is_none());
}

#[test]
fn a_payload_without_its_pending_action_is_not_kept() {
    let mut store = EventStore::new();
    let event = payload_event("\"42\"", "3q2+7w==");
    assert_eq!(process_axelar_call_contract_event(&mut store, &event), AxelarIngest::NoPendingAction);
    assert_eq!(
        process_axelar_call_contract_event(&mut store, &payload_event("\"42\"", "***")),
        AxelarIngest::Malformed(ParseError::Payload)
    );
    assert_eq!(
        process_axelar_call_contract_event(&mut store, &payload_event("x", "3q2+7w==")),
        AxelarIngest::Malformed(ParseError::Nonce)
    );
    assert_eq!(
        save_call_contract_approved_event(&mut store, &chain("ethereum-1"), &approval(&[0xde, 0xad, 0xbe, 0xef])),
        ApprovedIngest::NoPayload
    );
    assert!(store.get_pending_broadcast_events().is_empty());
}

#[test]
fn expiry_and_revert_notices_remove_the_action() {
    let mut store = EventStore::new();
    for nonce in [1, 2, 3] {
        store.save_bridge_pending_action_event(&pending(nonce, 100, "usdc", 4, NOW + 600));
    }
    let mut notice = pending_event("\"2\"", "2024-05-01T12:10:00Z");
    notice.event_type = "Switcheo.carbon.bridge.ExpiredPendingActionEvent".to_string();
    assert_eq!(process_expired_pending_action_event(&mut store, &notice), Ok(2));
    assert!(store.get_pending_action_by_nonce(2).is_none());
    let revert = Event {
        attributes: vec![
            attribute("bridge_id", "\"axelar\""),
            attribute("chain_id", "\"ethereum-1\""),
            attribute("gateway_address", "\"0xGW\""),
            attribute("nonce", "\"3\""),
        ],
        event_type: "Switcheo.carbon.bridge.BridgeRevertedEvent".to_string(),
    };
    assert_eq!(process_bridge_reverted_event(&mut store, &revert), Ok(3));
    assert!(store.get_pending_action_by_nonce(3).is_none());
    assert!(store.get_pending_action_by_nonce(1).is_some());
    let bad = Event { attributes: vec![], event_type: "x".to_string() };
    assert_eq!(process_bridge_reverted_event(&mut store, &bad), Err(ParseError::Nonce));
    assert_eq!(process_expired_pending_action_event(&mut store, &bad), Err(ParseError::Nonce));
    assert!(store.get_pending_action_by_nonce(1).is_some());
}

#[test]
fn expire_and_prune() {
    let mut store = EventStore::new();
    for nonce in [10, 11, 12] {
        store.save_bridge_pending_action_event(&pending(nonce, 100, "usdc", 4, NOW - 1));
    }
    store.save_bridge_pending_action_event(&pending(13, 100, "usdc", 4, NOW + 600));
    let expired = expired_nonces(&store, &now());
    assert_eq!(expired, vec![10, 11, 12]);
    let to_process = prune_processed_nonces(&mut store, &vec![11, 13, 99], &expired);
    assert_eq!(to_process, vec![11]);
    assert!(store.get_pending_action_by_nonce(10).is_none());
    assert!(store.get_pending_action_by_nonce(12).is_none());
    assert!(store.get_pending_action_by_nonce(11).is_some());
    assert!(store.get_pending_action_by_nonce(13).is_some());
    let msg = queue_expire_relay(&carbon(), &to_process).unwrap();
    assert_eq!(
        msg,
        MsgPruneExpiredPendingActions { creator: "swth1relayer".to_string(), nonces: vec![11] }
    );
    assert_eq!(msg.to_proto().nonces, vec![11]);
    assert!(queue_expire_relay(&carbon(), &vec![]).is_none());
    assert!(queue_expire_relay(&carbon(), &vec![-5]).is_none());
    assert_eq!(queue_expire_relay(&carbon(), &vec![-5, 6]).unwrap().nonces, vec![6]);
}

#[test]
fn the_operator_can_ask_for_pruning() {
    let msg = expire_pending_actions(&carbon(), vec![3, 1, 2]);
    assert_eq!(msg.creator, "swth1relayer");
    assert_eq!(msg.nonces, vec![3, 1, 2]);
    assert_eq!(
        HubMessage::PruneExpiredPendingActions(msg).type_url(),
        "/Switcheo.carbon.bridge.MsgPruneExpiredPendingActions"
    );
    let start = MsgStartRelay { relayer: "swth1relayer".to_string(), nonce: 9 };
    assert_eq!(MsgStartRelay::try_from(&start.to_proto()), start);
    assert_eq!(HubMessage::StartRelay(start).type_url(), "/Switcheo.carbon.bridge.MsgStartRelay");
}

#[test]
fn retriable_rows_have_attempts_left_and_time_left() {
    let mut store = EventStore::new();
    store.save_bridge_pending_action_event(&pending(1, 100, "usdc", 4, NOW + 600));
    store.save_bridge_pending_action_event(&pending(2, 100, "usdc", 4, NOW));
    store.save_bridge_pending_action_event(&pending(3, 100, "usdc", 4, NOW + 1));
    for _ in 0..3 {
        record_start_relay(&mut store, 3, Delivery::ReplyLost);
    }
    record_start_relay(&mut store, 1, Delivery::NotQueued);
    record_start_relay(&mut store, 1, Delivery::Replied);
    record_start_relay(&mut store, 99, Delivery::Replied);
    let rows = retry_pending_actions(&store, &carbon(), &now());
    assert_eq!(rows.len(), 1);
    assert_eq!(rows[0].nonce, 1);
    assert_eq!(rows[0].retry_count, 1);
    assert_eq!(store.get_pending_action_by_nonce(3).unwrap().retry_count, 3);
    assert_eq!(expired_nonces(&store, &now()), vec![2]);
    assert_eq!(store.get_chain_id_for_nonce(1), Some("ethereum-1".to_string()));
    assert_eq!(store.get_chain_id_for_nonce(5), None);
}

#[test]
fn a_relay_that_is_over_is_not_started() {
    let config = carbon();
    let live = pending(42, 100, "usdc", 4, NOW + 600).relay_details;
    assert!(!is_expired_or_sent(Some(&live), &now()));
    assert!(queue_start_relay(&config, 42, Some(&live), &now()).is_some());
    assert!(is_expired_or_sent(None, &now()));
    assert!(queue_start_relay(&config, 42, None, &now()).is_none());
    let expired = pending(42, 100, "usdc", 4, NOW).relay_details;
    assert!(is_expired_or_sent(Some(&expired), &now()));
    assert!(queue_start_relay(&config, 42, Some(&expired), &now()).is_none());
    let mut sent = pending(42, 100, "usdc", 4, NOW + 600).relay_details;
    sent.sent_at = Some(Timestamp::new(NOW - 1, 0));
    assert!(is_expired_or_sent(Some(&sent), &now()));
    assert!(queue_start_relay(&config, 42, Some(&sent), &now()).is_none());
    assert!(queue_start_relay(&config, -1, Some(&live), &now()).is_none());
}

#[test]
fn subscriptions_are_the_four_of_the_hub() {
    let subs = init_ws(&carbon());
    assert_eq!(subs.len(), 4);
    assert_eq!(subs[0].id, "1");
    assert_eq!(
        subs[0].query,
        "Switcheo.carbon.bridge.PendingActionEvent.connection_id CONTAINS 'axelar/'"
    );
    assert_eq!(subs[0].kind, SubscriptionKind::PendingAction);
    assert_eq!(subs[1].id, "2");
    assert_eq!(subs[1].query, "Switcheo.carbon.bridge.ExpiredPendingActionEvent EXISTS");
    assert_eq!(subs[2].id, "3");
    assert_eq!(subs[2].query, "Switcheo.carbon.bridge.BridgeRevertedEvent EXISTS");
    assert_eq!(subs[3].id, "4");
    assert_eq!(subs[3].query, "Switcheo.carbon.bridge.AxelarCallContractEvent EXISTS");
    assert_eq!(subs[3].kind, SubscriptionKind::AxelarCallContract);
}

// Fee policy.

#[test]
fn fee_rejected_then_accepted() {
    let policy = fee(RelayStrategy::Hydrogen);
    let action = pending(42, 900, "uusdc", 4, NOW + 600);
    assert!(needs_hydrogen_quote(&policy, &action));
    assert!(!is_whitelisted_or_sufficient_fees(&policy, &action, Some(&quote("1000"))));
    assert!(is_whitelisted_or_sufficient_fees(&policy, &action, Some(&quote("940"))));
    assert!(!is_whitelisted_or_sufficient_fees(&policy, &action, None));
}

#[test]
fn minimum_fee_is_the_quote_less_the_tolerance_rounded_down() {
    assert!(meets_quote(893, "940", 500));
    assert!(!meets_quote(892, "940", 500));
    assert!(meets_quote(950, "1000", 500));
    assert!(!meets_quote(949, "1000", 500));
    assert!(meets_quote(1000, "1000", 0));
    assert!(!meets_quote(999, "1000", 0));
    assert!(meets_quote(0, "1000", 10000));
    assert!(meets_quote(0, "99999999999999999999999999999999999999999999", 10000));
    assert!(meets_quote(0, "1000", 20000));
    assert!(meets_quote(0, "1", 1));
    assert!(!meets_quote(9997, "9999", 1));
    assert!(meets_quote(9998, "9999", 1));
    assert!(!meets_quote(u64::MAX, "184467440737095516160000", 9999));
    assert!(meets_quote(u64::MAX, "184467440737095516150000", 9999));
    assert!(!meets_quote(u64::MAX, "99999999999999999999999999999999999999999999", 9999));
}

#[test]
fn quotes_are_cut_at_the_decimal_point() {
    assert!(meets_quote(940, "940.99", 0));
    assert!(!meets_quote(939, "940.99", 0));
    assert!(meets_quote(0, ".5", 0));
    assert!(meets_quote(0, "", 0));
    assert!(!meets_quote(u64::MAX, "12a", 0));
    assert!(!meets_quote(u64::MAX, "-1", 0));
    assert!(!meets_quote(u64::MAX, "+1", 0));
    assert!(!meets_quote(u64::MAX, " 1", 0));
    assert!(meets_quote(1, "1.x", 0));
}

#[test]
fn the_quote_of_the_action_type_applies() {
    let q = quote("1000");
    let d = pending(1, 2500, "uusdc", 0, NOW + 600).relay_details;
    let all = [
        (PendingActionType::PendingRegisterTokenType, false),
        (PendingActionType::PendingDeregisterTokenType, false),
        (PendingActionType::PendingDeployNativeTokenType, false),
        (PendingActionType::PendingWithdrawAndExecuteType, true),
        (PendingActionType::PendingWithdrawType, true),
        (PendingActionType::PendingExecuteType, false),
    ];
    for (action_type, accepted) in all {
        assert_eq!(
            check_hydrogen_strategy(0, &d, Some(action_type), Some(&q)),
            accepted,
            "{:?}",
            action_type
        );
    }
    let d = pending(1, 3000, "uusdc", 0, NOW + 600).relay_details;
    assert!(check_hydrogen_strategy(0, &d, Some(PendingActionType::PendingDeployNativeTokenType), Some(&q)));
    assert!(!check_hydrogen_strategy(0, &d, Some(PendingActionType::PendingDeregisterTokenType), Some(&q)));
    assert!(!check_hydrogen_strategy(0, &d, None, Some(&q)));
    assert!(!check_hydrogen_strategy(0, &d, Some(PendingActionType::PendingWithdrawType), None));
}

#[test]
fn the_simple_strategies() {
    assert!(check_all_strategy());
    let zero = pending(1, 0, "usdc", 4, NOW + 600);
    let one = pending(1, 1, "usdc", 4, NOW + 600);
    assert!(!check_greater_than_0_strategy(&zero.relay_details));
    assert!(check_greater_than_0_strategy(&one.relay_details));
    assert!(has_enough_fees(&fee(RelayStrategy::All), &zero, None));
    assert!(!has_enough_fees(&fee(RelayStrategy::GreaterThan0), &zero, None));
    assert!(has_enough_fees(&fee(RelayStrategy::GreaterThan0), &one, None));
    assert!(!has_enough_fees(&fee(RelayStrategy::Hydrogen), &one, None));
    assert!(!has_enough_fees(&fee(RelayStrategy::Hydrogen), &one, Some(&quote("1000"))));
    assert!(has_enough_fees(&fee(RelayStrategy::Hydrogen), &one, Some(&quote("1"))));
}

#[test]
fn overrides_come_before_the_strategy() {
    let policy = fee(RelayStrategy::GreaterThan0);
    let mut friend = pending(1, 0, "usdc", 4, NOW + 600);
    assert!(!is_whitelisted_or_sufficient_fees(&policy, &friend, None));
    friend.relay_details.fee_sender_address = "swth1friend".to_string();
    assert!(is_whitelisted_or_sufficient_fees(&policy, &friend, None));
    assert!(!needs_hydrogen_quote(&fee(RelayStrategy::Hydrogen), &friend));
    let callback = pending(1, 0, "axlcall", 0, NOW + 600);
    assert!(is_whitelisted_or_sufficient_fees(&policy, &callback, None));
    let not_register = pending(1, 0, "axlcall", 4, NOW + 600);
    assert!(!is_whitelisted_or_sufficient_fees(&policy, &not_register, None));
    let other_denom = pending(1, 0, "usdc", 0, NOW + 600);
    assert!(!is_whitelisted_or_sufficient_fees(&policy, &other_denom, None));
}

#[test]
fn the_fee_service_is_asked_and_read() {
    assert_eq!(
        get_hydrogen_fee_url(&fee(RelayStrategy::Hydrogen), "axelar/ethereum-1/0xGW", "uusdc"),
        "http://hydrogen/bridge_fees?connection_id=axelar/ethereum-1/0xGW&fee_denom=uusdc"
    );
    let body = "{\"withdraw\":\"940\",\"register_token\":\"5000\",\"deregister_token\":\"4000\",\
        \"deploy_native_token\":\"3000\",\"withdraw_and_execute\":\"2000\",\
        \"quoted_at\":\"2024-05-01T12:00:00Z\"}";
    assert_eq!(get_hydrogen_fee(200, body), Ok(quote("940")));
    assert_eq!(get_hydrogen_fee(299, body), Ok(quote("940")));
    assert_eq!(get_hydrogen_fee(500, body), Err(FeeError::Status));
    assert_eq!(get_hydrogen_fee(199, body), Err(FeeError::Status));
    assert_eq!(get_hydrogen_fee(300, body), Err(FeeError::Status));
    assert_eq!(get_hydrogen_fee(200, "<html>"), Err(FeeError::Body));
    assert_eq!(get_hydrogen_fee(200, "{\"withdraw\":\"940\"}"), Err(FeeError::Shape));
    assert_eq!(RelayStrategy::from_name("hydrogen"), Some(RelayStrategy::Hydrogen));
    assert_eq!(RelayStrategy::from_name("all"), Some(RelayStrategy::All));
    assert_eq!(RelayStrategy::from_name("greater_than_0"), Some(RelayStrategy::GreaterThan0));
    assert_eq!(RelayStrategy::from_name("none"), None);
}

// EVM pipeline.

#[test]
fn evm_idempotency_short_circuit() {
    let mut store = EventStore::new();
    store.save_bridge_pending_action_event(&pending(42, 100, "usdc", 4, NOW + 600));
    store.save_axelar_call_contract_event(&DbAxelarCallContractEvent::from_payload(42, &[9]));
    save_call_contract_approved_event(&mut store, &chain("ethereum-1"), &approval(&[9]));
    let id = store.get_pending_broadcast_events()[0].id;
    assert_eq!(begin_broadcast(&mut store, id, false), WorkerStep::MarkedExecuted);
    assert_eq!(store.get_broadcast_status(id), Some(BroadcastStatus::Executed));
    assert!(store.get_pending_broadcast_events().is_empty());
    assert_eq!(begin_broadcast(&mut store, id, false), WorkerStep::Skipped);
    assert_eq!(begin_broadcast(&mut store, id, true), WorkerStep::Skipped);
    assert_eq!(store.get_broadcast_status(id), Some(BroadcastStatus::Executed));
}

#[test]
fn a_call_that_another_worker_took_is_skipped() {
    let mut store = EventStore::new();
    store.save_bridge_pending_action_event(&pending(42, 100, "usdc", 4, NOW + 600));
    store.save_axelar_call_contract_event(&DbAxelarCallContractEvent::from_payload(42, &[9]));
    save_call_contract_approved_event(&mut store, &chain("ethereum-1"), &approval(&[9]));
    let stale = store.get_pending_broadcast_events();
    assert_eq!(stale[0].broadcast_status, BroadcastStatus::PendingBroadcast);
    assert_eq!(begin_broadcast(&mut store, stale[0].id, true), WorkerStep::Broadcast);
    assert_eq!(begin_broadcast(&mut store, stale[0].id, true), WorkerStep::Skipped);
    assert_eq!(store.get_broadcast_status(stale[0].id), Some(BroadcastStatus::Broadcasting));
    assert_eq!(finish_broadcast(&mut store, stale[0].id, false), StatusChange::Applied);
    assert_eq!(store.get_broadcast_status(stale[0].id), Some(BroadcastStatus::Failed));
    assert_eq!(finish_broadcast(&mut store, stale[0].id, true), StatusChange::NotApplicable);
    assert_eq!(store.get_broadcast_status(stale[0].id), Some(BroadcastStatus::Failed));
    assert_eq!(begin_broadcast(&mut store, 999, true), WorkerStep::Skipped);
    assert_eq!(begin_broadcast(&mut store, 999, false), WorkerStep::Skipped);
}

#[test]
fn status_changes_are_guarded() {
    let mut store = EventStore::new();
    store.save_bridge_pending_action_event(&pending(42, 100, "usdc", 4, NOW + 600));
    store.save_axelar_call_contract_event(&DbAxelarCallContractEvent::from_payload(42, &[9]));
    save_call_contract_approved_event(&mut store, &chain("ethereum-1"), &approval(&[9]));
    let id = store.get_pending_broadcast_events()[0].id;
    let pending_status = BroadcastStatus::PendingBroadcast;
    assert_eq!(
        store.update_broadcast_status(id, BroadcastStatus::Broadcasting, BroadcastStatus::Executed),
        StatusChange::NotApplicable
    );
    assert_eq!(
        store.update_broadcast_status(id, pending_status, BroadcastStatus::Failed),
        StatusChange::NotApplicable
    );
    assert_eq!(
        store.update_broadcast_status(id, pending_status, pending_status),
        StatusChange::NotApplicable
    );
    assert_eq!(
        store.update_broadcast_status(id + 1, pending_status, BroadcastStatus::Broadcasting),
        StatusChange::NotApplicable
    );
    assert_eq!(store.get_broadcast_status(id), Some(pending_status));
    assert_eq!(
        store.update_broadcast_status(id, pending_status, BroadcastStatus::Broadcasting),
        StatusChange::Applied
    );
    assert_eq!(
        store.update_broadcast_status(id, BroadcastStatus::Broadcasting, pending_status),
        StatusChange::NotApplicable
    );
    assert_eq!(store.get_broadcast_status(id), Some(BroadcastStatus::Broadcasting));
}

#[test]
fn gas_escalation() {
    let first = initial_attempt(2000);
    assert_eq!(first, BroadcastAttempt { gas_price: 1000, retries: 0 });
    let second = match next_step(first, SendOutcome::ReceiptTimeout) {
        BroadcastStep::Retry(a) => a,
        other => panic!("unexpected {:?}", other),
    };
    assert_eq!(second, BroadcastAttempt { gas_price: 1200, retries: 1 });
    let third = match next_step(second, SendOutcome::SendTimeout) {
        BroadcastStep::Retry(a) => a,
        other => panic!("unexpected {:?}", other),
    };
    assert_eq!(third, BroadcastAttempt { gas_price: 1440, retries: 2 });
    assert_eq!(next_step(third, SendOutcome::Confirmed), BroadcastStep::Done);
    let outcomes = vec![SendOutcome::ReceiptTimeout, SendOutcome::SendTimeout, SendOutcome::Confirmed];
    assert_eq!(broadcast_result(2000, &outcomes), BroadcastStep::Done);
}

#[test]
fn five_retries_end_at_the_price_times_twelve_tenths_to_the_fifth() {
    let retry = SendOutcome::ReceiptMissing;
    assert_eq!(
        broadcast_result(2_000_000, &vec![retry; 5]),
        BroadcastStep::Retry(BroadcastAttempt { gas_price: 2_488_320, retries: 5 })
    );
    assert_eq!(
        broadcast_result(14, &vec![retry; 5]),
        BroadcastStep::Retry(BroadcastAttempt { gas_price: 14, retries: 5 })
    );
    assert_eq!(
        broadcast_result(2_000_000, &vec![retry; 6]),
        BroadcastStep::Failed(BroadcastFailure::RetriesExhausted)
    );
    assert_eq!(
        broadcast_result(2_000_000, &vec![retry; 9]),
        BroadcastStep::Failed(BroadcastFailure::RetriesExhausted)
    );
    assert_eq!(
        broadcast_result(7, &vec![]),
        BroadcastStep::Retry(BroadcastAttempt { gas_price: 3, retries: 0 })
    );
}

#[test]
fn every_outcome_has_its_step() {
    let attempt = BroadcastAttempt { gas_price: 10, retries: 4 };
    let again = BroadcastStep::Retry(BroadcastAttempt { gas_price: 12, retries: 5 });
    let all = [
        (SendOutcome::Confirmed, BroadcastStep::Done),
        (SendOutcome::Reverted, BroadcastStep::Failed(BroadcastFailure::Reverted)),
        (SendOutcome::ReceiptMissing, again),
        (SendOutcome::ReceiptError, BroadcastStep::Failed(BroadcastFailure::ReceiptError)),
        (SendOutcome::ReceiptTimeout, again),
        (SendOutcome::AlreadyKnown, again),
        (SendOutcome::SendError, BroadcastStep::Failed(BroadcastFailure::SendError)),
        (SendOutcome::SendTimeout, again),
    ];
    for (outcome, step) in all {
        assert_eq!(next_step(attempt, outcome), step, "{:?}", outcome);
    }
    let last = BroadcastAttempt { gas_price: 10, retries: 5 };
    assert_eq!(
        next_step(last, SendOutcome::AlreadyKnown),
        BroadcastStep::Failed(BroadcastFailure::RetriesExhausted)
    );
    assert_eq!(next_step(last, SendOutcome::Confirmed), BroadcastStep::Done);
    let huge = BroadcastAttempt { gas_price: u128::MAX, retries: 0 };
    assert_eq!(
        next_step(huge, SendOutcome::SendTimeout),
        BroadcastStep::Failed(BroadcastFailure::GasPriceOverflow)
    );
    assert_eq!(classify_send_error("already known"), SendOutcome::AlreadyKnown);
    assert_eq!(classify_send_error("(code: -32000, message: already known)"), SendOutcome::AlreadyKnown);
    assert_eq!(classify_send_error("nonce too low"), SendOutcome::SendError);
    assert_eq!(classify_send_error("Already Known"), SendOutcome::SendError);
}

#[test]
fn calls_go_to_the_mailbox_of_their_chain() {
    let mut store = EventStore::new();
    store.save_bridge_pending_action_event(&pending(42, 100, "usdc", 4, NOW + 600));
    store.save_axelar_call_contract_event(&DbAxelarCallContractEvent::from_payload(42, &[9]));
    save_call_contract_approved_event(&mut store, &chain("polygon-1"), &approval(&[9]));
    save_call_contract_approved_event(&mut store, &chain("unknown-1"), &approval(&[9]));
    let chains = vec![chain("ethereum-1"), chain("polygon-1"), chain("polygon-1")];
    let queue = queue_new_events_for_broadcast(&store, &chains);
    assert_eq!(queue.len(), 2);
    assert_eq!(queue[0].event.blockchain, "polygon-1");
    assert_eq!(queue[0].channel, Some(2));
    assert_eq!(queue[1].event.blockchain, "unknown-1");
    assert_eq!(queue[1].channel, None);
    assert_eq!(find_chain(&chains, "ethereum-1"), Some(0));
    assert_eq!(find_chain(&chains, "x"), None);
}

#[test]
fn backfill_looks_at_the_last_blocks() {
    let config = chain("ethereum-1");
    let filter = backfill(&config, 5000).unwrap();
    assert_eq!(filter.address, vec![0xaa; 20]);
    assert_eq!(filter.topic2[..12], [0u8; 12]);
    assert_eq!(filter.topic2[12..], [0xbb; 20]);
    assert_eq!(filter.from_block, Some(4000));
    assert_eq!(filter.to_block, Some(5000));
    assert_eq!(filter.topic0.unwrap().len(), 32);
    assert!(filter.topic3.is_none());
    assert_eq!(backfill(&config, 999).unwrap().from_block, Some(0));
    assert_eq!(backfill(&config, 1000).unwrap().from_block, Some(0));
    assert_eq!(backfill(&config, 1001).unwrap().from_block, Some(1));
    let live = live_filter(&config).unwrap();
    assert!(live.topic0.is_none() && live.from_block.is_none() && live.to_block.is_none());
    assert_eq!(config.backfill_poll_seconds(), 300);
    let mut bad = chain("ethereum-1");
    bad.axelar_gateway_proxy = "0x12".to_string();
    assert_eq!(backfill(&bad, 5000).err(), Some(FilterError::GatewayAddress));
    let mut bad = chain("ethereum-1");
    bad.carbon_axelar_gateway = "gateway".to_string();
    bad.backfill_poll_frequency = Some(30);
    assert_eq!(live_filter(&bad).err(), Some(FilterError::ExecutableAddress));
    assert_eq!(bad.backfill_poll_seconds(), 30);
}

// Decisions without a store.

#[test]
fn decisions_can_be_had_without_a_store() {
    use_decisions();
}

fn use_decisions() {
    let keep = carbon_axelar_relayer::carbon::listener::accept_pending_action(
        &pending_event("\"5\"", "2024-05-01T12:10:00Z"),
        &now(),
    );
    assert!(matches!(
        keep,
        carbon_axelar_relayer::carbon::listener::PendingDecision::Keep(ref row) if row.nonce == 5
    ));
    let drop = carbon_axelar_relayer::carbon::listener::accept_pending_action(
        &pending_event("\"5\"", "2024-05-01T12:00:00Z"),
        &now(),
    );
    assert!(matches!(drop, carbon_axelar_relayer::carbon::listener::PendingDecision::Expired(5)));
    let bad = carbon_axelar_relayer::carbon::listener::accept_pending_action(
        &pending_event("five", "2024-05-01T12:10:00Z"),
        &now(),
    );
    assert!(matches!(
        bad,
        carbon_axelar_relayer::carbon::listener::PendingDecision::Malformed(ParseError::Nonce)
    ));

    let (to_delete, to_process) =
        carbon_axelar_relayer::carbon::retry::partition_expired(&vec![11], &vec![10, 11, 12, 11]);
    assert_eq!(to_delete, vec![10, 12]);
    assert_eq!(to_process, vec![11, 11]);
    assert!(!carbon_axelar_relayer::carbon::retry::counts_as_attempt(Delivery::NotQueued));
    assert!(carbon_axelar_relayer::carbon::retry::counts_as_attempt(Delivery::Replied));
    assert!(carbon_axelar_relayer::carbon::retry::counts_as_attempt(Delivery::ReplyLost));

    let row = pending(1, 100, "usdc", 4, NOW + 1);
    assert!(row.is_retriable(1, &now()));
    assert!(!row.is_retriable(0, &now()));
    assert!(!row.is_retriable(1, &Timestamp::new(NOW + 1, 0)));
    assert!(!row.is_expired(&now()));
    assert!(row.is_expired(&Timestamp::new(NOW + 1, 0)));
    assert_eq!(row.get_pending_action_type(), Ok(PendingActionType::PendingWithdrawType));
    assert_eq!(row.get_relay_details(), row.relay_details);
}

#[test]
fn the_worker_decides_from_the_status_and_the_gateway() {
    let decide = carbon_axelar_relayer::evm::broadcaster::worker_decision;
    assert_eq!(decide(Some(BroadcastStatus::PendingBroadcast), true), WorkerStep::Broadcast);
    assert_eq!(decide(Some(BroadcastStatus::Broadcasting), true), WorkerStep::Skipped);
    assert_eq!(decide(Some(BroadcastStatus::Executed), true), WorkerStep::Skipped);
    assert_eq!(decide(Some(BroadcastStatus::Failed), true), WorkerStep::Skipped);
    assert_eq!(decide(None, true), WorkerStep::Skipped);
    assert_eq!(decide(Some(BroadcastStatus::PendingBroadcast), false), WorkerStep::MarkedExecuted);
    assert_eq!(decide(Some(BroadcastStatus::Broadcasting), false), WorkerStep::MarkedExecuted);
    assert_eq!(decide(Some(BroadcastStatus::Executed), false), WorkerStep::Skipped);
    assert_eq!(decide(Some(BroadcastStatus::Failed), false), WorkerStep::Skipped);
    assert_eq!(decide(None, false), WorkerStep::Skipped);
}

#[test]
fn an_approval_becomes_a_row_with_prefixed_hex() {
    let event = approval(&[1, 2, 3]);
    let row = carbon_axelar_relayer::db::evm_events::approved_call_row("bsc-1", &event, "0x010203");
    assert_eq!(row.id, -1);
    assert_eq!(row.blockchain, "bsc-1");
    assert_eq!(row.broadcast_status, BroadcastStatus::PendingBroadcast);
    assert_eq!(row.command_id, format!("0x{}", "01".repeat(32)));
    assert_eq!(row.source_chain, "carbon");
    assert_eq!(row.source_address, "swth1sender");
    assert_eq!(row.contract_address, format!("0x{}", "bb".repeat(20)));
    assert_eq!(row.source_tx_hash, format!("0x{}", "02".repeat(32)));
    assert_eq!(row.source_event_index, "3");
    assert_eq!(row.payload, "0x010203");
    assert_eq!(
        row.payload_hash,
        carbon_axelar_relayer::db::evm_events::payload_hash_text(&event)
    );
    assert_eq!(row.payload_hash, format!("0x{}", hex::encode(ethers::utils::keccak256([1, 2, 3]))));
}

#[test]
fn the_same_question_gets_the_same_answer() {
    let policy = fee(RelayStrategy::Hydrogen);
    let action = pending(42, 900, "uusdc", 4, NOW + 600);
    for q in [None, Some(quote("1000")), Some(quote("940")), Some(quote("x"))] {
        let first = is_whitelisted_or_sufficient_fees(&policy, &action, q.as_ref());
        let second = is_whitelisted_or_sufficient_fees(&policy.clone(), &action.clone(), q.clone().as_ref());
        assert_eq!(first, second);
    }
}
