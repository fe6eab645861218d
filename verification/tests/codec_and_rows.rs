use carbon_axelar_relayer::db::{
    BroadcastStatus, Coin, DbAxelarCallContractEvent, DbContractCallApprovedEvent, DbError,
    RelayDetails,
};
use carbon_axelar_relayer::evm::broadcaster::{execute_call, CallError};
use carbon_axelar_relayer::evm::listener::{event_topic, parse_address, topic_of_address};
use carbon_axelar_relayer::json::Json;
use carbon_axelar_relayer::operational::execute_contract_call_approved::{
    base64_to_hex, execute_contract_call_approved, is_hex, normalize_payload,
};
use carbon_axelar_relayer::operational::tx_sync::abci_query;
use carbon_axelar_relayer::util::cosmos::send_transaction_body;
use carbon_axelar_relayer::util::datetime::Timestamp;
use carbon_axelar_relayer::util::evm::ContractCallApprovedEvent;

fn approved_row(command_id: &str, contract: &str, hash: &str, payload: &str) -> DbContractCallApprovedEvent {
    DbContractCallApprovedEvent {
        id: 1,
        blockchain: "ethereum-1".to_string(),
        broadcast_status: BroadcastStatus::PendingBroadcast,
        command_id: command_id.to_string(),
        source_chain: "carbon".to_string(),
        source_address: "swth1sender".to_string(),
        contract_address: contract.to_string(),
        payload_hash: hash.to_string(),
        source_tx_hash: format!("0x{}", "11".repeat(32)),
        source_event_index: "0".to_string(),
        payload: payload.to_string(),
    }
}

#[test]
fn payload_hash_is_keccak_of_the_payload() {
    let row = DbAxelarCallContractEvent::from_payload(42, &[0xde, 0xad, 0xbe, 0xef]);
    assert_eq!(row.id, -1);
    assert_eq!(row.nonce, 42);
    assert_eq!(row.payload, "0xdeadbeef");
    assert_eq!(row.payload_encoding, "evm_abi");
    let expected = format!("0x{}", hex::encode(ethers::utils::keccak256([0xde, 0xad, 0xbe, 0xef])));
    assert_eq!(row.payload_hash, expected);
    assert_ne!(row.payload_hash, row.payload);
    assert!(row.has_matching_hash());
}

#[test]
fn payload_hash_of_the_empty_payload() {
    let row = DbAxelarCallContractEvent::from_payload(1, &[]);
    assert_eq!(row.payload, "0x");
    assert_eq!(
        row.payload_hash,
        "0xc5d2460186f7233c927e7db2dcc703c0e500b653ca82273b7bfad8045d85a470"
    );
    assert!(row.has_matching_hash());
}

#[test]
fn a_wrong_payload_hash_is_noticed() {
    let mut row = DbAxelarCallContractEvent::from_payload(42, &[1, 2, 3]);
    row.payload = "0x010204".to_string();
    assert!(!row.has_matching_hash());
    let mut row = DbAxelarCallContractEvent::from_payload(42, &[1, 2, 3]);
    row.payload = "not hex".to_string();
    assert!(!row.has_matching_hash());
    let mut row = DbAxelarCallContractEvent::from_payload(42, &[1, 2, 3]);
    row.payload_hash = row.payload_hash.to_uppercase();
    assert!(!row.has_matching_hash());
}

#[test]
fn a_payload_without_prefix_or_in_upper_case_still_matches() {
    let mut row = DbAxelarCallContractEvent::from_payload(42, &[0xab, 0xcd]);
    row.payload = "abcd".to_string();
    assert!(row.has_matching_hash());
    row.payload = "0XABCD".to_string();
    assert!(row.has_matching_hash());
}

#[test]
fn execute_call_reads_the_fields_as_bytes() {
    let row = approved_row(
        &format!("0x{}", "ab".repeat(32)),
        &format!("0x{}", "cd".repeat(20)),
        &"ef".repeat(32),
        "0xdeadbeef",
    );
    let call = execute_call(&row).unwrap();
    assert_eq!(call.command_id, vec![0xab; 32]);
    assert_eq!(call.contract_address, vec![0xcd; 20]);
    assert_eq!(call.payload_hash, vec![0xef; 32]);
    assert_eq!(call.payload, vec![0xde, 0xad, 0xbe, 0xef]);
    assert_eq!(call.source_chain, "carbon");
    assert_eq!(call.source_address, "swth1sender");
}

#[test]
fn execute_call_names_the_field_that_is_wrong() {
    let good_id = format!("0x{}", "ab".repeat(32));
    let good_contract = format!("0x{}", "cd".repeat(20));
    let good_hash = format!("0x{}", "ef".repeat(32));
    let r = execute_call(&approved_row("0xabcd", &good_contract, &good_hash, "0x00"));
    assert_eq!(r.err(), Some(CallError::CommandId));
    let r = execute_call(&approved_row(&good_id, "0x1234", &good_hash, "0x00"));
    assert_eq!(r.err(), Some(CallError::ContractAddress));
    let r = execute_call(&approved_row(&good_id, &good_contract, "zz", "0x00"));
    assert_eq!(r.err(), Some(CallError::PayloadHash));
    let r = execute_call(&approved_row(&good_id, &good_contract, &good_hash, "0x0"));
    assert_eq!(r.err(), Some(CallError::Payload));
    let r = execute_call(&approved_row(&good_id, &good_contract, &good_hash, "0xzz"));
    assert_eq!(r.err(), Some(CallError::Payload));
}

#[test]
fn event_topic_is_the_digest_of_the_signature() {
    let signature = "ContractCallApproved(bytes32,string,string,address,bytes32,bytes32,uint256)";
    assert_eq!(event_topic(), ethers::utils::keccak256(signature.as_bytes()).to_vec());
    assert_ne!(event_topic(), signature.as_bytes().to_vec());
}

#[test]
fn address_topic_is_padded_to_32_bytes() {
    let address = parse_address("0x00000000000000000000000000000000000000ff").unwrap();
    assert_eq!(address.len(), 20);
    let topic = topic_of_address(&address);
    assert_eq!(topic.len(), 32);
    assert_eq!(&topic[..12], &[0u8; 12]);
    assert_eq!(&topic[12..], address.as_slice());
    assert_eq!(parse_address("0x1234"), None);
    assert_eq!(parse_address("no address"), None);
}

#[test]
fn is_hex_accepts_digits_of_either_case() {
    assert!(is_hex("0xdeadBEEF"));
    assert!(is_hex("deadbeef"));
    assert!(is_hex("0x"));
    assert!(is_hex(""));
    assert!(is_hex("123"));
    assert!(!is_hex("0xg0"));
    assert!(!is_hex("3q2+7w=="));
    assert!(!is_hex("0X12"));
}

#[test]
fn normalize_payload_adds_the_prefix_to_hex() {
    assert_eq!(normalize_payload("0xdeadbeef"), Some("0xdeadbeef".to_string()));
    assert_eq!(normalize_payload("deadbeef"), Some("0xdeadbeef".to_string()));
}

#[test]
fn normalize_payload_turns_base64_into_hex() {
    assert_eq!(normalize_payload("3q2+7w=="), Some("0xdeadbeef".to_string()));
    assert_eq!(base64_to_hex("aGVsbG8gd29ybGR+"), Some(format!("0x{}", hex::encode("hello world~"))));
    assert_eq!(base64_to_hex("3q2+7w="), None);
    assert_eq!(normalize_payload("not base64!"), None);
}

#[test]
fn manual_row_uses_bare_hex() {
    let event = ContractCallApprovedEvent {
        command_id: vec![0xab; 32],
        source_chain: "carbon".to_string(),
        source_address: "swth1sender".to_string(),
        contract_address: vec![0xcd; 20],
        payload_hash: vec![0xef; 32],
        source_tx_hash: vec![0x12; 32],
        source_event_index: "7".to_string(),
    };
    assert!(event.is_valid());
    let row = execute_contract_call_approved("ethereum-1", &event, "0xdeadbeef");
    assert_eq!(row.id, 0);
    assert_eq!(row.blockchain, "ethereum-1");
    assert_eq!(row.broadcast_status, BroadcastStatus::PendingBroadcast);
    assert_eq!(row.command_id, "ab".repeat(32));
    assert_eq!(row.contract_address, "cd".repeat(20));
    assert_eq!(row.payload_hash, "ef".repeat(32));
    assert_eq!(row.source_tx_hash, "12".repeat(32));
    assert_eq!(row.source_event_index, "7");
    assert_eq!(row.payload, "0xdeadbeef");
    let call = execute_call(&row).unwrap();
    assert_eq!(call.command_id, vec![0xab; 32]);
}

#[test]
fn search_url_percent_encodes_the_query() {
    let url = abci_query("http://hub:26657", "a.b CONTAINS 'x/' AND tx.height>=1");
    assert_eq!(
        url,
        "http://hub:26657/tx_search?query=\"a.b%20CONTAINS%20%27x%2F%27%20AND%20tx.height%3E%3D1\""
    );
    assert_eq!(abci_query("u", "safe-._~09AZaz"), "u/tx_search?query=\"safe-._~09AZaz\"");
    assert_eq!(abci_query("u", "ä"), "u/tx_search?query=\"%C3%A4\"");
}

#[test]
fn broadcast_body_carries_the_bytes_in_base64() {
    let body = send_transaction_body(&[0xde, 0xad, 0xbe, 0xef]);
    assert_eq!(body.to_text(), "{\"mode\":\"BROADCAST_MODE_SYNC\",\"tx_bytes\":\"3q2+7w==\"}");
    assert_eq!(body.str_field("tx_bytes"), Some("3q2+7w=="));
}

#[test]
fn broadcast_status_names_are_the_stored_words() {
    for (status, name) in [
        (BroadcastStatus::PendingBroadcast, "pending_broadcast"),
        (BroadcastStatus::Broadcasting, "broadcasting"),
        (BroadcastStatus::Executed, "executed"),
        (BroadcastStatus::Failed, "failed"),
    ] {
        assert_eq!(status.as_str(), name);
        assert_eq!(BroadcastStatus::from_name(name), Ok(status));
    }
    assert_eq!(BroadcastStatus::from_name("pending"), Err(DbError::InvalidBroadcastStatus));
}

#[test]
fn broadcast_status_steps_only_forward() {
    let all = [
        BroadcastStatus::PendingBroadcast,
        BroadcastStatus::Broadcasting,
        BroadcastStatus::Executed,
        BroadcastStatus::Failed,
    ];
    let allowed = [
        (BroadcastStatus::PendingBroadcast, BroadcastStatus::Broadcasting),
        (BroadcastStatus::PendingBroadcast, BroadcastStatus::Executed),
        (BroadcastStatus::Broadcasting, BroadcastStatus::Executed),
        (BroadcastStatus::Broadcasting, BroadcastStatus::Failed),
    ];
    for from in all {
        for to in all {
            assert_eq!(from.can_become(to), allowed.contains(&(from, to)), "{:?} to {:?}", from, to);
        }
    }
}

fn details(sent_at: Option<Timestamp>) -> RelayDetails {
    RelayDetails {
        fee_receiver_address: "swth1receiver".to_string(),
        fee_sender_address: "swth1sender".to_string(),
        fee: Coin { denom: "usdc".to_string(), amount: 100 },
        expiry_block_time: Timestamp::new(1714565400, 0),
        created_at: Timestamp::new(1714564800, 500_000_000),
        sent_at,
    }
}

#[test]
fn relay_details_are_read_from_json() {
    let text = "{\"fee_receiver_address\":\"swth1receiver\",\"fee_sender_address\":\"swth1sender\",\
        \"fee\":{\"denom\":\"usdc\",\"amount\":\"100\"},\
        \"expiry_block_time\":\"2024-05-01T12:10:00Z\",\
        \"created_at\":\"2024-05-01T12:00:00.5Z\",\"sent_at\":null,\"extra\":1}";
    let json = Json::parse(text).unwrap();
    assert_eq!(RelayDetails::from_json(&json), Some(details(None)));
}

#[test]
fn relay_details_with_offsets_and_sent_at() {
    let text = "{\"fee_receiver_address\":\"swth1receiver\",\"fee_sender_address\":\"swth1sender\",\
        \"fee\":{\"denom\":\"usdc\",\"amount\":\"100\"},\
        \"expiry_block_time\":\"2024-05-01T14:10:00+02:00\",\
        \"created_at\":\"2024-05-01T12:00:00.500+00:00\",\"sent_at\":\"2024-05-01T12:00:00Z\"}";
    let json = Json::parse(text).unwrap();
    assert_eq!(
        RelayDetails::from_json(&json),
        Some(details(Some(Timestamp::new(1714564800, 0))))
    );
}

#[test]
fn relay_details_need_every_field() {
    for text in [
        "{}",
        "[]",
        "{\"fee_receiver_address\":\"a\",\"fee_sender_address\":\"b\",\"fee\":{\"denom\":\"usdc\",\"amount\":100},\"expiry_block_time\":\"2024-05-01T12:10:00Z\",\"created_at\":\"2024-05-01T12:00:00Z\"}",
        "{\"fee_receiver_address\":\"a\",\"fee_sender_address\":\"b\",\"fee\":{\"denom\":\"usdc\",\"amount\":\"-1\"},\"expiry_block_time\":\"2024-05-01T12:10:00Z\",\"created_at\":\"2024-05-01T12:00:00Z\"}",
        "{\"fee_receiver_address\":\"a\",\"fee_sender_address\":\"b\",\"fee\":{\"denom\":\"usdc\",\"amount\":\"1\"},\"expiry_block_time\":\"tomorrow\",\"created_at\":\"2024-05-01T12:00:00Z\"}",
        "{\"fee_receiver_address\":\"a\",\"fee_sender_address\":\"b\",\"fee\":{\"denom\":\"usdc\",\"amount\":\"1\"},\"expiry_block_time\":\"2024-05-01T12:10:00Z\"}",
        "{\"fee_receiver_address\":\"a\",\"fee_sender_address\":\"b\",\"fee\":{\"denom\":\"usdc\",\"amount\":\"1\"},\"expiry_block_time\":\"2024-05-01T12:10:00Z\",\"created_at\":\"2024-05-01T12:00:00Z\",\"sent_at\":5}",
    ] {
        let json = Json::parse(text).unwrap();
        assert_eq!(RelayDetails::from_json(&json), None, "input {}", text);
    }
}

#[test]
fn relay_details_round_trip_through_json() {
    for d in [details(None), details(Some(Timestamp::new(1714564801, 123_456_789)))] {
        let first = d.to_json().unwrap();
        let text = first.to_text();
        let reread = RelayDetails::from_json(&Json::parse(&text).unwrap()).unwrap();
        assert_eq!(reread, d);
        assert_eq!(reread.to_json().unwrap().to_text(), text);
    }
}

#[test]
fn relay_details_json_has_the_expected_text() {
    let text = details(None).to_json().unwrap().to_text();
    assert_eq!(
        text,
        "{\"created_at\":\"2024-05-01T12:00:00.500+00:00\",\
         \"expiry_block_time\":\"2024-05-01T12:10:00+00:00\",\
         \"fee\":{\"amount\":\"100\",\"denom\":\"usdc\"},\
         \"fee_receiver_address\":\"swth1receiver\",\"fee_sender_address\":\"swth1sender\",\
         \"sent_at\":null}"
    );
}

#[test]
fn timestamps_that_the_calendar_cannot_hold_have_no_json() {
    let mut d = details(None);
    d.expiry_block_time = Timestamp::new(i64::MAX, 0);
    assert!(d.to_json().is_none());
    let mut d = details(None);
    d.created_at = Timestamp::new(0, -1);
    assert!(d.to_json().is_none());
}

#[test]
fn coin_amount_travels_as_a_string() {
    let coin = Coin { denom: "swth".to_string(), amount: u64::MAX };
    let json = coin.to_json();
    assert_eq!(json.to_text(), "{\"amount\":\"18446744073709551615\",\"denom\":\"swth\"}");
    assert_eq!(Coin::from_json(&Json::parse(&json.to_text()).unwrap()), Some(coin));
    let too_big = Json::parse("{\"denom\":\"swth\",\"amount\":\"18446744073709551616\"}").unwrap();
    assert_eq!(Coin::from_json(&too_big), None);
}

#[test]
fn expiry_is_reached_at_the_expiry_time() {
    let d = details(None);
    assert!(!d.has_expired(&Timestamp::new(1714565399, 999_999_999)));
    assert!(d.has_expired(&Timestamp::new(1714565400, 0)));
    assert!(d.has_expired(&Timestamp::new(1714565400, 1)));
    assert!(d.has_expired(&Timestamp::new(1714565401, 0)));
    assert!(!d.is_sent());
    assert!(details(Some(Timestamp::new(1, 0))).is_sent());
}

#[test]
fn expiry_duration_is_worded() {
    let d = details(None);
    assert_eq!(d.get_expiry_duration(&Timestamp::new(1714565400, 0)), "~ 0 seconds");
    assert_eq!(d.get_expiry_duration(&Timestamp::new(1714565400 + 7200, 0)), "~ 2 hours");
    assert_eq!(d.get_expiry_duration(&Timestamp::new(1714565400 - 600, 0)), "~ 10 minutes");
}

#[test]
fn timestamp_text_is_read_and_written() {
    assert_eq!(Timestamp::parse("2024-05-01T12:10:00Z"), Some(Timestamp::new(1714565400, 0)));
    assert_eq!(Timestamp::parse("1970-01-01T00:00:00Z"), Some(Timestamp::new(0, 0)));
    assert_eq!(Timestamp::parse("2024-05-01 12:10:00"), None);
    assert_eq!(Timestamp::parse("2024-05-01T12:10:00Z "), None);
    assert_eq!(
        Timestamp::new(1714565400, 0).to_rfc3339(),
        Some("2024-05-01T12:10:00+00:00".to_string())
    );
    let t = Timestamp::new(1714565400, 0);
    assert!(t.is_before(&Timestamp::new(1714565400, 1)));
    assert!(!t.is_before(&t));
    assert!(t.is_at_or_before(&t));
    assert!(!Timestamp::new(1714565401, 0).is_at_or_before(&t));
}

#[test]
fn json_text_is_read_and_written() {
    let json = Json::parse(" {\"b\": [1, -2, 3.5, true, null, \"x\"], \"a\": {\"k\": \"v\"}} ").unwrap();
    assert_eq!(json.to_text(), "{\"a\":{\"k\":\"v\"},\"b\":[1,-2,3.5,true,null,\"x\"]}");
    let items = json.field("b").unwrap().as_array().unwrap();
    assert_eq!(items.len(), 6);
    assert_eq!(items[0].as_i64(), Some(1));
    assert_eq!(items[0].as_u64(), Some(1));
    assert_eq!(items[1].as_i64(), Some(-2));
    assert_eq!(items[1].as_u64(), None);
    assert_eq!(items[2].as_i64(), None);
    assert_eq!(items[3].as_bool(), Some(true));
    assert_eq!(items[5].as_str(), Some("x"));
    assert_eq!(items[5].as_i64(), None);
    assert_eq!(json.field("a").unwrap().str_field("k"), Some("v"));
    assert!(json.field("c").is_none());
    assert!(json.is_filled_object());
    assert!(!Json::parse("{}").unwrap().is_filled_object());
    assert!(Json::parse("{\"a\":").is_none());
    assert!(Json::parse("").is_none());
}

#[test]
fn json_numbers_keep_what_serde_reads() {
    for text in ["0", "-0", "9223372036854775807", "9223372036854775808", "18446744073709551615", "1e2", "-5"] {
        let json = Json::parse(text).unwrap();
        let value: serde_json::Value = serde_json::from_str(text).unwrap();
        assert_eq!(json.as_i64(), value.as_i64(), "input {}", text);
        assert_eq!(json.as_u64(), value.as_u64(), "input {}", text);
        assert_eq!(json.to_text(), value.to_string(), "input {}", text);
    }
}

#[test]
fn hexadecimal_payloads_of_every_shape() {
    let id = format!("0x{}", "ab".repeat(32));
    let contract = format!("0x{}", "cd".repeat(20));
    let hash = format!("0x{}", "ef".repeat(32));
    let decoded = |payload: &str| execute_call(&approved_row(&id, &contract, &hash, payload)).ok().map(|c| c.payload);
    assert_eq!(decoded(""), Some(vec![]));
    assert_eq!(decoded("0x"), Some(vec![]));
    assert_eq!(decoded("0X00"), Some(vec![0]));
    assert_eq!(decoded("0xAbCd"), Some(vec![0xab, 0xcd]));
    assert_eq!(decoded("0x0x"), None);
    assert_eq!(decoded("x0"), None);
    assert_eq!(decoded("0x0"), None);
    assert_eq!(decoded("000"), None);
    assert_eq!(decoded("00ä"), None);
    assert_eq!(decoded("ä0"), None);
    assert_eq!(decoded("äö"), None);
    assert_eq!(decoded("0x 0"), None);
    assert_eq!(decoded("00\n"), None);
}
