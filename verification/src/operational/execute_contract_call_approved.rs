//! The operator's request to execute one approved call by hand: the
//! payload is brought into hexadecimal form and the approval, read from
//! the receipt of its transaction, is made into a row to broadcast.

use crate::codec::{
    all_hex_digits, base64_decode, base64_decoded, hex_encode, hex_encode_prefixed, hex_prefixed,
    hex_text, is_hex_digit,
};
use crate::db::{ApprovedCallView, BroadcastStatus, DbContractCallApprovedEvent};
use crate::text::{is_prefix, starts_with};
use crate::util::evm::ContractCallApprovedEvent;
use vstd::prelude::*;

verus! {

/// The digits of a text that may begin with `0x`.
pub open spec fn after_0x(s: Seq<char>) -> Seq<char> {
    if is_prefix("0x"@, s) {
        s.skip(2)
    } else {
        s
    }
}

/// Whether a text is hexadecimal: after an optional `0x`, digits of
/// either case only.
pub open spec fn is_hex_text(s: Seq<char>) -> bool {
    all_hex_digits(after_0x(s))
}

/// A payload in hexadecimal form with `0x` in front: hexadecimal text as
/// it is, with the prefix added where it lacks; any other text as the
/// bytes that it denotes in base64, if it denotes any.
pub open spec fn payload_hex(payload: Seq<char>) -> Option<Seq<char>> {
    if is_hex_text(payload) {
        if is_prefix("0x"@, payload) {
            Some(payload)
        } else {
            Some("0x"@ + payload)
        }
    } else {
        match base64_decoded(payload) {
            Some(bytes) => Some(hex_prefixed(bytes)),
            None => None,
        }
    }
}

/// The row with which an approval is broadcast by hand: hashes and
/// addresses as bare hexadecimal text.
pub open spec fn manual_row(
    chain_id: Seq<char>,
    event: ContractCallApprovedEvent,
    payload: Seq<char>,
) -> ApprovedCallView {
    ApprovedCallView {
        id: 0i32,
        blockchain: chain_id,
        broadcast_status: BroadcastStatus::PendingBroadcast,
        command_id: hex_text(event.command_id@),
        source_chain: event.source_chain@,
        source_address: event.source_address@,
        contract_address: hex_text(event.contract_address@),
        payload_hash: hex_text(event.payload_hash@),
        source_tx_hash: hex_text(event.source_tx_hash@),
        source_event_index: event.source_event_index@,
        payload,
    }
}

/// Whether a text is hexadecimal.
pub fn is_hex(s: &str) -> (r: bool)
    ensures
        r == is_hex_text(s@),
{
    proof {
        reveal_strlit("0x");
    }
    let from: usize = if starts_with(s, "0x") {
        2
    } else {
        0
    };
    proof {
        assert(s@.skip(0) =~= s@);
    }
    let n = s.unicode_len();
    let ghost digits = s@.skip(from as int);
    let mut i: usize = from;
    while i < n
        invariant
            n == s@.len(),
            from <= i <= n,
            digits == s@.skip(from as int),
            digits == after_0x(s@),
            forall|j: int| 0 <= j < i - from ==> is_hex_digit(#[trigger] digits[j]),
        decreases n - i,
    {
        let c = s.get_char(i);
        let ok = (c >= '0' && c <= '9') || (c >= 'a' && c <= 'f') || (c >= 'A' && c <= 'F');
        if !ok {
            assert(!is_hex_digit(digits[i - from]));
            return false;
        }
        i += 1;
    }
    true
}

/// The bytes that a base64 text denotes, as prefixed hexadecimal text.
pub fn base64_to_hex(base64_str: &str) -> (r: Option<String>)
    ensures
        crate::util::datetime::opt_text(r) == match base64_decoded(base64_str@) {
            Some(bytes) => Some(hex_prefixed(bytes)),
            None => None,
        },
{
    match base64_decode(base64_str) {
        Some(bytes) => Some(hex_encode_prefixed(bytes.as_slice())),
        None => None,
    }
}

/// Brings a payload into hexadecimal form with `0x` in front.
pub fn normalize_payload(payload: &str) -> (r: Option<String>)
    ensures
        crate::util::datetime::opt_text(r) == payload_hex(payload@),
{
    if is_hex(payload) {
        if starts_with(payload, "0x") {
            Some(payload.to_owned())
        } else {
            let mut out = "0x".to_owned();
            out.append(payload);
            Some(out)
        }
    } else {
        base64_to_hex(payload)
    }
}

/// The row with which an approval is broadcast by hand.
pub fn execute_contract_call_approved(
    chain_id: &str,
    decoded_log: &ContractCallApprovedEvent,
    payload_hex: &str,
) -> (r: DbContractCallApprovedEvent)
    ensures
        r@ == manual_row(chain_id@, *decoded_log, payload_hex@),
{
    DbContractCallApprovedEvent {
        id: 0,
        blockchain: chain_id.to_owned(),
        broadcast_status: BroadcastStatus::PendingBroadcast,
        command_id: hex_encode(decoded_log.command_id.as_slice()),
        source_chain: decoded_log.source_chain.clone(),
        source_address: decoded_log.source_address.clone(),
        contract_address: hex_encode(decoded_log.contract_address.as_slice()),
        payload_hash: hex_encode(decoded_log.payload_hash.as_slice()),
        source_tx_hash: hex_encode(decoded_log.source_tx_hash.as_slice()),
        source_event_index: decoded_log.source_event_index.clone(),
        payload: payload_hex.to_owned(),
    }
}

} // verus!
