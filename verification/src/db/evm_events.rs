//! Keeping the gateway's approvals: each approval becomes a row that
//! waits for its broadcast, with the payload that the hub announced.

use crate::codec::{hex_encode_prefixed, hex_prefixed};
use crate::conf::Chain;
use crate::db::store::{EventStore, SaveOutcome, StoreState};
use crate::db::{ApprovedCallView, BroadcastStatus, DbContractCallApprovedEvent};
use crate::util::evm::ContractCallApprovedEvent;
use vstd::prelude::*;

verus! {

/// What an approval did to the store.
#[derive(Clone, Copy, Debug, PartialEq, Eq, Structural)]
pub enum ApprovedIngest {
    /// The store has no payload with the approval's hash; nothing changed.
    NoPayload,
    /// The approval was handed to the store, with this outcome.
    Kept(SaveOutcome),
}

/// The row of an approval on the chain `chain_id`, with the payload
/// `payload`: hashes and addresses as prefixed hexadecimal text.
pub open spec fn approved_row(
    chain_id: Seq<char>,
    event: ContractCallApprovedEvent,
    payload: Seq<char>,
) -> ApprovedCallView {
    ApprovedCallView {
        id: -1i32,
        blockchain: chain_id,
        broadcast_status: BroadcastStatus::PendingBroadcast,
        command_id: hex_prefixed(event.command_id@),
        source_chain: event.source_chain@,
        source_address: event.source_address@,
        contract_address: hex_prefixed(event.contract_address@),
        payload_hash: hex_prefixed(event.payload_hash@),
        source_tx_hash: hex_prefixed(event.source_tx_hash@),
        source_event_index: event.source_event_index@,
        payload,
    }
}

/// What an approval does, as far as it can be told from the store before
/// it.
pub open spec fn approved_ingest_of(s: StoreState, chain_id: Seq<char>, event: ContractCallApprovedEvent) -> ApprovedIngest {
    match s.axelar_call_by_hash(hex_prefixed(event.payload_hash@)) {
        Some(call) => ApprovedIngest::Kept(
            s.approved_outcome(approved_row(chain_id, event, call.payload)),
        ),
        None => ApprovedIngest::NoPayload,
    }
}

/// The store after an approval: it is kept if the store has the payload
/// with its hash.
pub open spec fn approved_ingested(s: StoreState, chain_id: Seq<char>, event: ContractCallApprovedEvent) -> StoreState {
    match s.axelar_call_by_hash(hex_prefixed(event.payload_hash@)) {
        Some(call) => s.save_approved(approved_row(chain_id, event, call.payload)),
        None => s,
    }
}

/// The row of an approval on the chain `chain_id`, with the payload that
/// the hub announced under the approval's hash.
pub fn approved_call_row(chain_id: &str, event: &ContractCallApprovedEvent, payload: &str) -> (r:
    DbContractCallApprovedEvent)
    ensures
        r@ == approved_row(chain_id@, *event, payload@),
{
    DbContractCallApprovedEvent {
        id: -1,
        blockchain: chain_id.to_owned(),
        broadcast_status: BroadcastStatus::PendingBroadcast,
        command_id: hex_encode_prefixed(event.command_id.as_slice()),
        source_chain: event.source_chain.clone(),
        source_address: event.source_address.clone(),
        contract_address: hex_encode_prefixed(event.contract_address.as_slice()),
        payload_hash: hex_encode_prefixed(event.payload_hash.as_slice()),
        source_tx_hash: hex_encode_prefixed(event.source_tx_hash.as_slice()),
        source_event_index: event.source_event_index.clone(),
        payload: payload.to_owned(),
    }
}

/// The hash under which the payload of an approval is looked up.
pub fn payload_hash_text(event: &ContractCallApprovedEvent) -> (r: String)
    ensures
        r@ == hex_prefixed(event.payload_hash@),
{
    hex_encode_prefixed(event.payload_hash.as_slice())
}

/// Keeps an approval of the chain `chain_config`: the payload that the hub
/// announced under the approval's hash is looked up, and with it the
/// approval becomes a row that waits for its broadcast. Without the
/// payload the approval is passed over.
pub fn save_call_contract_approved_event(
    store: &mut EventStore,
    chain_config: &Chain,
    event: &ContractCallApprovedEvent,
) -> (r: ApprovedIngest)
    requires
        old(store)@.wf(),
    ensures
        r == approved_ingest_of(old(store)@, chain_config.chain_id@, *event),
        final(store)@ == approved_ingested(old(store)@, chain_config.chain_id@, *event),
        final(store)@.wf(),
{
    let payload_hash = payload_hash_text(event);
    let call = match store.get_axelar_call_contract_event(payload_hash.as_str()) {
        Some(call) => call,
        None => {
            return ApprovedIngest::NoPayload;
        },
    };
    let row = approved_call_row(chain_config.chain_id.as_str(), event, call.payload.as_str());
    ApprovedIngest::Kept(store.save_approved_call(&row))
}

} // verus!
