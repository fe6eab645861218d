//! The gateway's approval event, as read from a log of a destination
//! chain.

use vstd::prelude::*;

verus! {

/// The gateway's notice that it has approved a contract call. The command,
/// the payload hash and the source transaction hash have 32 bytes, the
/// contract address has 20; the event index is a decimal number.
#[derive(Debug, Clone, PartialEq, Eq, Default)]
pub struct ContractCallApprovedEvent {
    pub command_id: Vec<u8>,
    pub source_chain: String,
    pub source_address: String,
    pub contract_address: Vec<u8>,
    pub payload_hash: Vec<u8>,
    pub source_tx_hash: Vec<u8>,
    pub source_event_index: String,
}

impl ContractCallApprovedEvent {
    /// The byte fields have the lengths of their kinds.
    pub open spec fn wf(&self) -> bool {
        &&& self.command_id@.len() == 32
        &&& self.contract_address@.len() == 20
        &&& self.payload_hash@.len() == 32
        &&& self.source_tx_hash@.len() == 32
    }

    pub fn is_valid(&self) -> (r: bool)
        ensures
            r == self.wf(),
    {
        self.command_id.len() == 32 && self.contract_address.len() == 20
            && self.payload_hash.len() == 32 && self.source_tx_hash.len() == 32
    }
}

} // verus!
