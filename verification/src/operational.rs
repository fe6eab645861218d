pub mod execute_contract_call_approved;
pub mod expire;
pub mod tx_sync;
