//! The relayer's configuration.

use crate::text::str_equal;
use vstd::prelude::*;

verus! {

/// The whole configuration document.
#[derive(Clone, Debug)]
pub struct AppConfig {
    pub debug: bool,
    pub database: Database,
    pub carbon: Carbon,
    pub fee: Fee,
    pub evm_chains: Vec<Chain>,
}

/// How to reach the hub and sign for it.
#[derive(Clone, Debug)]
pub struct Carbon {
    pub chain_id: String,
    pub axelar_bridge_id: String,
    pub rpc_url: String,
    pub rest_url: String,
    pub ws_url: String,
    pub relayer_address: String,
    pub relayer_mnemonic: String,
    pub account_prefix: String,
    pub maximum_start_relay_retry_count: i32,
}

/// Which fees the relayer accepts.
#[derive(Clone, Copy, Debug, PartialEq, Eq, Structural)]
pub enum RelayStrategy {
    Hydrogen,
    All,
    GreaterThan0,
}

/// The fee policy. The tolerance is in basis points: 500 stands for 5 %.
#[derive(Clone, Debug)]
pub struct Fee {
    pub relay_strategy: RelayStrategy,
    pub hydrogen_url: String,
    pub fee_tolerance_bp: u64,
    pub whitelist_addresses: Vec<String>,
}

/// One destination chain.
#[derive(Clone, Debug)]
pub struct Chain {
    pub chain_id: String,
    pub rpc_url: String,
    pub ws_url: String,
    pub has_ws: bool,
    pub axelar_gateway_proxy: String,
    pub carbon_axelar_gateway: String,
    pub max_query_blocks: u64,
    pub relayer_private_key: String,
    pub backfill_poll_frequency: Option<u64>,
}

/// Where the event store lives.
#[derive(Clone, Debug)]
pub struct Database {
    pub pg_url: String,
}

/// Seconds between two backfills of a chain that configures none.
pub const DEFAULT_BACKFILL_POLL_SECONDS: u64 = 300;

impl RelayStrategy {
    /// The strategy that a name of the configuration stands for.
    pub open spec fn of_name(name: Seq<char>) -> Option<RelayStrategy> {
        if name == "hydrogen"@ {
            Some(RelayStrategy::Hydrogen)
        } else if name == "all"@ {
            Some(RelayStrategy::All)
        } else if name == "greater_than_0"@ {
            Some(RelayStrategy::GreaterThan0)
        } else {
            None
        }
    }

    pub fn from_name(name: &str) -> (r: Option<RelayStrategy>)
        ensures
            r == RelayStrategy::of_name(name@),
    {
        if str_equal(name, "hydrogen") {
            Some(RelayStrategy::Hydrogen)
        } else if str_equal(name, "all") {
            Some(RelayStrategy::All)
        } else if str_equal(name, "greater_than_0") {
            Some(RelayStrategy::GreaterThan0)
        } else {
            None
        }
    }
}

impl Chain {
    /// Seconds between two backfills of this chain.
    pub fn backfill_poll_seconds(&self) -> (r: u64)
        ensures
            r == match self.backfill_poll_frequency {
                Some(s) => s,
                None => DEFAULT_BACKFILL_POLL_SECONDS,
            },
    {
        match self.backfill_poll_frequency {
            Some(s) => s,
            None => DEFAULT_BACKFILL_POLL_SECONDS,
        }
    }
}

/// The index of the last chain with the given identifier, which is the
/// one that serves it when several are configured under one identifier.
pub open spec fn chain_index(chains: Seq<Chain>, chain_id: Seq<char>) -> Option<int>
    decreases chains.len(),
{
    if chains.len() == 0 {
        None
    } else if chains.last().chain_id@ == chain_id {
        Some(chains.len() - 1)
    } else {
        chain_index(chains.drop_last(), chain_id)
    }
}

/// The position of the chain that serves `chain_id`.
pub fn find_chain(chains: &Vec<Chain>, chain_id: &str) -> (r: Option<usize>)
    ensures
        match r {
            Some(i) => chain_index(chains@, chain_id@) == Some(i as int),
            None => chain_index(chains@, chain_id@) is None,
        },
{
    let mut i: usize = chains.len();
    assert(chains@.take(i as int) =~= chains@);
    while i > 0
        invariant
            i <= chains@.len(),
            chain_index(chains@, chain_id@) == chain_index(chains@.take(i as int), chain_id@),
        decreases i,
    {
        proof {
            assert(chains@.take(i as int).drop_last() =~= chains@.take(i - 1));
        }
        if str_equal(chains[i - 1].chain_id.as_str(), chain_id) {
            return Some(i - 1);
        }
        i -= 1;
    }
    None
}

} // verus!
