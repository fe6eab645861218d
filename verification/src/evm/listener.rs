//! What the listener and the backfill of a destination chain ask the
//! chain for: the logs of the gateway's approval event that name the
//! relayer's executable, within a range of blocks.

use crate::codec::{keccak256, keccak256_digest, opt_bytes};
use crate::conf::Chain;
use crate::constants::events::EVM_CONTRACT_CALL_APPROVED_SIGNATURE;
use crate::evm::broadcaster::fixed_bytes;
use vstd::prelude::*;

verus! {

/// Milliseconds before a subscription that ended is set up again.
pub const RESUBSCRIBE_DELAY_MILLIS: u64 = 1000;

/// A selection of logs: the emitting contract, the topics that must
/// match, and the blocks to look in. `to_block` is absent for a selection
/// that runs to the latest block.
#[derive(Debug)]
pub struct LogFilter {
    pub address: Vec<u8>,
    pub topic0: Option<Vec<u8>>,
    pub topic2: Vec<u8>,
    pub topic3: Option<Vec<u8>>,
    pub from_block: Option<u64>,
    pub to_block: Option<u64>,
}

/// Which address of a chain's configuration is no address.
#[derive(Clone, Copy, Debug, PartialEq, Eq, Structural)]
pub enum FilterError {
    /// The gateway address is no hexadecimal text of 20 bytes.
    GatewayAddress,
    /// The address of the relayer's executable is none.
    ExecutableAddress,
    /// The payload hash is no hexadecimal text of 32 bytes.
    PayloadHash,
}

/// An address as a topic: twelve zero bytes, then the address.
pub open spec fn address_topic(address: Seq<u8>) -> Seq<u8> {
    Seq::new(12, |i: int| 0u8) + address
}

/// The first block of a backfill that ends at `latest` and looks at no
/// more than `max_query_blocks` blocks before it.
pub open spec fn first_block(latest: u64, max_query_blocks: u64) -> u64 {
    if latest >= max_query_blocks {
        (latest - max_query_blocks) as u64
    } else {
        0
    }
}

/// The topic of the gateway's approval event: the Keccak-256 digest of
/// its signature.
pub open spec fn approval_topic() -> Seq<u8> {
    keccak256_digest(vstd::utf8::encode_utf8(EVM_CONTRACT_CALL_APPROVED_SIGNATURE@))
}

/// Reads an address of 20 bytes from hexadecimal text.
pub fn parse_address(text: &str) -> (r: Option<Vec<u8>>)
    ensures
        opt_bytes(r) == fixed_bytes(text@, 20),
{
    match crate::codec::hex_decode(text) {
        Some(bytes) => {
            if bytes.len() == 20 {
                Some(bytes)
            } else {
                None
            }
        },
        None => None,
    }
}

/// An address as a topic.
pub fn topic_of_address(address: &Vec<u8>) -> (r: Vec<u8>)
    ensures
        r@ == address_topic(address@),
{
    let mut out: Vec<u8> = Vec::new();
    let mut i: usize = 0;
    while i < 12
        invariant
            i <= 12,
            out@ == Seq::new(i as nat, |k: int| 0u8),
        decreases 12 - i,
    {
        out.push(0u8);
        assert(out@ =~= Seq::new((i + 1) as nat, |k: int| 0u8));
        i += 1;
    }
    let mut j: usize = 0;
    while j < address.len()
        invariant
            j <= address@.len(),
            out@ == Seq::new(12, |k: int| 0u8) + address@.take(j as int),
        decreases address@.len() - j,
    {
        out.push(address[j]);
        assert(out@ =~= Seq::new(12, |k: int| 0u8) + address@.take(j + 1));
        j += 1;
    }
    assert(address@.take(j as int) =~= address@);
    out
}

/// The topic of the gateway's approval event.
pub fn event_topic() -> (r: Vec<u8>)
    ensures
        r@ == approval_topic(),
        r@.len() == 32,
{
    keccak256(EVM_CONTRACT_CALL_APPROVED_SIGNATURE.as_bytes())
}

/// The selection that the live listener subscribes to: the gateway's logs
/// that name the relayer's executable as their second indexed topic.
pub fn live_filter(chain_config: &Chain) -> (r: Result<LogFilter, FilterError>)
    ensures
        match r {
            Ok(f) => {
                &&& fixed_bytes(chain_config.axelar_gateway_proxy@, 20) == Some(f.address@)
                &&& fixed_bytes(chain_config.carbon_axelar_gateway@, 20) is Some
                &&& f.topic2@ == address_topic(
                    fixed_bytes(chain_config.carbon_axelar_gateway@, 20)->0,
                )
                &&& f.topic0 is None
                &&& f.topic3 is None
                &&& f.from_block is None
                &&& f.to_block is None
            },
            Err(FilterError::GatewayAddress) => fixed_bytes(chain_config.axelar_gateway_proxy@, 20)
                is None,
            Err(FilterError::ExecutableAddress) => fixed_bytes(
                chain_config.axelar_gateway_proxy@,
                20,
            ) is Some && fixed_bytes(chain_config.carbon_axelar_gateway@, 20) is None,
            Err(FilterError::PayloadHash) => false,
        },
{
    let address = match parse_address(chain_config.axelar_gateway_proxy.as_str()) {
        Some(a) => a,
        None => {
            return Err(FilterError::GatewayAddress);
        },
    };
    let executable = match parse_address(chain_config.carbon_axelar_gateway.as_str()) {
        Some(a) => a,
        None => {
            return Err(FilterError::ExecutableAddress);
        },
    };
    Ok(
        LogFilter {
            address,
            topic0: None,
            topic2: topic_of_address(&executable),
            topic3: None,
            from_block: None,
            to_block: None,
        },
    )
}

/// The selection of a backfill: the approval logs of the gateway that
/// name the relayer's executable, in the last `max_query_blocks` blocks
/// up to `latest_block`.
pub fn backfill(chain_config: &Chain, latest_block: u64) -> (r: Result<LogFilter, FilterError>)
    ensures
        match r {
            Ok(f) => {
                &&& fixed_bytes(chain_config.axelar_gateway_proxy@, 20) == Some(f.address@)
                &&& fixed_bytes(chain_config.carbon_axelar_gateway@, 20) is Some
                &&& f.topic2@ == address_topic(
                    fixed_bytes(chain_config.carbon_axelar_gateway@, 20)->0,
                )
                &&& f.topic0 is Some && f.topic0->0@ == approval_topic()
                &&& f.topic3 is None
                &&& f.from_block == Some(first_block(latest_block, chain_config.max_query_blocks))
                &&& f.to_block == Some(latest_block)
            },
            Err(FilterError::GatewayAddress) => fixed_bytes(chain_config.axelar_gateway_proxy@, 20)
                is None,
            Err(FilterError::ExecutableAddress) => fixed_bytes(
                chain_config.axelar_gateway_proxy@,
                20,
            ) is Some && fixed_bytes(chain_config.carbon_axelar_gateway@, 20) is None,
            Err(FilterError::PayloadHash) => false,
        },
{
    match live_filter(chain_config) {
        Ok(f) => Ok(
            LogFilter {
                address: f.address,
                topic0: Some(event_topic()),
                topic2: f.topic2,
                topic3: None,
                from_block: Some(latest_block.saturating_sub(chain_config.max_query_blocks)),
                to_block: Some(latest_block),
            },
        ),
        Err(e) => Err(e),
    }
}

} // verus!
