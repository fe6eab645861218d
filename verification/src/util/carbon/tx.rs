//! The fixed figures of the transactions that the relayer signs for the
//! hub. Signing itself is not done here.

use vstd::prelude::*;

verus! {

/// The derivation path of the relayer's signing key.
pub const COSMOS_HD_PATH: &'static str = "m/44'/118'/0'/0/0";

/// The amount and the denomination of the fee that every transaction pays.
pub const FEE_AMOUNT: u128 = 100000000;

pub const FEE_DENOM: &'static str = "swth";

/// The gas that a transaction is expected to need.
pub const DEFAULT_GAS: u64 = 1000000000;

/// Blocks after the latest one within which a transaction must be taken.
pub const TIMEOUT_BLOCKS: u64 = 100;

/// How the hub is asked to treat a broadcast: check it, do not wait for
/// its block.
pub const BROADCAST_MODE: &'static str = "BROADCAST_MODE_SYNC";

/// The gas limit for an expected need of `base_gas`: a fifth more.
pub open spec fn gas_limit(base_gas: u64) -> nat {
    (base_gas as nat) * 12 / 10
}

/// The gas limit for an expected need of `base_gas`, if it fits 64 bits.
pub fn adjusted_gas(base_gas: u64) -> (r: Option<u64>)
    ensures
        r == (if gas_limit(base_gas) <= u64::MAX {
            Some(gas_limit(base_gas) as u64)
        } else {
            None
        }),
{
    let wide: u128 = base_gas as u128 * 12 / 10;
    if wide <= u64::MAX as u128 {
        Some(wide as u64)
    } else {
        None
    }
}

/// The height after which a transaction built at `latest_block_height` is
/// no longer taken, if it fits 64 bits.
pub fn timeout_height(latest_block_height: u64) -> (r: Option<u64>)
    ensures
        r == (if latest_block_height + TIMEOUT_BLOCKS <= u64::MAX {
            Some((latest_block_height + TIMEOUT_BLOCKS) as u64)
        } else {
            None
        }),
{
    latest_block_height.checked_add(TIMEOUT_BLOCKS)
}

/// Where the hub tells of an account.
pub fn account_url(rest_url: &str, account_address: &str) -> (r: String)
    ensures
        r@ == rest_url@ + "/cosmos/auth/v1beta1/accounts/"@ + account_address@,
{
    let mut url = rest_url.to_owned();
    url.append("/cosmos/auth/v1beta1/accounts/");
    url.append(account_address);
    url
}

/// Where the hub's node tells of its latest block.
pub fn block_url(rpc_url: &str) -> (r: String)
    ensures
        r@ == rpc_url@ + "/block"@,
{
    let mut url = rpc_url.to_owned();
    url.append("/block");
    url
}

/// Where the hub takes transactions.
pub fn broadcast_url(rest_url: &str) -> (r: String)
    ensures
        r@ == rest_url@ + "/cosmos/tx/v1beta1/txs"@,
{
    let mut url = rest_url.to_owned();
    url.append("/cosmos/tx/v1beta1/txs");
    url
}

} // verus!
