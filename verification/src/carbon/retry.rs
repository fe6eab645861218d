//! The decisions of the retry and expiry loop of the hub pipeline: which
//! pending actions to relay, when to count an attempt, which expired
//! actions to drop and which to ask the hub to prune.

use crate::conf::{Carbon, Fee, RelayStrategy};
use crate::db::store::{
    contains_nonce, expired_rows, pending_views, retriable_rows, EventStore, StoreState,
};
use crate::db::{DbPendingActionEvent, PendingActionType, PendingActionView, RelayDetails, RelayDetailsView};
use crate::fee::fee::{action_type_of, has_enough_fees, opt_quote, strategy_accepts, FeeResponse, FeeResponseView};
use crate::text::str_equal;
use crate::util::carbon::msg::{MsgPruneExpiredPendingActions, MsgStartRelay};
use crate::util::datetime::Timestamp;
use vstd::prelude::*;

verus! {

/// Seconds between two rounds of the loop.
pub const TICK_SECONDS: u64 = 60;

/// The denomination of the fee of a registration that the bridge calls
/// back for, which is relayed for free.
pub const CALLBACK_DENOM: &'static str = "axlcall";

/// What became of the message that starts a relay.
#[derive(Clone, Copy, Debug, PartialEq, Eq, Structural)]
pub enum Delivery {
    /// The broadcaster's mailbox did not take the message.
    NotQueued,
    /// The broadcaster answered, with success or with failure.
    Replied,
    /// The message was queued and the answer never came.
    ReplyLost,
}

/// The address is one of the configured addresses.
pub open spec fn is_whitelisted(whitelist: Seq<String>, address: Seq<char>) -> bool {
    exists|i: int| 0 <= i < whitelist.len() && whitelist[i]@ == address
}

/// The action is a token registration whose fee is in the callback
/// denomination.
pub open spec fn is_callback_register(row: PendingActionView) -> bool {
    row.relay_details.fee.denom == CALLBACK_DENOM@ && PendingActionType::of_code(
        row.pending_action_type,
    ) == Some(PendingActionType::PendingRegisterTokenType)
}

/// One of the two rules that are looked at before the strategy applies.
pub open spec fn is_overridden(whitelist: Seq<String>, row: PendingActionView) -> bool {
    is_whitelisted(whitelist, row.relay_details.fee_sender_address) || is_callback_register(row)
}

/// Whether the relayer takes on a pending action: its fee sender is
/// whitelisted, or it is a registration paid in the callback denomination,
/// or the strategy accepts its fee.
pub open spec fn can_relay(
    strategy: RelayStrategy,
    tolerance_bp: u64,
    whitelist: Seq<String>,
    row: PendingActionView,
    quote: Option<FeeResponseView>,
) -> bool {
    is_overridden(whitelist, row) || strategy_accepts(
        strategy,
        tolerance_bp,
        row.relay_details.fee.amount,
        PendingActionType::of_code(row.pending_action_type),
        quote,
    )
}

/// Whether a relay must not be started, given what the hub says of the
/// action now: it is gone, it has expired, or it was sent.
pub open spec fn relay_is_over(details: Option<RelayDetailsView>, now: Timestamp) -> bool {
    match details {
        None => true,
        Some(d) => d.has_expired(now) || d.is_sent(),
    }
}

/// The expired nonces that the hub no longer has pending, in their order.
pub open spec fn nonces_to_delete(expired: Seq<i64>, pending: Seq<i64>) -> Seq<i64>
    decreases expired.len(),
{
    if expired.len() == 0 {
        Seq::empty()
    } else {
        let head = nonces_to_delete(expired.drop_last(), pending);
        if pending.contains(expired.last()) {
            head
        } else {
            head.push(expired.last())
        }
    }
}

/// The expired nonces that the hub still has pending, in their order.
pub open spec fn nonces_to_process(expired: Seq<i64>, pending: Seq<i64>) -> Seq<i64>
    decreases expired.len(),
{
    if expired.len() == 0 {
        Seq::empty()
    } else {
        let head = nonces_to_process(expired.drop_last(), pending);
        if pending.contains(expired.last()) {
            head.push(expired.last())
        } else {
            head
        }
    }
}

/// The nonces of rows, in their order.
pub open spec fn nonces_of_rows(rows: Seq<PendingActionView>) -> Seq<i64> {
    Seq::new(rows.len(), |i: int| rows[i].nonce)
}

/// The nonces that are not negative, as unsigned numbers, in their order.
pub open spec fn unsigned_nonces(nonces: Seq<i64>) -> Seq<u64>
    decreases nonces.len(),
{
    if nonces.len() == 0 {
        Seq::empty()
    } else {
        let head = unsigned_nonces(nonces.drop_last());
        if nonces.last() >= 0 {
            head.push(nonces.last() as u64)
        } else {
            head
        }
    }
}

/// No pending action has more than `max_retries` attempts on its count.
pub open spec fn within_retry_bound(s: StoreState, max_retries: i32) -> bool {
    forall|i: int|
        0 <= i < s.pending_actions.len() ==> (#[trigger] s.pending_actions[i]).retry_count
            <= max_retries
}

pub open spec fn opt_details(d: Option<&RelayDetails>) -> Option<RelayDetailsView> {
    match d {
        Some(v) => Some(v@),
        None => None,
    }
}

pub open spec fn opt_start(m: Option<MsgStartRelay>) -> Option<(Seq<char>, u64)> {
    match m {
        Some(v) => Some((v.relayer@, v.nonce)),
        None => None,
    }
}

pub open spec fn opt_prune(m: Option<MsgPruneExpiredPendingActions>) -> Option<(Seq<char>, Seq<u64>)> {
    match m {
        Some(v) => Some((v.creator@, v.nonces@)),
        None => None,
    }
}

/// Whether `address` is one of the configured addresses.
fn in_whitelist(whitelist: &Vec<String>, address: &str) -> (r: bool)
    ensures
        r == is_whitelisted(whitelist@, address@),
{
    let mut i: usize = 0;
    while i < whitelist.len()
        invariant
            i <= whitelist@.len(),
            forall|j: int| 0 <= j < i ==> whitelist@[j]@ != address@,
        decreases whitelist@.len() - i,
    {
        if str_equal(whitelist[i].as_str(), address) {
            return true;
        }
        i += 1;
    }
    false
}

/// Whether one of the rules that come before the strategy accepts the
/// action.
pub fn is_whitelisted_or_callback(fee_config: &Fee, pending_action: &DbPendingActionEvent) -> (r:
    bool)
    ensures
        r == is_overridden(fee_config.whitelist_addresses@, pending_action@),
{
    if in_whitelist(
        &fee_config.whitelist_addresses,
        pending_action.relay_details.fee_sender_address.as_str(),
    ) {
        return true;
    }
    let is_register = match action_type_of(pending_action) {
        Some(PendingActionType::PendingRegisterTokenType) => true,
        _ => false,
    };
    str_equal(pending_action.relay_details.fee.denom.as_str(), CALLBACK_DENOM) && is_register
}

/// Whether a quote has to be asked for before the action can be judged.
pub fn needs_hydrogen_quote(fee_config: &Fee, pending_action: &DbPendingActionEvent) -> (r: bool)
    ensures
        r == (!is_overridden(fee_config.whitelist_addresses@, pending_action@)
            && fee_config.relay_strategy == RelayStrategy::Hydrogen),
{
    !is_whitelisted_or_callback(fee_config, pending_action) && fee_config.relay_strategy
        == RelayStrategy::Hydrogen
}

/// Whether the relayer takes on a pending action. `quote` is the quote
/// that was had for it, or `None` if none was asked for or the asking
/// failed.
pub fn is_whitelisted_or_sufficient_fees(
    fee_config: &Fee,
    pending_action: &DbPendingActionEvent,
    quote: Option<&FeeResponse>,
) -> (r: bool)
    ensures
        r == can_relay(
            fee_config.relay_strategy,
            fee_config.fee_tolerance_bp,
            fee_config.whitelist_addresses@,
            pending_action@,
            opt_quote(quote),
        ),
{
    if is_whitelisted_or_callback(fee_config, pending_action) {
        return true;
    }
    has_enough_fees(fee_config, pending_action, quote)
}

/// The pending actions to try again at `now`: those with attempts left
/// whose expiry time lies after `now`.
pub fn retry_pending_actions(store: &EventStore, carbon_config: &Carbon, now: &Timestamp) -> (r: Vec<
    DbPendingActionEvent,
>)
    ensures
        pending_views(r@) == retriable_rows(
            store@.pending_actions,
            carbon_config.maximum_start_relay_retry_count,
            *now,
        ),
{
    store.get_retriable_pending_action_events(carbon_config.maximum_start_relay_retry_count, now)
}

/// Whether a relay must not be started, given the relay details that the
/// hub has for the action now, or `None` if it has none.
pub fn is_expired_or_sent(details: Option<&RelayDetails>, now: &Timestamp) -> (r: bool)
    ensures
        r == relay_is_over(opt_details(details), *now),
{
    match details {
        None => true,
        Some(d) => d.has_expired(now) || d.is_sent(),
    }
}

/// The message that starts the relay of `nonce`, unless the relay is over
/// or the nonce is negative.
pub fn queue_start_relay(
    carbon_config: &Carbon,
    nonce: i64,
    details: Option<&RelayDetails>,
    now: &Timestamp,
) -> (r: Option<MsgStartRelay>)
    ensures
        opt_start(r) == (if relay_is_over(opt_details(details), *now) || nonce < 0 {
            None
        } else {
            Some((carbon_config.relayer_address@, nonce as u64))
        }),
{
    if is_expired_or_sent(details, now) || nonce < 0 {
        return None;
    }
    Some(MsgStartRelay { relayer: carbon_config.relayer_address.clone(), nonce: nonce as u64 })
}

/// Whether an attempt to start a relay is counted: whatever the
/// broadcaster answered, unless its mailbox never took the message.
pub fn counts_as_attempt(delivery: Delivery) -> (r: bool)
    ensures
        r == (delivery != Delivery::NotQueued),
{
    match delivery {
        Delivery::NotQueued => false,
        _ => true,
    }
}

/// Counts the attempt to start the relay of `nonce`, whatever the
/// broadcaster answered, unless its mailbox never took the message.
pub fn record_start_relay(store: &mut EventStore, nonce: i64, delivery: Delivery)
    requires
        old(store)@.wf(),
    ensures
        final(store)@ == (if delivery == Delivery::NotQueued {
            old(store)@
        } else {
            old(store)@.bump_retry(nonce)
        }),
        final(store)@.wf(),
{
    if counts_as_attempt(delivery) {
        store.add_bridge_pending_action_event_retry_count(nonce);
    }
}

/// The nonces of the pending actions that have expired at `now`.
pub fn expired_nonces(store: &EventStore, now: &Timestamp) -> (r: Vec<i64>)
    ensures
        r@ == nonces_of_rows(expired_rows(store@.pending_actions, *now)),
{
    let rows = store.get_expired_pending_action_events(now);
    let mut out: Vec<i64> = Vec::new();
    let mut i: usize = 0;
    while i < rows.len()
        invariant
            i <= rows@.len(),
            out@.len() == i,
            forall|k: int| 0 <= k < i ==> out@[k] == rows@[k].nonce,
        decreases rows@.len() - i,
    {
        out.push(rows[i].nonce);
        i += 1;
    }
    assert(out@ =~= nonces_of_rows(pending_views(rows@)));
    out
}

/// Sorts the expired nonces by what the hub says: first those that it no
/// longer has pending, which are to be deleted, then those that it still
/// has, which are to be pruned on the hub.
pub fn partition_expired(pending_nonces: &Vec<i64>, expired_nonces: &Vec<i64>) -> (r: (
    Vec<i64>,
    Vec<i64>,
))
    ensures
        r.0@ == nonces_to_delete(expired_nonces@, pending_nonces@),
        r.1@ == nonces_to_process(expired_nonces@, pending_nonces@),
{
    let mut to_delete: Vec<i64> = Vec::new();
    let mut to_process: Vec<i64> = Vec::new();
    let mut i: usize = 0;
    while i < expired_nonces.len()
        invariant
            i <= expired_nonces@.len(),
            to_delete@ == nonces_to_delete(expired_nonces@.take(i as int), pending_nonces@),
            to_process@ == nonces_to_process(expired_nonces@.take(i as int), pending_nonces@),
        decreases expired_nonces@.len() - i,
    {
        proof {
            assert(expired_nonces@.take(i + 1).drop_last() =~= expired_nonces@.take(i as int));
        }
        if contains_nonce(pending_nonces, expired_nonces[i]) {
            to_process.push(expired_nonces[i]);
        } else {
            to_delete.push(expired_nonces[i]);
        }
        i += 1;
    }
    assert(expired_nonces@.take(i as int) =~= expired_nonces@);
    (to_delete, to_process)
}

/// Sorts the expired nonces by what the hub says: those that it no longer
/// has pending are removed from the store, those that it still has are
/// returned, to be pruned on the hub.
pub fn prune_processed_nonces(
    store: &mut EventStore,
    pending_nonces: &Vec<i64>,
    expired_nonces: &Vec<i64>,
) -> (r: Vec<i64>)
    requires
        old(store)@.wf(),
    ensures
        r@ == nonces_to_process(expired_nonces@, pending_nonces@),
        final(store)@ == old(store)@.delete_pending(
            nonces_to_delete(expired_nonces@, pending_nonces@),
        ),
        final(store)@.wf(),
{
    let (to_delete, to_process) = partition_expired(pending_nonces, expired_nonces);
    store.delete_bridge_pending_action_events(&to_delete);
    to_process
}

/// The message that asks the hub to prune `nonces`, unless none of them
/// can be written as an unsigned number.
pub fn queue_expire_relay(carbon_config: &Carbon, nonces: &Vec<i64>) -> (r: Option<
    MsgPruneExpiredPendingActions,
>)
    ensures
        opt_prune(r) == (if unsigned_nonces(nonces@).len() == 0 {
            None
        } else {
            Some((carbon_config.relayer_address@, unsigned_nonces(nonces@)))
        }),
{
    let mut out: Vec<u64> = Vec::new();
    let mut i: usize = 0;
    while i < nonces.len()
        invariant
            i <= nonces@.len(),
            out@ == unsigned_nonces(nonces@.take(i as int)),
        decreases nonces@.len() - i,
    {
        proof {
            assert(nonces@.take(i + 1).drop_last() =~= nonces@.take(i as int));
        }
        if nonces[i] >= 0 {
            out.push(nonces[i] as u64);
        }
        i += 1;
    }
    assert(nonces@.take(i as int) =~= nonces@);
    if out.len() == 0 {
        None
    } else {
        Some(
            MsgPruneExpiredPendingActions {
                creator: carbon_config.relayer_address.clone(),
                nonces: out,
            },
        )
    }
}

/// The decision on a pending action depends on nothing but the strategy,
/// the tolerance, the whitelisted addresses, the action and the quote:
/// two askings with the same of each get the same answer.
pub proof fn lemma_fee_policy_is_pure(
    strategy: RelayStrategy,
    tolerance_bp: u64,
    first_whitelist: Seq<String>,
    second_whitelist: Seq<String>,
    row: PendingActionView,
    quote: Option<FeeResponseView>,
)
    requires
        first_whitelist.len() == second_whitelist.len(),
        forall|i: int| 0 <= i < first_whitelist.len() ==> first_whitelist[i]@ == second_whitelist[i]@,
    ensures
        can_relay(strategy, tolerance_bp, first_whitelist, row, quote) == can_relay(
            strategy,
            tolerance_bp,
            second_whitelist,
            row,
            quote,
        ),
{
    let address = row.relay_details.fee_sender_address;
    if is_whitelisted(first_whitelist, address) {
        let i = choose|i: int| 0 <= i < first_whitelist.len() && first_whitelist[i]@ == address;
        assert(second_whitelist[i]@ == address);
    }
    if is_whitelisted(second_whitelist, address) {
        let i = choose|i: int| 0 <= i < second_whitelist.len() && second_whitelist[i]@ == address;
        assert(first_whitelist[i]@ == address);
    }
}

/// Every expired nonce is either deleted or processed, never both.
pub proof fn lemma_expired_nonces_are_sorted(expired: Seq<i64>, pending: Seq<i64>, nonce: i64)
    ensures
        nonces_to_delete(expired, pending).contains(nonce) <==> expired.contains(nonce)
            && !pending.contains(nonce),
        nonces_to_process(expired, pending).contains(nonce) <==> expired.contains(nonce)
            && pending.contains(nonce),
    decreases expired.len(),
{
    if expired.len() > 0 {
        let head = expired.drop_last();
        lemma_expired_nonces_are_sorted(head, pending, nonce);
        let d = nonces_to_delete(expired, pending);
        let p = nonces_to_process(expired, pending);
        let dh = nonces_to_delete(head, pending);
        let ph = nonces_to_process(head, pending);
        if expired.contains(nonce) {
            let i = choose|i: int| 0 <= i < expired.len() && expired[i] == nonce;
            if i < head.len() {
                assert(head[i] == nonce);
            }
        }
        if head.contains(nonce) {
            let i = choose|i: int| 0 <= i < head.len() && head[i] == nonce;
            assert(expired[i] == nonce);
        }
        assert(expired[expired.len() - 1] == expired.last());
        if dh.contains(nonce) {
            let k = choose|k: int| 0 <= k < dh.len() && dh[k] == nonce;
            assert(d[k] == nonce);
        }
        if ph.contains(nonce) {
            let k = choose|k: int| 0 <= k < ph.len() && ph[k] == nonce;
            assert(p[k] == nonce);
        }
        if d.contains(nonce) {
            let k = choose|k: int| 0 <= k < d.len() && d[k] == nonce;
            if k < dh.len() {
                assert(dh[k] == nonce);
            }
        }
        if p.contains(nonce) {
            let k = choose|k: int| 0 <= k < p.len() && p[k] == nonce;
            if k < ph.len() {
                assert(ph[k] == nonce);
            }
        }
        if !pending.contains(expired.last()) {
            assert(d[d.len() - 1] == expired.last());
        } else {
            assert(p[p.len() - 1] == expired.last());
        }
    }
}

/// A pending action that is saved starts with a count within the bound,
/// and counting an attempt for an action that has attempts left keeps every
/// count within the bound: no count of attempts is negative, and none
/// exceeds the largest number of attempts.
pub proof fn lemma_retry_count_stays_within_bound(s: StoreState, max_retries: i32, nonce: i64)
    requires
        s.wf(),
        within_retry_bound(s, max_retries),
        s.pending_by_nonce(nonce) matches Some(row) ==> row.retry_count < max_retries,
    ensures
        within_retry_bound(s.bump_retry(nonce), max_retries),
        forall|i: int|
            0 <= i < s.bump_retry(nonce).pending_actions.len() ==> (#[trigger] s.bump_retry(
                nonce,
            ).pending_actions[i]).retry_count >= 0,
{
    let t = s.bump_retry(nonce);
    assert forall|i: int| 0 <= i < t.pending_actions.len() implies (
    #[trigger] t.pending_actions[i]).retry_count <= max_retries && t.pending_actions[i].retry_count
        >= 0 by {
        let row = s.pending_actions[i];
        assert(row.retry_count >= 0);
        assert(row.retry_count <= max_retries);
        if row.nonce == nonce {
            assert(s.has_pending(nonce));
            let c = choose|c: int|
                0 <= c < s.pending_actions.len() && s.pending_actions[c].nonce == nonce;
            if c < i {
                assert(s.pending_actions[c].nonce != s.pending_actions[i].nonce);
            } else if i < c {
                assert(s.pending_actions[i].nonce != s.pending_actions[c].nonce);
            }
            assert(s.pending_by_nonce(nonce) == Some(row));
        }
    }
}

/// Saving a pending action keeps every count within a bound that is not
/// negative when the action comes with a count within it, as every action
/// read from an event does, whose count is zero.
pub proof fn lemma_save_keeps_retry_bound(s: StoreState, max_retries: i32, row: PendingActionView)
    requires
        within_retry_bound(s, max_retries),
        row.retry_count <= max_retries,
    ensures
        within_retry_bound(s.save_pending(row), max_retries),
{
    let t = s.save_pending(row);
    assert forall|i: int| 0 <= i < t.pending_actions.len() implies (
    #[trigger] t.pending_actions[i]).retry_count <= max_retries by {
        if i < s.pending_actions.len() {
            assert(s.pending_actions[i].retry_count <= max_retries);
        }
    }
}

/// Deleting pending actions keeps every count within the bound.
pub proof fn lemma_delete_keeps_retry_bound(s: StoreState, max_retries: i32, nonces: Seq<i64>)
    requires
        within_retry_bound(s, max_retries),
    ensures
        within_retry_bound(s.delete_pending(nonces), max_retries),
{
    let t = s.delete_pending(nonces);
    assert forall|i: int| 0 <= i < t.pending_actions.len() implies (
    #[trigger] t.pending_actions[i]).retry_count <= max_retries by {
        crate::db::store::lemma_rows_without_subset(s.pending_actions, nonces, i);
        let k = choose|k: int|
            0 <= k < s.pending_actions.len() && s.pending_actions[k] == t.pending_actions[i];
        assert(s.pending_actions[k].retry_count <= max_retries);
    }
}

} // verus!
