//! The decisions of the per-chain broadcast worker: which approved calls
//! to take, how to price each send, when to send again and when to give up.

use crate::codec::{hex_decode, hex_decoded, opt_bytes};
use crate::conf::{chain_index, find_chain, Chain};
use crate::db::store::{approved_views, waiting_rows, EventStore, StatusChange, StoreState};
use crate::db::{BroadcastStatus, DbContractCallApprovedEvent};
use crate::text::{contains, has_substring};
use vstd::prelude::*;

verus! {

/// How often a send is repeated at a higher gas price before the call is
/// given up.
pub const MAX_GAS_RETRIES: u32 = 5;

/// Seconds to wait for a send and for its receipt.
pub const SEND_TIMEOUT_SECONDS: u64 = 60;

/// Seconds to wait before a send is repeated.
pub const RETRY_DELAY_SECONDS: u64 = 30;

/// Seconds between two looks at the store for calls to broadcast.
pub const POLL_INTERVAL_SECONDS: u64 = 5;

/// Calls that a chain's worker may have waiting in its mailbox.
pub const MAILBOX_CAPACITY: usize = 100;

/// What came of one send of the `execute` transaction.
#[derive(Clone, Copy, Debug, PartialEq, Eq, Structural)]
pub enum SendOutcome {
    /// A receipt with status 1.
    Confirmed,
    /// A receipt with another status.
    Reverted,
    /// The node knows of no receipt.
    ReceiptMissing,
    /// Waiting for the receipt failed.
    ReceiptError,
    /// No receipt came in time.
    ReceiptTimeout,
    /// The node refused the send because it knows the transaction already.
    AlreadyKnown,
    /// The node refused the send for another reason.
    SendError,
    /// The send was not answered in time.
    SendTimeout,
}

/// The price and the count of repeats with which a send is made.
#[derive(Clone, Copy, Debug, PartialEq, Eq, Structural)]
pub struct BroadcastAttempt {
    pub gas_price: u128,
    pub retries: u32,
}

/// Why a broadcast was given up.
#[derive(Clone, Copy, Debug, PartialEq, Eq, Structural)]
pub enum BroadcastFailure {
    Reverted,
    ReceiptError,
    SendError,
    RetriesExhausted,
    GasPriceOverflow,
}

/// What the worker does after a send.
#[derive(Clone, Copy, Debug, PartialEq, Eq, Structural)]
pub enum BroadcastStep {
    /// The call is executed.
    Done,
    /// The call is given up.
    Failed(BroadcastFailure),
    /// Wait, then send again as this attempt says, under the same nonce.
    Retry(BroadcastAttempt),
}

/// What the worker does with an approved call that it was handed.
#[derive(Clone, Copy, Debug, PartialEq, Eq, Structural)]
pub enum WorkerStep {
    /// The gateway no longer holds the approval, so another relayer has
    /// used it: the call was marked executed and nothing is sent.
    MarkedExecuted,
    /// The call is not waiting any more; nothing is done.
    Skipped,
    /// The call was marked as being broadcast and is to be sent.
    Broadcast,
}

/// An approved call on its way to a worker: the row, and the position of
/// the chain whose mailbox takes it, if a chain serves the row's chain.
pub struct Dispatch {
    pub event: DbContractCallApprovedEvent,
    pub channel: Option<usize>,
}

/// The arguments of the gateway's approval query and of the `execute`
/// call, as bytes.
pub struct ExecuteCall {
    pub command_id: Vec<u8>,
    pub source_chain: String,
    pub source_address: String,
    pub contract_address: Vec<u8>,
    pub payload_hash: Vec<u8>,
    pub payload: Vec<u8>,
}

/// Which field of an approved call could not be read as bytes.
#[derive(Clone, Copy, Debug, PartialEq, Eq, Structural)]
pub enum CallError {
    CommandId,
    ContractAddress,
    PayloadHash,
    Payload,
}

/// A gas price raised by a fifth, rounded down.
pub open spec fn escalated(price: nat) -> nat {
    price * 12 / 10
}

/// A gas price raised by a fifth `n` times.
pub open spec fn escalated_times(price: nat, n: nat) -> nat
    decreases n,
{
    if n == 0 {
        price
    } else {
        escalated(escalated_times(price, (n - 1) as nat))
    }
}

impl SendOutcome {
    /// The outcomes after which the send is repeated at a higher price.
    pub open spec fn wants_retry(self) -> bool {
        self == SendOutcome::ReceiptMissing || self == SendOutcome::ReceiptTimeout || self
            == SendOutcome::AlreadyKnown || self == SendOutcome::SendTimeout
    }
}

/// The first attempt: half the current gas price, no repeats yet.
pub open spec fn first_attempt(current_gas_price: u128) -> BroadcastAttempt {
    BroadcastAttempt { gas_price: current_gas_price / 2, retries: 0 }
}

/// What follows a send made as `attempt` says and ended as `outcome` says.
pub open spec fn step_after(attempt: BroadcastAttempt, outcome: SendOutcome) -> BroadcastStep {
    match outcome {
        SendOutcome::Confirmed => BroadcastStep::Done,
        SendOutcome::Reverted => BroadcastStep::Failed(BroadcastFailure::Reverted),
        SendOutcome::ReceiptError => BroadcastStep::Failed(BroadcastFailure::ReceiptError),
        SendOutcome::SendError => BroadcastStep::Failed(BroadcastFailure::SendError),
        _ => if attempt.retries >= MAX_GAS_RETRIES {
            BroadcastStep::Failed(BroadcastFailure::RetriesExhausted)
        } else if escalated(attempt.gas_price as nat) > u128::MAX {
            BroadcastStep::Failed(BroadcastFailure::GasPriceOverflow)
        } else {
            BroadcastStep::Retry(
                BroadcastAttempt {
                    gas_price: escalated(attempt.gas_price as nat) as u128,
                    retries: (attempt.retries + 1) as u32,
                },
            )
        },
    }
}

/// What a run of sends comes to: the step after the first outcome that
/// ends the broadcast, or the attempt that is due after the last outcome.
pub open spec fn run_after(attempt: BroadcastAttempt, outcomes: Seq<SendOutcome>) -> BroadcastStep
    decreases outcomes.len(),
{
    if outcomes.len() == 0 {
        BroadcastStep::Retry(attempt)
    } else {
        match step_after(attempt, outcomes[0]) {
            BroadcastStep::Retry(next) => run_after(next, outcomes.skip(1)),
            ended => ended,
        }
    }
}

/// How a refused send is told apart: the node's message says that it
/// knows the transaction already, or it says something else.
pub open spec fn send_error_kind(message: Seq<char>) -> SendOutcome {
    if has_substring(message, "already known"@) {
        SendOutcome::AlreadyKnown
    } else {
        SendOutcome::SendError
    }
}

/// The bytes of a hexadecimal field that must have `len` bytes.
pub open spec fn fixed_bytes(text: Seq<char>, len: nat) -> Option<Seq<u8>> {
    match hex_decoded(text) {
        Some(bytes) => if bytes.len() == len {
            Some(bytes)
        } else {
            None
        },
        None => None,
    }
}

/// What the worker does with a call, given the status that the store
/// shows for it now and what the gateway says.
pub open spec fn step_for(status: Option<BroadcastStatus>, is_approved: bool) -> WorkerStep {
    if !is_approved {
        match status {
            Some(current) => if current.may_become(BroadcastStatus::Executed) {
                WorkerStep::MarkedExecuted
            } else {
                WorkerStep::Skipped
            },
            None => WorkerStep::Skipped,
        }
    } else if status == Some(BroadcastStatus::PendingBroadcast) {
        WorkerStep::Broadcast
    } else {
        WorkerStep::Skipped
    }
}

/// What the worker does with the call `id`, given what the gateway says.
pub open spec fn worker_step(s: StoreState, id: i32, is_approved: bool) -> WorkerStep {
    step_for(s.status_of(id), is_approved)
}

/// The store after the worker has dealt with the call `id`.
pub open spec fn worker_state(s: StoreState, id: i32, is_approved: bool) -> StoreState {
    match worker_step(s, id, is_approved) {
        WorkerStep::MarkedExecuted => s.set_status(id, s.status_of(id)->0, BroadcastStatus::Executed),
        WorkerStep::Broadcast => s.set_status(
            id,
            BroadcastStatus::PendingBroadcast,
            BroadcastStatus::Broadcasting,
        ),
        WorkerStep::Skipped => s,
    }
}

/// The status that ends a broadcast.
pub open spec fn final_status(succeeded: bool) -> BroadcastStatus {
    if succeeded {
        BroadcastStatus::Executed
    } else {
        BroadcastStatus::Failed
    }
}

/// The first attempt to send: half the current gas price.
pub fn initial_attempt(current_gas_price: u128) -> (r: BroadcastAttempt)
    ensures
        r == first_attempt(current_gas_price),
{
    BroadcastAttempt { gas_price: current_gas_price / 2, retries: 0 }
}

/// Tells a refused send that the node knows already from any other.
pub fn classify_send_error(message: &str) -> (r: SendOutcome)
    ensures
        r == send_error_kind(message@),
{
    if contains(message, "already known") {
        SendOutcome::AlreadyKnown
    } else {
        SendOutcome::SendError
    }
}

/// Decides what follows a send: done on a receipt with status 1; given up
/// on any other receipt and on errors; otherwise, while fewer than
/// `MAX_GAS_RETRIES` repeats were made, another send at a price raised by
/// a fifth.
pub fn next_step(attempt: BroadcastAttempt, outcome: SendOutcome) -> (r: BroadcastStep)
    ensures
        r == step_after(attempt, outcome),
{
    match outcome {
        SendOutcome::Confirmed => BroadcastStep::Done,
        SendOutcome::Reverted => BroadcastStep::Failed(BroadcastFailure::Reverted),
        SendOutcome::ReceiptError => BroadcastStep::Failed(BroadcastFailure::ReceiptError),
        SendOutcome::SendError => BroadcastStep::Failed(BroadcastFailure::SendError),
        _ => {
            if attempt.retries >= MAX_GAS_RETRIES {
                BroadcastStep::Failed(BroadcastFailure::RetriesExhausted)
            } else {
                match attempt.gas_price.checked_add(attempt.gas_price / 5) {
                    Some(price) => BroadcastStep::Retry(
                        BroadcastAttempt { gas_price: price, retries: attempt.retries + 1 },
                    ),
                    None => BroadcastStep::Failed(BroadcastFailure::GasPriceOverflow),
                }
            }
        },
    }
}

/// What a run of sends comes to, from the current gas price and the
/// outcomes of the sends in their order. Outcomes after the one that ends
/// the broadcast are not looked at.
pub fn broadcast_result(current_gas_price: u128, outcomes: &Vec<SendOutcome>) -> (r: BroadcastStep)
    ensures
        r == run_after(first_attempt(current_gas_price), outcomes@),
{
    let mut attempt = initial_attempt(current_gas_price);
    let mut i: usize = 0;
    assert(outcomes@.skip(0) =~= outcomes@);
    while i < outcomes.len()
        invariant
            i <= outcomes@.len(),
            run_after(first_attempt(current_gas_price), outcomes@) == run_after(
                attempt,
                outcomes@.skip(i as int),
            ),
        decreases outcomes@.len() - i,
    {
        proof {
            assert(outcomes@.skip(i as int).skip(1) =~= outcomes@.skip(i + 1));
        }
        match next_step(attempt, outcomes[i]) {
            BroadcastStep::Retry(next) => {
                attempt = next;
            },
            ended => {
                return ended;
            },
        }
        i += 1;
    }
    BroadcastStep::Retry(attempt)
}

/// Reads a hexadecimal field that must have `len` bytes.
fn read_fixed_bytes(text: &str, len: usize) -> (r: Option<Vec<u8>>)
    ensures
        opt_bytes(r) == fixed_bytes(text@, len as nat),
{
    match hex_decode(text) {
        Some(bytes) => {
            if bytes.len() == len {
                Some(bytes)
            } else {
                None
            }
        },
        None => None,
    }
}

/// The arguments with which the gateway is asked about an approved call
/// and with which the call is executed: the command and the payload hash
/// as 32 bytes, the contract address as 20 bytes, the payload as bytes.
pub fn execute_call(event: &DbContractCallApprovedEvent) -> (r: Result<ExecuteCall, CallError>)
    ensures
        match r {
            Ok(call) => {
                &&& fixed_bytes(event.command_id@, 32) == Some(call.command_id@)
                &&& fixed_bytes(event.contract_address@, 20) == Some(call.contract_address@)
                &&& fixed_bytes(event.payload_hash@, 32) == Some(call.payload_hash@)
                &&& hex_decoded(event.payload@) == Some(call.payload@)
                &&& call.source_chain@ == event.source_chain@
                &&& call.source_address@ == event.source_address@
            },
            Err(CallError::CommandId) => fixed_bytes(event.command_id@, 32) is None,
            Err(CallError::ContractAddress) => fixed_bytes(event.command_id@, 32) is Some
                && fixed_bytes(event.contract_address@, 20) is None,
            Err(CallError::PayloadHash) => fixed_bytes(event.command_id@, 32) is Some
                && fixed_bytes(event.contract_address@, 20) is Some && fixed_bytes(
                event.payload_hash@,
                32,
            ) is None,
            Err(CallError::Payload) => fixed_bytes(event.command_id@, 32) is Some && fixed_bytes(
                event.contract_address@,
                20,
            ) is Some && fixed_bytes(event.payload_hash@, 32) is Some && hex_decoded(
                event.payload@,
            ) is None,
        },
{
    let command_id = match read_fixed_bytes(event.command_id.as_str(), 32) {
        Some(b) => b,
        None => {
            return Err(CallError::CommandId);
        },
    };
    let contract_address = match read_fixed_bytes(event.contract_address.as_str(), 20) {
        Some(b) => b,
        None => {
            return Err(CallError::ContractAddress);
        },
    };
    let payload_hash = match read_fixed_bytes(event.payload_hash.as_str(), 32) {
        Some(b) => b,
        None => {
            return Err(CallError::PayloadHash);
        },
    };
    let payload = match hex_decode(event.payload.as_str()) {
        Some(b) => b,
        None => {
            return Err(CallError::Payload);
        },
    };
    Ok(
        ExecuteCall {
            command_id,
            source_chain: event.source_chain.clone(),
            source_address: event.source_address.clone(),
            contract_address,
            payload_hash,
            payload,
        },
    )
}

/// The approved calls that wait for their broadcast, each with the
/// mailbox of the chain that serves it.
pub fn queue_new_events_for_broadcast(store: &EventStore, chains: &Vec<Chain>) -> (r: Vec<Dispatch>)
    ensures
        r@.len() == waiting_rows(store@.approved_calls).len(),
        forall|i: int|
            0 <= i < r@.len() ==> (#[trigger] r@[i]).event@ == waiting_rows(
                store@.approved_calls,
            )[i] && match r@[i].channel {
                Some(c) => chain_index(chains@, r@[i].event.blockchain@) == Some(c as int),
                None => chain_index(chains@, r@[i].event.blockchain@) is None,
            },
{
    let events = store.get_pending_broadcast_events();
    let ghost waiting = waiting_rows(store@.approved_calls);
    let mut out: Vec<Dispatch> = Vec::new();
    let mut i: usize = 0;
    while i < events.len()
        invariant
            i <= events@.len(),
            approved_views(events@) == waiting,
            out@.len() == i,
            forall|k: int|
                0 <= k < i ==> (#[trigger] out@[k]).event@ == waiting[k] && match out@[k].channel {
                    Some(c) => chain_index(chains@, out@[k].event.blockchain@) == Some(c as int),
                    None => chain_index(chains@, out@[k].event.blockchain@) is None,
                },
        decreases events@.len() - i,
    {
        let event = events[i].clone();
        assert(event@ == approved_views(events@)[i as int]);
        let channel = find_chain(chains, event.blockchain.as_str());
        out.push(Dispatch { event, channel });
        i += 1;
    }
    out
}

/// Decides the worker's first step with an approved call from the status
/// that the store shows for it now. `MarkedExecuted` asks for the step
/// from that status to executed, `Broadcast` for the step from pending to
/// broadcasting.
pub fn worker_decision(status: Option<BroadcastStatus>, is_approved: bool) -> (r: WorkerStep)
    ensures
        r == step_for(status, is_approved),
{
    if !is_approved {
        match status {
            Some(current) => {
                if current.can_become(BroadcastStatus::Executed) {
                    WorkerStep::MarkedExecuted
                } else {
                    WorkerStep::Skipped
                }
            },
            None => WorkerStep::Skipped,
        }
    } else {
        match status {
            Some(BroadcastStatus::PendingBroadcast) => WorkerStep::Broadcast,
            _ => WorkerStep::Skipped,
        }
    }
}

/// The worker's first step with an approved call. If the gateway no
/// longer holds the approval the call is marked executed. Otherwise the
/// store is read again: a call that still waits is marked as being
/// broadcast, any other is left alone.
pub fn begin_broadcast(store: &mut EventStore, id: i32, is_approved: bool) -> (r: WorkerStep)
    requires
        old(store)@.wf(),
    ensures
        r == worker_step(old(store)@, id, is_approved),
        final(store)@ == worker_state(old(store)@, id, is_approved),
        final(store)@.wf(),
{
    let current = store.get_broadcast_status(id);
    let step = worker_decision(current, is_approved);
    match step {
        WorkerStep::MarkedExecuted => {
            match current {
                Some(status) => {
                    store.update_broadcast_status(id, status, BroadcastStatus::Executed);
                },
                None => {},
            }
        },
        WorkerStep::Broadcast => {
            store.update_broadcast_status(
                id,
                BroadcastStatus::PendingBroadcast,
                BroadcastStatus::Broadcasting,
            );
        },
        WorkerStep::Skipped => {},
    }
    step
}

/// The worker's last step: a call that is being broadcast becomes
/// executed if the broadcast succeeded and failed if it was given up.
pub fn finish_broadcast(store: &mut EventStore, id: i32, succeeded: bool) -> (r: StatusChange)
    requires
        old(store)@.wf(),
    ensures
        r == (if old(store)@.status_of(id) == Some(BroadcastStatus::Broadcasting) {
            StatusChange::Applied
        } else {
            StatusChange::NotApplicable
        }),
        final(store)@ == old(store)@.set_status(
            id,
            BroadcastStatus::Broadcasting,
            final_status(succeeded),
        ),
        final(store)@.wf(),
{
    let next = if succeeded {
        BroadcastStatus::Executed
    } else {
        BroadcastStatus::Failed
    };
    store.update_broadcast_status(id, BroadcastStatus::Broadcasting, next)
}

/// A price raised by a fifth is at most twelve tenths of the price and
/// less than one below that.
pub proof fn lemma_escalated(price: nat)
    ensures
        10 * escalated(price) <= 12 * price,
        10 * escalated(price) + 9 >= 12 * price,
        price % 10 == 0 ==> escalated(price) == price / 10 * 12,
{
}

/// Raising a price by a fifth five times gives at most the price times
/// (12/10)^5 and less than seven below it; a price that is a multiple of
/// 100000 gives exactly that.
pub proof fn lemma_five_escalations(price: nat)
    ensures
        escalated_times(price, 5) * 100000 <= price * 248832,
        escalated_times(price, 5) * 100000 + 669744 >= price * 248832,
        price % 100000 == 0 ==> escalated_times(price, 5) == price / 100000 * 248832,
{
    let x1 = escalated_times(price, 1);
    let x2 = escalated_times(price, 2);
    let x3 = escalated_times(price, 3);
    let x4 = escalated_times(price, 4);
    let x5 = escalated_times(price, 5);
    assert(escalated_times(price, 0) == price);
    assert(x1 == escalated(price));
    assert(x2 == escalated(x1));
    assert(x3 == escalated(x2));
    assert(x4 == escalated(x3));
    assert(x5 == escalated(x4));
    lemma_escalated(price);
    lemma_escalated(x1);
    lemma_escalated(x2);
    lemma_escalated(x3);
    lemma_escalated(x4);
    if price % 100000 == 0 {
        let k = price / 100000;
        assert(price == k * 100000);
        assert(x1 == k * 120000);
        assert(x2 == k * 144000);
        assert(x3 == k * 172800);
        assert(x4 == k * 207360);
        assert(x5 == k * 248832);
    }
}

/// After five sends that each ask for a repeat, the sixth send is due at
/// the first price raised by a fifth five times; if it asks for a repeat
/// too, the broadcast is given up.
pub proof fn lemma_five_retries(attempt: BroadcastAttempt, outcomes: Seq<SendOutcome>, sixth: SendOutcome)
    requires
        attempt.retries == 0,
        outcomes.len() == 5,
        forall|i: int| 0 <= i < 5 ==> outcomes[i].wants_retry(),
        escalated_times(attempt.gas_price as nat, 5) <= u128::MAX,
        sixth.wants_retry(),
    ensures
        run_after(attempt, outcomes) == BroadcastStep::Retry(
            BroadcastAttempt {
                gas_price: escalated_times(attempt.gas_price as nat, 5) as u128,
                retries: 5,
            },
        ),
        run_after(attempt, outcomes.push(sixth)) == BroadcastStep::Failed(
            BroadcastFailure::RetriesExhausted,
        ),
{
    reveal_with_fuel(escalated_times, 6);
    reveal_with_fuel(run_after, 8);
    let p0 = attempt.gas_price as nat;
    assert(escalated_times(p0, 1) <= escalated_times(p0, 5));
    assert(escalated_times(p0, 2) <= escalated_times(p0, 5));
    assert(escalated_times(p0, 3) <= escalated_times(p0, 5));
    assert(escalated_times(p0, 4) <= escalated_times(p0, 5));
    let o1 = outcomes.skip(1);
    let o2 = o1.skip(1);
    let o3 = o2.skip(1);
    let o4 = o3.skip(1);
    let o5 = o4.skip(1);
    assert(o1[0] == outcomes[1] && o2[0] == outcomes[2] && o3[0] == outcomes[3] && o4[0]
        == outcomes[4]);
    assert(o5.len() == 0);
    let w = outcomes.push(sixth);
    let w1 = w.skip(1);
    let w2 = w1.skip(1);
    let w3 = w2.skip(1);
    let w4 = w3.skip(1);
    let w5 = w4.skip(1);
    let w6 = w5.skip(1);
    assert(w[0] == outcomes[0] && w1[0] == outcomes[1] && w2[0] == outcomes[2] && w3[0]
        == outcomes[3] && w4[0] == outcomes[4] && w5[0] == sixth);
    assert(w6.len() == 0);
}

/// A call that another worker has taken is skipped: when the store no
/// longer shows the call as waiting and the gateway still holds the
/// approval, the worker leaves the store as it is.
pub proof fn lemma_stale_call_is_skipped(s: StoreState, id: i32)
    requires
        s.status_of(id) != Some(BroadcastStatus::PendingBroadcast),
    ensures
        worker_step(s, id, true) == WorkerStep::Skipped,
        worker_state(s, id, true) == s,
{
}

/// Of two workers that were handed the same waiting call, the first takes
/// it and the second skips it.
pub proof fn lemma_second_worker_skips(s: StoreState, id: i32)
    requires
        s.wf(),
        s.status_of(id) == Some(BroadcastStatus::PendingBroadcast),
    ensures
        worker_step(s, id, true) == WorkerStep::Broadcast,
        worker_step(worker_state(s, id, true), id, true) == WorkerStep::Skipped,
        worker_state(worker_state(s, id, true), id, true) == worker_state(s, id, true),
{
    crate::db::store::lemma_taken_call_is_not_taken_again(s, id);
}

} // verus!
