//! The event store: the three tables of in-flight state, what each
//! operation does to them, and the invariants that every operation keeps.

use crate::db::{
    ApprovedCallView, AxelarCallView, BroadcastStatus, DbAxelarCallContractEvent,
    DbContractCallApprovedEvent, DbPendingActionEvent, PendingActionView,
};
use crate::text::str_equal;
use crate::util::datetime::Timestamp;
use vstd::prelude::*;

verus! {

/// The tables of in-flight state, in memory. The fields are private: a
/// store is made by `new` and changed by the functions of this module
/// only, each of which keeps the invariants `StoreState::wf`.
pub struct EventStore {
    pending_actions: Vec<DbPendingActionEvent>,
    axelar_calls: Vec<DbAxelarCallContractEvent>,
    approved_calls: Vec<DbContractCallApprovedEvent>,
    next_pending_id: i32,
    next_axelar_id: i32,
    next_approved_id: i32,
}

/// The mathematical value of the store: its rows in the order of their
/// insertion, and the identifier that the next row of each table gets.
pub ghost struct StoreState {
    pub pending_actions: Seq<PendingActionView>,
    pub axelar_calls: Seq<AxelarCallView>,
    pub approved_calls: Seq<ApprovedCallView>,
    pub next_pending_id: i32,
    pub next_axelar_id: i32,
    pub next_approved_id: i32,
}

/// What became of a row that was handed to the store.
#[derive(Clone, Copy, Debug, PartialEq, Eq, Structural)]
pub enum SaveOutcome {
    /// The row was added.
    Saved,
    /// A row with the same key is there already; nothing changed.
    Duplicate,
    /// The row breaks an invariant of its table, or the table has run out
    /// of identifiers; nothing changed.
    Rejected,
}

/// What became of a change of status.
#[derive(Clone, Copy, Debug, PartialEq, Eq, Structural)]
pub enum StatusChange {
    /// The row now has the new status.
    Applied,
    /// The row is missing, its status is not the expected one, or the step
    /// would not move the status forward; nothing changed.
    NotApplicable,
}

pub open spec fn pending_views(rows: Seq<DbPendingActionEvent>) -> Seq<PendingActionView> {
    Seq::new(rows.len(), |i: int| rows[i]@)
}

pub open spec fn axelar_views(rows: Seq<DbAxelarCallContractEvent>) -> Seq<AxelarCallView> {
    Seq::new(rows.len(), |i: int| rows[i]@)
}

pub open spec fn approved_views(rows: Seq<DbContractCallApprovedEvent>) -> Seq<ApprovedCallView> {
    Seq::new(rows.len(), |i: int| rows[i]@)
}

pub open spec fn opt_pending(r: Option<DbPendingActionEvent>) -> Option<PendingActionView> {
    match r {
        Some(v) => Some(v@),
        None => None,
    }
}

pub open spec fn opt_axelar(r: Option<DbAxelarCallContractEvent>) -> Option<AxelarCallView> {
    match r {
        Some(v) => Some(v@),
        None => None,
    }
}

pub open spec fn opt_approved(r: Option<DbContractCallApprovedEvent>) -> Option<ApprovedCallView> {
    match r {
        Some(v) => Some(v@),
        None => None,
    }
}

/// A pending action may still be retried: it has attempts left and the
/// clock has not reached its expiry time.
pub open spec fn is_retriable(row: PendingActionView, max_retries: i32, now: Timestamp) -> bool {
    row.retry_count < max_retries && now.before(row.relay_details.expiry_block_time)
}

/// A pending action has expired: the clock has reached its expiry time.
pub open spec fn is_expired(row: PendingActionView, now: Timestamp) -> bool {
    row.relay_details.expiry_block_time.at_or_before(now)
}

/// The rows that may still be retried, in their order.
pub open spec fn retriable_rows(rows: Seq<PendingActionView>, max_retries: i32, now: Timestamp) -> Seq<
    PendingActionView,
>
    decreases rows.len(),
{
    if rows.len() == 0 {
        Seq::empty()
    } else {
        let head = retriable_rows(rows.drop_last(), max_retries, now);
        if is_retriable(rows.last(), max_retries, now) {
            head.push(rows.last())
        } else {
            head
        }
    }
}

/// The rows that have expired, in their order.
pub open spec fn expired_rows(rows: Seq<PendingActionView>, now: Timestamp) -> Seq<
    PendingActionView,
>
    decreases rows.len(),
{
    if rows.len() == 0 {
        Seq::empty()
    } else {
        let head = expired_rows(rows.drop_last(), now);
        if is_expired(rows.last(), now) {
            head.push(rows.last())
        } else {
            head
        }
    }
}

/// The rows whose nonce is none of `nonces`, in their order.
pub open spec fn rows_without(rows: Seq<PendingActionView>, nonces: Seq<i64>) -> Seq<
    PendingActionView,
>
    decreases rows.len(),
{
    if rows.len() == 0 {
        Seq::empty()
    } else {
        let head = rows_without(rows.drop_last(), nonces);
        if nonces.contains(rows.last().nonce) {
            head
        } else {
            head.push(rows.last())
        }
    }
}

/// The approved calls that wait for their broadcast, in their order.
pub open spec fn waiting_rows(rows: Seq<ApprovedCallView>) -> Seq<ApprovedCallView>
    decreases rows.len(),
{
    if rows.len() == 0 {
        Seq::empty()
    } else {
        let head = waiting_rows(rows.drop_last());
        if rows.last().broadcast_status == BroadcastStatus::PendingBroadcast {
            head.push(rows.last())
        } else {
            head
        }
    }
}

/// The row with one more attempt on its count, which stops at the largest
/// number that the count can hold.
pub open spec fn bumped(row: PendingActionView) -> PendingActionView {
    PendingActionView {
        retry_count: if row.retry_count < i32::MAX {
            (row.retry_count + 1) as i32
        } else {
            row.retry_count
        },
        ..row
    }
}

impl StoreState {
    pub open spec fn has_pending(self, nonce: i64) -> bool {
        exists|i: int| 0 <= i < self.pending_actions.len() && self.pending_actions[i].nonce == nonce
    }

    /// The pending action with the given nonce.
    pub open spec fn pending_by_nonce(self, nonce: i64) -> Option<PendingActionView> {
        if self.has_pending(nonce) {
            Some(
                self.pending_actions[choose|i: int|
                    0 <= i < self.pending_actions.len() && self.pending_actions[i].nonce == nonce],
            )
        } else {
            None
        }
    }

    pub open spec fn has_axelar_call(self, payload_hash: Seq<char>) -> bool {
        exists|i: int|
            0 <= i < self.axelar_calls.len() && self.axelar_calls[i].payload_hash == payload_hash
    }

    /// The payload with the given hash.
    pub open spec fn axelar_call_by_hash(self, payload_hash: Seq<char>) -> Option<AxelarCallView> {
        if self.has_axelar_call(payload_hash) {
            Some(
                self.axelar_calls[choose|i: int|
                    0 <= i < self.axelar_calls.len() && self.axelar_calls[i].payload_hash
                        == payload_hash],
            )
        } else {
            None
        }
    }

    pub open spec fn has_approved_call(self, blockchain: Seq<char>, command_id: Seq<char>) -> bool {
        exists|i: int|
            0 <= i < self.approved_calls.len() && self.approved_calls[i].blockchain == blockchain
                && self.approved_calls[i].command_id == command_id
    }

    pub open spec fn has_approved_id(self, id: i32) -> bool {
        exists|i: int| 0 <= i < self.approved_calls.len() && self.approved_calls[i].id == id
    }

    /// The approved call with the given identifier.
    pub open spec fn approved_by_id(self, id: i32) -> Option<ApprovedCallView> {
        if self.has_approved_id(id) {
            Some(
                self.approved_calls[choose|i: int|
                    0 <= i < self.approved_calls.len() && self.approved_calls[i].id == id],
            )
        } else {
            None
        }
    }

    /// The status of the approved call with the given identifier.
    pub open spec fn status_of(self, id: i32) -> Option<BroadcastStatus> {
        match self.approved_by_id(id) {
            Some(row) => Some(row.broadcast_status),
            None => None,
        }
    }

    /// The invariants of the store: no nonce, payload hash, approved
    /// command or approved identifier occurs twice; no count of attempts is
    /// negative; every payload hash is the digest of its payload.
    pub open spec fn wf(self) -> bool {
        &&& forall|i: int, j: int|
            0 <= i < j < self.pending_actions.len() ==> self.pending_actions[i].nonce
                != self.pending_actions[j].nonce
        &&& forall|i: int|
            0 <= i < self.pending_actions.len() ==> (#[trigger] self.pending_actions[i]).retry_count
                >= 0
        &&& forall|i: int, j: int|
            0 <= i < j < self.axelar_calls.len() ==> self.axelar_calls[i].payload_hash
                != self.axelar_calls[j].payload_hash
        &&& forall|i: int|
            0 <= i < self.axelar_calls.len() ==> (#[trigger] self.axelar_calls[i]).hash_matches()
        &&& forall|i: int, j: int|
            0 <= i < j < self.approved_calls.len() ==> !(self.approved_calls[i].blockchain
                == self.approved_calls[j].blockchain && self.approved_calls[i].command_id
                == self.approved_calls[j].command_id)
        &&& forall|i: int, j: int|
            0 <= i < j < self.approved_calls.len() ==> self.approved_calls[i].id
                != self.approved_calls[j].id
        &&& forall|i: int|
            0 <= i < self.approved_calls.len() ==> (#[trigger] self.approved_calls[i]).id
                < self.next_approved_id
    }

    /// The store with no rows.
    pub open spec fn empty() -> StoreState {
        StoreState {
            pending_actions: Seq::empty(),
            axelar_calls: Seq::empty(),
            approved_calls: Seq::empty(),
            next_pending_id: 1,
            next_axelar_id: 1,
            next_approved_id: 1,
        }
    }

    /// What saving a pending action comes to.
    pub open spec fn pending_outcome(self, row: PendingActionView) -> SaveOutcome {
        if self.has_pending(row.nonce) {
            SaveOutcome::Duplicate
        } else if row.retry_count < 0 || self.next_pending_id == i32::MAX {
            SaveOutcome::Rejected
        } else {
            SaveOutcome::Saved
        }
    }

    /// The store after a pending action was handed to it: the row is added
    /// under a fresh identifier unless its nonce is there already.
    pub open spec fn save_pending(self, row: PendingActionView) -> StoreState {
        if self.pending_outcome(row) == SaveOutcome::Saved {
            StoreState {
                pending_actions: self.pending_actions.push(
                    PendingActionView { id: self.next_pending_id, ..row },
                ),
                next_pending_id: (self.next_pending_id + 1) as i32,
                ..self
            }
        } else {
            self
        }
    }

    /// The store without the pending actions that have one of `nonces`.
    pub open spec fn delete_pending(self, nonces: Seq<i64>) -> StoreState {
        StoreState { pending_actions: rows_without(self.pending_actions, nonces), ..self }
    }

    /// The store after one more attempt was counted for `nonce`.
    pub open spec fn bump_retry(self, nonce: i64) -> StoreState {
        StoreState {
            pending_actions: Seq::new(
                self.pending_actions.len(),
                |i: int|
                    if self.pending_actions[i].nonce == nonce {
                        bumped(self.pending_actions[i])
                    } else {
                        self.pending_actions[i]
                    },
            ),
            ..self
        }
    }

    /// What saving a payload comes to.
    pub open spec fn axelar_outcome(self, row: AxelarCallView) -> SaveOutcome {
        if self.has_axelar_call(row.payload_hash) {
            SaveOutcome::Duplicate
        } else if !row.hash_matches() || self.next_axelar_id == i32::MAX {
            SaveOutcome::Rejected
        } else {
            SaveOutcome::Saved
        }
    }

    /// The store after a payload was handed to it: the row is added under a
    /// fresh identifier unless its hash is there already.
    pub open spec fn save_axelar(self, row: AxelarCallView) -> StoreState {
        if self.axelar_outcome(row) == SaveOutcome::Saved {
            StoreState {
                axelar_calls: self.axelar_calls.push(AxelarCallView { id: self.next_axelar_id, ..row }),
                next_axelar_id: (self.next_axelar_id + 1) as i32,
                ..self
            }
        } else {
            self
        }
    }

    /// What saving an approved call comes to.
    pub open spec fn approved_outcome(self, row: ApprovedCallView) -> SaveOutcome {
        if self.has_approved_call(row.blockchain, row.command_id) {
            SaveOutcome::Duplicate
        } else if self.next_approved_id == i32::MAX {
            SaveOutcome::Rejected
        } else {
            SaveOutcome::Saved
        }
    }

    /// The store after an approved call was handed to it: the row is added
    /// under a fresh identifier, waiting for its broadcast, unless its chain
    /// and command are there already.
    pub open spec fn save_approved(self, row: ApprovedCallView) -> StoreState {
        if self.approved_outcome(row) == SaveOutcome::Saved {
            StoreState {
                approved_calls: self.approved_calls.push(
                    ApprovedCallView {
                        id: self.next_approved_id,
                        broadcast_status: BroadcastStatus::PendingBroadcast,
                        ..row
                    },
                ),
                next_approved_id: (self.next_approved_id + 1) as i32,
                ..self
            }
        } else {
            self
        }
    }

    /// Whether a change of status applies: the row is there, has the
    /// expected status, and the step moves the status forward.
    pub open spec fn status_change_applies(
        self,
        id: i32,
        expected: BroadcastStatus,
        next: BroadcastStatus,
    ) -> bool {
        self.status_of(id) == Some(expected) && expected.may_become(next)
    }

    /// The store after a change of status was asked for.
    pub open spec fn set_status(self, id: i32, expected: BroadcastStatus, next: BroadcastStatus) -> StoreState {
        if self.status_change_applies(id, expected, next) {
            StoreState {
                approved_calls: Seq::new(
                    self.approved_calls.len(),
                    |i: int|
                        if self.approved_calls[i].id == id {
                            ApprovedCallView { broadcast_status: next, ..self.approved_calls[i] }
                        } else {
                            self.approved_calls[i]
                        },
                ),
                ..self
            }
        } else {
            self
        }
    }
}

impl View for EventStore {
    type V = StoreState;

    closed spec fn view(&self) -> StoreState {
        StoreState {
            pending_actions: pending_views(self.pending_actions@),
            axelar_calls: axelar_views(self.axelar_calls@),
            approved_calls: approved_views(self.approved_calls@),
            next_pending_id: self.next_pending_id,
            next_axelar_id: self.next_axelar_id,
            next_approved_id: self.next_approved_id,
        }
    }
}

/// Dropping the last row of a table drops the last view.
proof fn lemma_retriable_step(rows: Seq<PendingActionView>, max_retries: i32, now: Timestamp, i: int)
    requires
        0 <= i < rows.len(),
    ensures
        retriable_rows(rows.take(i + 1), max_retries, now) == if is_retriable(
            rows[i],
            max_retries,
            now,
        ) {
            retriable_rows(rows.take(i), max_retries, now).push(rows[i])
        } else {
            retriable_rows(rows.take(i), max_retries, now)
        },
{
    assert(rows.take(i + 1).drop_last() =~= rows.take(i));
}

proof fn lemma_expired_step(rows: Seq<PendingActionView>, now: Timestamp, i: int)
    requires
        0 <= i < rows.len(),
    ensures
        expired_rows(rows.take(i + 1), now) == if is_expired(rows[i], now) {
            expired_rows(rows.take(i), now).push(rows[i])
        } else {
            expired_rows(rows.take(i), now)
        },
{
    assert(rows.take(i + 1).drop_last() =~= rows.take(i));
}

proof fn lemma_without_step(rows: Seq<PendingActionView>, nonces: Seq<i64>, i: int)
    requires
        0 <= i < rows.len(),
    ensures
        rows_without(rows.take(i + 1), nonces) == if nonces.contains(rows[i].nonce) {
            rows_without(rows.take(i), nonces)
        } else {
            rows_without(rows.take(i), nonces).push(rows[i])
        },
{
    assert(rows.take(i + 1).drop_last() =~= rows.take(i));
}

proof fn lemma_waiting_step(rows: Seq<ApprovedCallView>, i: int)
    requires
        0 <= i < rows.len(),
    ensures
        waiting_rows(rows.take(i + 1)) == if rows[i].broadcast_status
            == BroadcastStatus::PendingBroadcast {
            waiting_rows(rows.take(i)).push(rows[i])
        } else {
            waiting_rows(rows.take(i))
        },
{
    assert(rows.take(i + 1).drop_last() =~= rows.take(i));
}

/// No nonce occurs twice among the rows.
pub open spec fn distinct_nonces(rows: Seq<PendingActionView>) -> bool {
    forall|i: int, j: int| 0 <= i < j < rows.len() ==> rows[i].nonce != rows[j].nonce
}

/// Every row that is left after a deletion was there before and has none
/// of the deleted nonces.
pub proof fn lemma_rows_without_subset(rows: Seq<PendingActionView>, nonces: Seq<i64>, k: int)
    requires
        0 <= k < rows_without(rows, nonces).len(),
    ensures
        rows.contains(rows_without(rows, nonces)[k]),
        !nonces.contains(rows_without(rows, nonces)[k].nonce),
    decreases rows.len(),
{
    if rows.len() > 0 {
        let head_rows = rows.drop_last();
        let head = rows_without(head_rows, nonces);
        if k < head.len() {
            lemma_rows_without_subset(head_rows, nonces, k);
            let i = choose|i: int| 0 <= i < head_rows.len() && head_rows[i] == head[k];
            assert(rows[i] == head[k]);
        } else {
            assert(rows[rows.len() - 1] == rows_without(rows, nonces)[k]);
        }
    }
}

/// Every row that has none of the deleted nonces is left after a deletion.
pub proof fn lemma_rows_without_keeps(rows: Seq<PendingActionView>, nonces: Seq<i64>, i: int)
    requires
        0 <= i < rows.len(),
        !nonces.contains(rows[i].nonce),
    ensures
        rows_without(rows, nonces).contains(rows[i]),
    decreases rows.len(),
{
    let head_rows = rows.drop_last();
    let head = rows_without(head_rows, nonces);
    let out = rows_without(rows, nonces);
    if i < rows.len() - 1 {
        lemma_rows_without_keeps(head_rows, nonces, i);
        let k = choose|k: int| 0 <= k < head.len() && head[k] == head_rows[i];
        assert(out[k] == rows[i]);
    } else {
        assert(out[out.len() - 1] == rows[i]);
    }
}

/// A deletion leaves no nonce twice where none was twice before.
pub proof fn lemma_rows_without_distinct(rows: Seq<PendingActionView>, nonces: Seq<i64>)
    requires
        distinct_nonces(rows),
    ensures
        distinct_nonces(rows_without(rows, nonces)),
    decreases rows.len(),
{
    if rows.len() > 0 {
        let head_rows = rows.drop_last();
        let head = rows_without(head_rows, nonces);
        let out = rows_without(rows, nonces);
        assert(distinct_nonces(head_rows)) by {
            assert forall|i: int, j: int| 0 <= i < j < head_rows.len() implies head_rows[i].nonce
                != head_rows[j].nonce by {
                assert(head_rows[i] == rows[i] && head_rows[j] == rows[j]);
            }
        }
        lemma_rows_without_distinct(head_rows, nonces);
        assert forall|a: int, b: int| 0 <= a < b < out.len() implies out[a].nonce
            != out[b].nonce by {
            if b < head.len() {
                assert(out[a] == head[a] && out[b] == head[b]);
            } else {
                lemma_rows_without_subset(head_rows, nonces, a);
                let i = choose|i: int| 0 <= i < head_rows.len() && head_rows[i] == head[a];
                assert(rows[i] == out[a]);
                assert(rows[rows.len() - 1] == out[b]);
            }
        }
    }
}

impl EventStore {
    /// A store with no rows.
    pub fn new() -> (r: EventStore)
        ensures
            r@ == StoreState::empty(),
            r@.wf(),
    {
        let r = EventStore {
            pending_actions: Vec::new(),
            axelar_calls: Vec::new(),
            approved_calls: Vec::new(),
            next_pending_id: 1,
            next_axelar_id: 1,
            next_approved_id: 1,
        };
        assert(r@.pending_actions =~= Seq::empty());
        assert(r@.axelar_calls =~= Seq::empty());
        assert(r@.approved_calls =~= Seq::empty());
        r
    }

    /// Position of the pending action with the given nonce.
    fn find_pending(&self, nonce: i64) -> (r: Option<usize>)
        ensures
            match r {
                Some(i) => i < self.pending_actions@.len() && self.pending_actions@[i as int].nonce
                    == nonce,
                None => !self@.has_pending(nonce),
            },
    {
        let mut i: usize = 0;
        while i < self.pending_actions.len()
            invariant
                i <= self.pending_actions@.len(),
                forall|j: int| 0 <= j < i ==> self.pending_actions@[j].nonce != nonce,
            decreases self.pending_actions@.len() - i,
        {
            if self.pending_actions[i].nonce == nonce {
                return Some(i);
            }
            i += 1;
        }
        assert(!self@.has_pending(nonce)) by {
            assert forall|j: int| 0 <= j < self@.pending_actions.len() implies self@.pending_actions[j].nonce
                != nonce by {
                assert(self@.pending_actions[j] == self.pending_actions@[j]@);
            }
        }
        None
    }

    /// Adds a pending action unless its nonce is in the store already. A
    /// new row gets a fresh identifier; a row with a negative count of
    /// attempts is refused.
    pub fn save_bridge_pending_action_event(&mut self, event: &DbPendingActionEvent) -> (r:
        SaveOutcome)
        requires
            old(self)@.wf(),
        ensures
            r == old(self)@.pending_outcome(event@),
            final(self)@ == old(self)@.save_pending(event@),
            final(self)@.wf(),
    {
        match self.find_pending(event.nonce) {
            Some(i) => {
                assert(self@.has_pending(event.nonce)) by {
                    assert(self@.pending_actions[i as int].nonce == event.nonce);
                }
                SaveOutcome::Duplicate
            },
            None => {
                if event.retry_count < 0 || self.next_pending_id == i32::MAX {
                    return SaveOutcome::Rejected;
                }
                let mut row = event.clone();
                row.id = self.next_pending_id;
                let ghost before = self@;
                self.next_pending_id = self.next_pending_id + 1;
                self.pending_actions.push(row);
                proof {
                    let added = PendingActionView { id: before.next_pending_id, ..event@ };
                    assert(self@.pending_actions =~= before.pending_actions.push(added));
                    assert(self@.axelar_calls =~= before.axelar_calls);
                    assert(self@.approved_calls =~= before.approved_calls);
                    assert forall|a: int, b: int|
                        0 <= a < b < self@.pending_actions.len() implies self@.pending_actions[a].nonce
                        != self@.pending_actions[b].nonce by {
                        if b == before.pending_actions.len() {
                            assert(before.pending_actions[a].nonce != event.nonce);
                        }
                    }
                }
                SaveOutcome::Saved
            },
        }
    }

    /// Removes the pending actions that have one of `nonces`.
    pub fn delete_bridge_pending_action_events(&mut self, nonces: &Vec<i64>)
        requires
            old(self)@.wf(),
        ensures
            final(self)@ == old(self)@.delete_pending(nonces@),
            final(self)@.wf(),
    {
        let ghost before = self@;
        let mut kept: Vec<DbPendingActionEvent> = Vec::new();
        let mut i: usize = 0;
        while i < self.pending_actions.len()
            invariant
                i <= self.pending_actions@.len(),
                self@ == before,
                pending_views(kept@) == rows_without(before.pending_actions.take(i as int), nonces@),
            decreases self.pending_actions@.len() - i,
        {
            proof {
                lemma_without_step(before.pending_actions, nonces@, i as int);
            }
            if !contains_nonce(nonces, self.pending_actions[i].nonce) {
                let ghost old_kept = pending_views(kept@);
                kept.push(self.pending_actions[i].clone());
                assert(pending_views(kept@) =~= old_kept.push(before.pending_actions[i as int]));
            }
            i += 1;
        }
        proof {
            assert(before.pending_actions.take(i as int) =~= before.pending_actions);
            lemma_rows_without_distinct(before.pending_actions, nonces@);
            assert forall|k: int|
                0 <= k < rows_without(before.pending_actions, nonces@).len() implies (
            #[trigger] rows_without(before.pending_actions, nonces@)[k]).retry_count >= 0 by {
                lemma_rows_without_subset(before.pending_actions, nonces@, k);
            }
        }
        self.pending_actions = kept;
        proof {
            assert(self@.axelar_calls =~= before.axelar_calls);
            assert(self@.approved_calls =~= before.approved_calls);
        }
    }

    /// Removes the pending action with the given nonce, if there is one.
    pub fn delete_bridge_pending_action_event(&mut self, nonce: i64)
        requires
            old(self)@.wf(),
        ensures
            final(self)@ == old(self)@.delete_pending(seq![nonce]),
            final(self)@.wf(),
    {
        let mut nonces: Vec<i64> = Vec::new();
        nonces.push(nonce);
        assert(nonces@ =~= seq![nonce]);
        self.delete_bridge_pending_action_events(&nonces);
    }

    /// Counts one more attempt to start the relay of `nonce`. The count
    /// stops at the largest number it can hold.
    pub fn add_bridge_pending_action_event_retry_count(&mut self, nonce: i64)
        requires
            old(self)@.wf(),
        ensures
            final(self)@ == old(self)@.bump_retry(nonce),
            final(self)@.wf(),
    {
        let ghost before = self@;
        match self.find_pending(nonce) {
            Some(i) => {
                let mut row = self.pending_actions.remove(i);
                if row.retry_count < i32::MAX {
                    row.retry_count = row.retry_count + 1;
                }
                self.pending_actions.insert(i, row);
                proof {
                    let after = before.bump_retry(nonce);
                    assert forall|k: int| 0 <= k < before.pending_actions.len() implies self@.pending_actions[k]
                        == after.pending_actions[k] by {
                        if k != i {
                            assert(before.pending_actions[k].nonce != before.pending_actions[i as int].nonce);
                        }
                    }
                    assert(self@.pending_actions =~= after.pending_actions);
                    assert(self@.axelar_calls =~= before.axelar_calls);
                    assert(self@.approved_calls =~= before.approved_calls);
                }
            },
            None => {
                proof {
                    let after = before.bump_retry(nonce);
                    assert forall|k: int| 0 <= k < before.pending_actions.len() implies before.pending_actions[k]
                        == after.pending_actions[k] by {
                        assert(before.pending_actions[k].nonce != nonce);
                    }
                    assert(before.pending_actions =~= after.pending_actions);
                }
            },
        }
    }

    /// The pending action with the given nonce.
    pub fn get_pending_action_by_nonce(&self, nonce: i64) -> (r: Option<DbPendingActionEvent>)
        requires
            self@.wf(),
        ensures
            opt_pending(r) == self@.pending_by_nonce(nonce),
    {
        match self.find_pending(nonce) {
            Some(i) => {
                proof {
                    assert(self@.pending_actions[i as int].nonce == nonce);
                    let c = choose|c: int|
                        0 <= c < self@.pending_actions.len() && self@.pending_actions[c].nonce
                            == nonce;
                    assert(c == i) by {
                        if c < i {
                            assert(self@.pending_actions[c].nonce != self@.pending_actions[i as int].nonce);
                        } else if i < c {
                            assert(self@.pending_actions[i as int].nonce != self@.pending_actions[c].nonce);
                        }
                    }
                }
                Some(self.pending_actions[i].clone())
            },
            None => None,
        }
    }

    /// The chain of the pending action with the given nonce.
    pub fn get_chain_id_for_nonce(&self, nonce: i64) -> (r: Option<String>)
        requires
            self@.wf(),
        ensures
            match r {
                Some(chain_id) => self@.pending_by_nonce(nonce) is Some && self@.pending_by_nonce(
                    nonce,
                )->0.chain_id == chain_id@,
                None => self@.pending_by_nonce(nonce) is None,
            },
    {
        match self.get_pending_action_by_nonce(nonce) {
            Some(event) => Some(event.chain_id),
            None => None,
        }
    }

    /// The pending actions that have expired at `now`, in the order of
    /// their insertion.
    pub fn get_expired_pending_action_events(&self, now: &Timestamp) -> (r: Vec<
        DbPendingActionEvent,
    >)
        ensures
            pending_views(r@) == expired_rows(self@.pending_actions, *now),
    {
        let mut found: Vec<DbPendingActionEvent> = Vec::new();
        let mut i: usize = 0;
        while i < self.pending_actions.len()
            invariant
                i <= self.pending_actions@.len(),
                pending_views(found@) == expired_rows(self@.pending_actions.take(i as int), *now),
            decreases self.pending_actions@.len() - i,
        {
            proof {
                lemma_expired_step(self@.pending_actions, *now, i as int);
            }
            if self.pending_actions[i].is_expired(now) {
                let ghost old_found = pending_views(found@);
                found.push(self.pending_actions[i].clone());
                assert(pending_views(found@) =~= old_found.push(self@.pending_actions[i as int]));
            }
            i += 1;
        }
        assert(self@.pending_actions.take(i as int) =~= self@.pending_actions);
        found
    }

    /// The pending actions that may still be retried at `now`: those with
    /// fewer than `max_retries` attempts whose expiry time lies after `now`.
    pub fn get_retriable_pending_action_events(&self, max_retries: i32, now: &Timestamp) -> (r: Vec<
        DbPendingActionEvent,
    >)
        ensures
            pending_views(r@) == retriable_rows(self@.pending_actions, max_retries, *now),
    {
        let mut found: Vec<DbPendingActionEvent> = Vec::new();
        let mut i: usize = 0;
        while i < self.pending_actions.len()
            invariant
                i <= self.pending_actions@.len(),
                pending_views(found@) == retriable_rows(
                    self@.pending_actions.take(i as int),
                    max_retries,
                    *now,
                ),
            decreases self.pending_actions@.len() - i,
        {
            proof {
                lemma_retriable_step(self@.pending_actions, max_retries, *now, i as int);
            }
            let row = &self.pending_actions[i];
            if row.is_retriable(max_retries, now) {
                let ghost old_found = pending_views(found@);
                found.push(row.clone());
                assert(pending_views(found@) =~= old_found.push(self@.pending_actions[i as int]));
            }
            i += 1;
        }
        assert(self@.pending_actions.take(i as int) =~= self@.pending_actions);
        found
    }

    /// Position of the payload with the given hash.
    fn find_axelar_call(&self, payload_hash: &str) -> (r: Option<usize>)
        ensures
            match r {
                Some(i) => i < self.axelar_calls@.len() && self.axelar_calls@[i as int].payload_hash@
                    == payload_hash@,
                None => !self@.has_axelar_call(payload_hash@),
            },
    {
        let mut i: usize = 0;
        while i < self.axelar_calls.len()
            invariant
                i <= self.axelar_calls@.len(),
                forall|j: int| 0 <= j < i ==> self.axelar_calls@[j].payload_hash@ != payload_hash@,
            decreases self.axelar_calls@.len() - i,
        {
            if str_equal(self.axelar_calls[i].payload_hash.as_str(), payload_hash) {
                return Some(i);
            }
            i += 1;
        }
        assert(!self@.has_axelar_call(payload_hash@)) by {
            assert forall|j: int| 0 <= j < self@.axelar_calls.len() implies self@.axelar_calls[j].payload_hash
                != payload_hash@ by {
                assert(self@.axelar_calls[j] == self.axelar_calls@[j]@);
            }
        }
        None
    }

    /// Adds a payload unless its hash is in the store already. A row whose
    /// hash is not the digest of its payload is refused.
    pub fn save_axelar_call_contract_event(&mut self, event: &DbAxelarCallContractEvent) -> (r:
        SaveOutcome)
        requires
            old(self)@.wf(),
        ensures
            r == old(self)@.axelar_outcome(event@),
            final(self)@ == old(self)@.save_axelar(event@),
            final(self)@.wf(),
    {
        match self.find_axelar_call(event.payload_hash.as_str()) {
            Some(i) => {
                assert(self@.has_axelar_call(event.payload_hash@)) by {
                    assert(self@.axelar_calls[i as int].payload_hash == event.payload_hash@);
                }
                SaveOutcome::Duplicate
            },
            None => {
                if !event.has_matching_hash() || self.next_axelar_id == i32::MAX {
                    return SaveOutcome::Rejected;
                }
                let mut row = event.clone();
                row.id = self.next_axelar_id;
                let ghost before = self@;
                self.next_axelar_id = self.next_axelar_id + 1;
                self.axelar_calls.push(row);
                proof {
                    let added = AxelarCallView { id: before.next_axelar_id, ..event@ };
                    assert(self@.axelar_calls =~= before.axelar_calls.push(added));
                    assert(self@.pending_actions =~= before.pending_actions);
                    assert(self@.approved_calls =~= before.approved_calls);
                    assert(added.hash_matches());
                    assert forall|a: int, b: int|
                        0 <= a < b < self@.axelar_calls.len() implies self@.axelar_calls[a].payload_hash
                        != self@.axelar_calls[b].payload_hash by {
                        if b == before.axelar_calls.len() {
                            assert(before.axelar_calls[a].payload_hash != event.payload_hash@);
                        }
                    }
                }
                SaveOutcome::Saved
            },
        }
    }

    /// The payload with the given hash.
    pub fn get_axelar_call_contract_event(&self, payload_hash: &str) -> (r: Option<
        DbAxelarCallContractEvent,
    >)
        requires
            self@.wf(),
        ensures
            opt_axelar(r) == self@.axelar_call_by_hash(payload_hash@),
    {
        match self.find_axelar_call(payload_hash) {
            Some(i) => {
                proof {
                    assert(self@.axelar_calls[i as int].payload_hash == payload_hash@);
                    let c = choose|c: int|
                        0 <= c < self@.axelar_calls.len() && self@.axelar_calls[c].payload_hash
                            == payload_hash@;
                    assert(c == i) by {
                        if c < i {
                            assert(self@.axelar_calls[c].payload_hash != self@.axelar_calls[i as int].payload_hash);
                        } else if i < c {
                            assert(self@.axelar_calls[i as int].payload_hash != self@.axelar_calls[c].payload_hash);
                        }
                    }
                }
                Some(self.axelar_calls[i].clone())
            },
            None => None,
        }
    }

    /// Position of the approved call of the given chain and command.
    fn find_approved_call(&self, blockchain: &str, command_id: &str) -> (r: Option<usize>)
        ensures
            match r {
                Some(i) => i < self.approved_calls@.len(),
                None => !self@.has_approved_call(blockchain@, command_id@),
            },
            r is Some ==> self@.has_approved_call(blockchain@, command_id@),
    {
        let mut i: usize = 0;
        while i < self.approved_calls.len()
            invariant
                i <= self.approved_calls@.len(),
                forall|j: int|
                    0 <= j < i ==> !(self.approved_calls@[j].blockchain@ == blockchain@
                        && self.approved_calls@[j].command_id@ == command_id@),
            decreases self.approved_calls@.len() - i,
        {
            if str_equal(self.approved_calls[i].blockchain.as_str(), blockchain) && str_equal(
                self.approved_calls[i].command_id.as_str(),
                command_id,
            ) {
                assert(self@.approved_calls[i as int].blockchain == blockchain@
                    && self@.approved_calls[i as int].command_id == command_id@);
                return Some(i);
            }
            i += 1;
        }
        assert(!self@.has_approved_call(blockchain@, command_id@)) by {
            assert forall|j: int| 0 <= j < self@.approved_calls.len() implies !(
            self@.approved_calls[j].blockchain == blockchain@ && self@.approved_calls[j].command_id
                == command_id@) by {
                assert(self@.approved_calls[j] == self.approved_calls@[j]@);
            }
        }
        None
    }

    /// Adds an approved call, waiting for its broadcast, unless its chain
    /// and command are in the store already.
    pub fn save_approved_call(&mut self, event: &DbContractCallApprovedEvent) -> (r: SaveOutcome)
        requires
            old(self)@.wf(),
        ensures
            r == old(self)@.approved_outcome(event@),
            final(self)@ == old(self)@.save_approved(event@),
            final(self)@.wf(),
    {
        match self.find_approved_call(event.blockchain.as_str(), event.command_id.as_str()) {
            Some(_) => SaveOutcome::Duplicate,
            None => {
                if self.next_approved_id == i32::MAX {
                    return SaveOutcome::Rejected;
                }
                let mut row = event.clone();
                row.id = self.next_approved_id;
                row.broadcast_status = BroadcastStatus::PendingBroadcast;
                let ghost before = self@;
                self.next_approved_id = self.next_approved_id + 1;
                self.approved_calls.push(row);
                proof {
                    let added = ApprovedCallView {
                        id: before.next_approved_id,
                        broadcast_status: BroadcastStatus::PendingBroadcast,
                        ..event@
                    };
                    assert(self@.approved_calls =~= before.approved_calls.push(added));
                    assert(self@.pending_actions =~= before.pending_actions);
                    assert(self@.axelar_calls =~= before.axelar_calls);
                    assert forall|a: int, b: int|
                        0 <= a < b < self@.approved_calls.len() implies !(
                    self@.approved_calls[a].blockchain == self@.approved_calls[b].blockchain
                        && self@.approved_calls[a].command_id
                        == self@.approved_calls[b].command_id) by {
                        if b == before.approved_calls.len() {
                            assert(!(before.approved_calls[a].blockchain == event.blockchain@
                                && before.approved_calls[a].command_id == event.command_id@));
                        }
                    }
                    assert forall|a: int, b: int|
                        0 <= a < b < self@.approved_calls.len() implies self@.approved_calls[a].id
                        != self@.approved_calls[b].id by {
                        if b == before.approved_calls.len() {
                            assert(before.approved_calls[a].id < before.next_approved_id);
                        }
                    }
                    assert forall|a: int| 0 <= a < self@.approved_calls.len() implies (
                    #[trigger] self@.approved_calls[a]).id < self@.next_approved_id by {
                        if a < before.approved_calls.len() {
                            assert(before.approved_calls[a].id < before.next_approved_id);
                        }
                    }
                }
                SaveOutcome::Saved
            },
        }
    }

    /// The approved calls that wait for their broadcast, in the order of
    /// their insertion.
    pub fn get_pending_broadcast_events(&self) -> (r: Vec<DbContractCallApprovedEvent>)
        ensures
            approved_views(r@) == waiting_rows(self@.approved_calls),
    {
        let mut found: Vec<DbContractCallApprovedEvent> = Vec::new();
        let mut i: usize = 0;
        while i < self.approved_calls.len()
            invariant
                i <= self.approved_calls@.len(),
                approved_views(found@) == waiting_rows(self@.approved_calls.take(i as int)),
            decreases self.approved_calls@.len() - i,
        {
            proof {
                lemma_waiting_step(self@.approved_calls, i as int);
            }
            if self.approved_calls[i].broadcast_status == BroadcastStatus::PendingBroadcast {
                let ghost old_found = approved_views(found@);
                found.push(self.approved_calls[i].clone());
                assert(approved_views(found@) =~= old_found.push(self@.approved_calls[i as int]));
            }
            i += 1;
        }
        assert(self@.approved_calls.take(i as int) =~= self@.approved_calls);
        found
    }

    /// Position of the approved call with the given identifier.
    fn find_approved_id(&self, id: i32) -> (r: Option<usize>)
        requires
            self@.wf(),
        ensures
            match r {
                Some(i) => i < self.approved_calls@.len() && self.approved_calls@[i as int].id == id
                    && self@.approved_by_id(id) == Some(self@.approved_calls[i as int]),
                None => self@.approved_by_id(id) is None,
            },
    {
        let mut i: usize = 0;
        while i < self.approved_calls.len()
            invariant
                self@.wf(),
                i <= self.approved_calls@.len(),
                forall|j: int| 0 <= j < i ==> self.approved_calls@[j].id != id,
            decreases self.approved_calls@.len() - i,
        {
            if self.approved_calls[i].id == id {
                proof {
                    assert(self@.approved_calls[i as int].id == id);
                    let c = choose|c: int|
                        0 <= c < self@.approved_calls.len() && self@.approved_calls[c].id == id;
                    assert(c == i) by {
                        if c < i {
                            assert(self@.approved_calls[c].id != self@.approved_calls[i as int].id);
                        } else if i < c {
                            assert(self@.approved_calls[i as int].id != self@.approved_calls[c].id);
                        }
                    }
                }
                return Some(i);
            }
            i += 1;
        }
        assert(!self@.has_approved_id(id)) by {
            assert forall|j: int| 0 <= j < self@.approved_calls.len() implies self@.approved_calls[j].id
                != id by {
                assert(self@.approved_calls[j] == self.approved_calls@[j]@);
            }
        }
        None
    }

    /// The status of the approved call with the given identifier, as the
    /// store has it now.
    pub fn get_broadcast_status(&self, id: i32) -> (r: Option<BroadcastStatus>)
        requires
            self@.wf(),
        ensures
            r == self@.status_of(id),
    {
        match self.find_approved_id(id) {
            Some(i) => Some(self.approved_calls[i].broadcast_status),
            None => None,
        }
    }

    /// Moves the approved call `id` from status `expected` to `next`. The
    /// change applies only if the row has the expected status and the step
    /// goes forward.
    pub fn update_broadcast_status(
        &mut self,
        id: i32,
        expected: BroadcastStatus,
        next: BroadcastStatus,
    ) -> (r: StatusChange)
        requires
            old(self)@.wf(),
        ensures
            r == (if old(self)@.status_change_applies(id, expected, next) {
                StatusChange::Applied
            } else {
                StatusChange::NotApplicable
            }),
            final(self)@ == old(self)@.set_status(id, expected, next),
            final(self)@.wf(),
    {
        let ghost before = self@;
        if !expected.can_become(next) {
            return StatusChange::NotApplicable;
        }
        match self.find_approved_id(id) {
            Some(i) => {
                if self.approved_calls[i].broadcast_status != expected {
                    return StatusChange::NotApplicable;
                }
                let mut row = self.approved_calls.remove(i);
                row.broadcast_status = next;
                self.approved_calls.insert(i, row);
                proof {
                    let after = before.set_status(id, expected, next);
                    assert forall|k: int| 0 <= k < before.approved_calls.len() implies self@.approved_calls[k]
                        == after.approved_calls[k] by {
                        if k < i {
                            assert(before.approved_calls[k].id != before.approved_calls[i as int].id);
                        } else if k > i {
                            assert(before.approved_calls[i as int].id != before.approved_calls[k].id);
                        }
                    }
                    assert(self@.approved_calls =~= after.approved_calls);
                    assert(self@.pending_actions =~= before.pending_actions);
                    assert(self@.axelar_calls =~= before.axelar_calls);
                }
                StatusChange::Applied
            },
            None => StatusChange::NotApplicable,
        }
    }
}

/// Whether `nonce` is one of `nonces`.
pub fn contains_nonce(nonces: &Vec<i64>, nonce: i64) -> (r: bool)
    ensures
        r == nonces@.contains(nonce),
{
    let mut i: usize = 0;
    while i < nonces.len()
        invariant
            i <= nonces@.len(),
            forall|j: int| 0 <= j < i ==> nonces@[j] != nonce,
        decreases nonces@.len() - i,
    {
        if nonces[i] == nonce {
            return true;
        }
        i += 1;
    }
    false
}

/// In a store that satisfies the invariants, an identifier finds the one
/// approved call that has it.
pub proof fn lemma_approved_by_id(s: StoreState, i: int)
    requires
        s.wf(),
        0 <= i < s.approved_calls.len(),
    ensures
        s.approved_by_id(s.approved_calls[i].id) == Some(s.approved_calls[i]),
{
    let id = s.approved_calls[i].id;
    let c = choose|c: int| 0 <= c < s.approved_calls.len() && s.approved_calls[c].id == id;
    if c < i {
        assert(s.approved_calls[c].id != s.approved_calls[i].id);
    } else if i < c {
        assert(s.approved_calls[i].id != s.approved_calls[c].id);
    }
}

/// A change of status keeps the invariants of the store.
pub proof fn lemma_set_status_wf(s: StoreState, id: i32, expected: BroadcastStatus, next: BroadcastStatus)
    requires
        s.wf(),
    ensures
        s.set_status(id, expected, next).wf(),
        s.set_status(id, expected, next).approved_calls.len() == s.approved_calls.len(),
        forall|i: int|
            0 <= i < s.approved_calls.len() ==> (#[trigger] s.set_status(
                id,
                expected,
                next,
            ).approved_calls[i]).id == s.approved_calls[i].id,
{
    let t = s.set_status(id, expected, next);
    if s.status_change_applies(id, expected, next) {
        assert forall|i: int, j: int| 0 <= i < j < t.approved_calls.len() implies !(
        t.approved_calls[i].blockchain == t.approved_calls[j].blockchain
            && t.approved_calls[i].command_id == t.approved_calls[j].command_id) by {
            assert(!(s.approved_calls[i].blockchain == s.approved_calls[j].blockchain
                && s.approved_calls[i].command_id == s.approved_calls[j].command_id));
        }
        assert forall|i: int, j: int| 0 <= i < j < t.approved_calls.len() implies t.approved_calls[i].id
            != t.approved_calls[j].id by {
            assert(s.approved_calls[i].id != s.approved_calls[j].id);
        }
        assert forall|i: int| 0 <= i < t.approved_calls.len() implies (
        #[trigger] t.approved_calls[i]).id < t.next_approved_id by {
            assert(s.approved_calls[i].id < s.next_approved_id);
        }
    }
}

/// The status of an approved call only ever moves forward: whatever change
/// of status is asked of the store, each call keeps its status or takes one
/// of the steps pending to broadcasting, pending to executed, broadcasting
/// to executed, broadcasting to failed.
pub proof fn lemma_status_only_moves_forward(
    s: StoreState,
    id: i32,
    expected: BroadcastStatus,
    next: BroadcastStatus,
    row_id: i32,
)
    requires
        s.wf(),
        s.status_of(row_id) is Some,
    ensures
        s.set_status(id, expected, next).status_of(row_id) is Some,
        s.set_status(id, expected, next).status_of(row_id) == s.status_of(row_id) || s.status_of(
            row_id,
        )->0.may_become(s.set_status(id, expected, next).status_of(row_id)->0),
        s.status_of(row_id)->0.rank() <= s.set_status(id, expected, next).status_of(row_id)->0.rank(),
{
    let t = s.set_status(id, expected, next);
    lemma_set_status_wf(s, id, expected, next);
    let i = choose|i: int| 0 <= i < s.approved_calls.len() && s.approved_calls[i].id == row_id;
    lemma_approved_by_id(s, i);
    assert(t.approved_calls[i].id == row_id);
    lemma_approved_by_id(t, i);
    if s.status_change_applies(id, expected, next) && row_id == id {
        assert(t.approved_calls[i].broadcast_status == next);
        assert(s.approved_calls[i].broadcast_status == expected);
    }
}

/// Saving an approved call leaves the status of every call that was there.
pub proof fn lemma_save_approved_keeps_status(s: StoreState, row: ApprovedCallView, row_id: i32)
    requires
        s.wf(),
        s.status_of(row_id) is Some,
    ensures
        s.save_approved(row).status_of(row_id) == s.status_of(row_id),
{
    let t = s.save_approved(row);
    lemma_save_approved_wf(s, row);
    let i = choose|i: int| 0 <= i < s.approved_calls.len() && s.approved_calls[i].id == row_id;
    lemma_approved_by_id(s, i);
    assert(t.approved_calls[i] == s.approved_calls[i]);
    lemma_approved_by_id(t, i);
}

/// Saving an approved call keeps the invariants of the store.
pub proof fn lemma_save_approved_wf(s: StoreState, row: ApprovedCallView)
    requires
        s.wf(),
    ensures
        s.save_approved(row).wf(),
{
    let t = s.save_approved(row);
    if s.approved_outcome(row) == SaveOutcome::Saved {
        let n = s.approved_calls.len() as int;
        assert forall|i: int, j: int| 0 <= i < j < t.approved_calls.len() implies !(
        t.approved_calls[i].blockchain == t.approved_calls[j].blockchain
            && t.approved_calls[i].command_id == t.approved_calls[j].command_id) by {
            if j == n {
                assert(!(s.approved_calls[i].blockchain == row.blockchain
                    && s.approved_calls[i].command_id == row.command_id));
            } else {
                assert(!(s.approved_calls[i].blockchain == s.approved_calls[j].blockchain
                    && s.approved_calls[i].command_id == s.approved_calls[j].command_id));
            }
        }
        assert forall|i: int, j: int| 0 <= i < j < t.approved_calls.len() implies t.approved_calls[i].id
            != t.approved_calls[j].id by {
            assert(s.approved_calls[i].id < s.next_approved_id);
            if j < n {
                assert(s.approved_calls[i].id != s.approved_calls[j].id);
            }
        }
        assert forall|i: int| 0 <= i < t.approved_calls.len() implies (
        #[trigger] t.approved_calls[i]).id < t.next_approved_id by {
            if i < n {
                assert(s.approved_calls[i].id < s.next_approved_id);
            }
        }
    }
}

/// Handing the same pending action to the store twice leaves the store as
/// handing it over once does, and the second time nothing is added.
pub proof fn lemma_save_pending_idempotent(s: StoreState, row: PendingActionView)
    ensures
        s.save_pending(row).save_pending(row) == s.save_pending(row),
        s.save_pending(row).pending_outcome(row) != SaveOutcome::Saved,
{
    let t = s.save_pending(row);
    if s.pending_outcome(row) == SaveOutcome::Saved {
        assert(t.pending_actions[s.pending_actions.len() as int].nonce == row.nonce);
        assert(t.has_pending(row.nonce));
    }
}

/// Handing the same payload to the store twice leaves the store as handing
/// it over once does, and the second time nothing is added.
pub proof fn lemma_save_axelar_idempotent(s: StoreState, row: AxelarCallView)
    ensures
        s.save_axelar(row).save_axelar(row) == s.save_axelar(row),
        s.save_axelar(row).axelar_outcome(row) != SaveOutcome::Saved,
{
    let t = s.save_axelar(row);
    if s.axelar_outcome(row) == SaveOutcome::Saved {
        assert(t.axelar_calls[s.axelar_calls.len() as int].payload_hash == row.payload_hash);
        assert(t.has_axelar_call(row.payload_hash));
    }
}

/// Handing the same approved call to the store twice, as the live listener
/// and the backfill may do, leaves the store as handing it over once does,
/// and the second time nothing is added.
pub proof fn lemma_save_approved_idempotent(s: StoreState, row: ApprovedCallView)
    ensures
        s.save_approved(row).save_approved(row) == s.save_approved(row),
        s.save_approved(row).approved_outcome(row) != SaveOutcome::Saved,
{
    let t = s.save_approved(row);
    if s.approved_outcome(row) == SaveOutcome::Saved {
        let last = t.approved_calls[s.approved_calls.len() as int];
        assert(last.blockchain == row.blockchain && last.command_id == row.command_id);
        assert(t.has_approved_call(row.blockchain, row.command_id));
    }
}

/// In a store that satisfies the invariants the hash of every payload is
/// the Keccak-256 digest of the bytes that the payload's hexadecimal text
/// denotes.
pub proof fn lemma_every_payload_hash_matches(s: StoreState, i: int)
    requires
        s.wf(),
        0 <= i < s.axelar_calls.len(),
    ensures
        crate::codec::hex_decoded(s.axelar_calls[i].payload) is Some,
        s.axelar_calls[i].payload_hash == crate::codec::hex_prefixed(
            crate::codec::keccak256_digest(crate::codec::hex_decoded(s.axelar_calls[i].payload)->0),
        ),
{
    assert(s.axelar_calls[i].hash_matches());
}

/// In a store that satisfies the invariants no count of attempts is
/// negative.
pub proof fn lemma_retry_counts_are_not_negative(s: StoreState, i: int)
    requires
        s.wf(),
        0 <= i < s.pending_actions.len(),
    ensures
        s.pending_actions[i].retry_count >= 0,
{
}

/// In a store that satisfies the invariants at most one pending action has
/// a given nonce, so a saved action is there exactly once.
pub proof fn lemma_one_row_per_nonce(s: StoreState, i: int, j: int)
    requires
        s.wf(),
        0 <= i < s.pending_actions.len(),
        0 <= j < s.pending_actions.len(),
        s.pending_actions[i].nonce == s.pending_actions[j].nonce,
    ensures
        i == j,
{
    if i < j {
        assert(s.pending_actions[i].nonce != s.pending_actions[j].nonce);
    } else if j < i {
        assert(s.pending_actions[j].nonce != s.pending_actions[i].nonce);
    }
}

/// Once a worker has taken an approved call from pending to broadcasting,
/// the store shows the new status, and a second attempt to take the call,
/// made on the strength of an earlier reading, does not apply and changes
/// nothing.
pub proof fn lemma_taken_call_is_not_taken_again(s: StoreState, id: i32)
    requires
        s.wf(),
        s.status_change_applies(
            id,
            BroadcastStatus::PendingBroadcast,
            BroadcastStatus::Broadcasting,
        ),
    ensures
        ({
            let t = s.set_status(
                id,
                BroadcastStatus::PendingBroadcast,
                BroadcastStatus::Broadcasting,
            );
            &&& t.status_of(id) == Some(BroadcastStatus::Broadcasting)
            &&& !t.status_change_applies(
                id,
                BroadcastStatus::PendingBroadcast,
                BroadcastStatus::Broadcasting,
            )
            &&& t.set_status(id, BroadcastStatus::PendingBroadcast, BroadcastStatus::Broadcasting)
                == t
        }),
{
    let t = s.set_status(id, BroadcastStatus::PendingBroadcast, BroadcastStatus::Broadcasting);
    lemma_set_status_wf(s, id, BroadcastStatus::PendingBroadcast, BroadcastStatus::Broadcasting);
    let i = choose|i: int| 0 <= i < s.approved_calls.len() && s.approved_calls[i].id == id;
    assert(t.approved_calls[i].id == id);
    lemma_approved_by_id(t, i);
}

} // verus!
