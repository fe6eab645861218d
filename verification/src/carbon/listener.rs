//! The live side of the hub pipeline: the subscriptions to the hub's event
//! stream and what each kind of event does to the store.

use crate::conf::Carbon;
use crate::constants::events::{
    CARBON_AXELAR_CALL_CONTRACT_EVENT, CARBON_BRIDGE_EXPIRED_PENDING_ACTION_EVENT,
    CARBON_BRIDGE_PENDING_ACTION_EVENT, CARBON_BRIDGE_REVERT_EVENT,
};
use crate::db::store::{EventStore, SaveOutcome, StoreState};
use crate::db::DbPendingActionEvent;
use crate::util::carbon::parser::{
    axelar_call_of, expired_action_of, parse_axelar_call_contract_event,
    parse_bridge_pending_action_event, parse_bridge_reverted_event,
    parse_expired_pending_action_event, pending_action_of, plain_value, ParseError,
};
use crate::util::cosmos::{event_views, extract_events, extracted_events, CosmosError, Event, EventView};
use crate::util::datetime::Timestamp;
use crate::decimal::parsed_i64;
use vstd::prelude::*;

verus! {

/// The four kinds of event that the relayer subscribes to.
#[derive(Clone, Copy, Debug, PartialEq, Eq, Structural)]
pub enum SubscriptionKind {
    PendingAction,
    ExpiredPendingAction,
    BridgeReverted,
    AxelarCallContract,
}

/// One subscription: the identifier under which its frames arrive, the
/// query that selects them and the kind of event they carry.
#[derive(Debug)]
pub struct Subscription {
    pub id: String,
    pub query: String,
    pub kind: SubscriptionKind,
}

/// What a pending action event did to the store.
#[derive(Debug)]
pub enum PendingIngest {
    /// The event could not be read; nothing changed.
    Malformed(ParseError),
    /// The action had expired when it arrived; nothing changed.
    Expired(i64),
    /// The action was handed to the store, with this outcome. Its fee is to
    /// be judged next.
    Kept(DbPendingActionEvent, SaveOutcome),
}

/// What is to be done with a pending action event.
#[derive(Debug)]
pub enum PendingDecision {
    /// The event cannot be read.
    Malformed(ParseError),
    /// The action with this nonce has expired; it is dropped.
    Expired(i64),
    /// The action is to be kept.
    Keep(DbPendingActionEvent),
}

/// What a payload event did to the store.
#[derive(Clone, Copy, Debug, PartialEq, Eq, Structural)]
pub enum AxelarIngest {
    /// The event could not be read; nothing changed.
    Malformed(ParseError),
    /// The store has no pending action with the payload's nonce; nothing
    /// changed.
    NoPendingAction,
    /// The payload was handed to the store, with this outcome.
    Kept(SaveOutcome),
}

impl SubscriptionKind {
    /// The type name of the events of this kind.
    pub open spec fn event_name(self) -> Seq<char> {
        match self {
            SubscriptionKind::PendingAction => CARBON_BRIDGE_PENDING_ACTION_EVENT@,
            SubscriptionKind::ExpiredPendingAction => CARBON_BRIDGE_EXPIRED_PENDING_ACTION_EVENT@,
            SubscriptionKind::BridgeReverted => CARBON_BRIDGE_REVERT_EVENT@,
            SubscriptionKind::AxelarCallContract => CARBON_AXELAR_CALL_CONTRACT_EVENT@,
        }
    }

    /// The identifier of the subscription of this kind.
    pub open spec fn id(self) -> Seq<char> {
        match self {
            SubscriptionKind::PendingAction => "1"@,
            SubscriptionKind::ExpiredPendingAction => "2"@,
            SubscriptionKind::BridgeReverted => "3"@,
            SubscriptionKind::AxelarCallContract => "4"@,
        }
    }

    /// The query of the subscription of this kind: pending actions of the
    /// configured bridge, and every event of the other kinds.
    pub open spec fn query(self, bridge_id: Seq<char>) -> Seq<char> {
        match self {
            SubscriptionKind::PendingAction => self.event_name() + ".connection_id CONTAINS '"@
                + bridge_id + "/'"@,
            _ => self.event_name() + " EXISTS"@,
        }
    }

    pub fn name(self) -> (r: &'static str)
        ensures
            r@ == self.event_name(),
    {
        match self {
            SubscriptionKind::PendingAction => CARBON_BRIDGE_PENDING_ACTION_EVENT,
            SubscriptionKind::ExpiredPendingAction => CARBON_BRIDGE_EXPIRED_PENDING_ACTION_EVENT,
            SubscriptionKind::BridgeReverted => CARBON_BRIDGE_REVERT_EVENT,
            SubscriptionKind::AxelarCallContract => CARBON_AXELAR_CALL_CONTRACT_EVENT,
        }
    }

    /// The subscription of this kind for the configured bridge.
    pub fn subscription(self, bridge_id: &str) -> (r: Subscription)
        ensures
            r.kind == self,
            r.id@ == self.id(),
            r.query@ == self.query(bridge_id@),
    {
        let id = match self {
            SubscriptionKind::PendingAction => "1",
            SubscriptionKind::ExpiredPendingAction => "2",
            SubscriptionKind::BridgeReverted => "3",
            SubscriptionKind::AxelarCallContract => "4",
        };
        let mut query = self.name().to_owned();
        match self {
            SubscriptionKind::PendingAction => {
                query.append(".connection_id CONTAINS '");
                query.append(bridge_id);
                query.append("/'");
            },
            _ => {
                query.append(" EXISTS");
            },
        }
        Subscription { id: id.to_owned(), query, kind: self }
    }
}

/// The store after a pending action event: an action that can be read and
/// has not expired is handed to the store.
pub open spec fn pending_ingested(s: StoreState, event: EventView, now: Timestamp) -> StoreState {
    match pending_action_of(event) {
        Ok(row) => if row.relay_details.has_expired(now) {
            s
        } else {
            s.save_pending(row)
        },
        Err(_) => s,
    }
}

/// The store after the pending action events of a frame, in their order.
pub open spec fn pending_ingested_all(s: StoreState, events: Seq<EventView>, now: Timestamp) -> StoreState
    decreases events.len(),
{
    if events.len() == 0 {
        s
    } else {
        pending_ingested(pending_ingested_all(s, events.drop_last(), now), events.last(), now)
    }
}

/// What a pending action event did, as far as it can be told from the
/// event and the store before it.
pub open spec fn pending_ingest_matches(
    r: PendingIngest,
    s: StoreState,
    event: EventView,
    now: Timestamp,
) -> bool {
    match pending_action_of(event) {
        Err(e) => r matches PendingIngest::Malformed(x) && x == e,
        Ok(row) => if row.relay_details.has_expired(now) {
            r matches PendingIngest::Expired(nonce) && nonce == row.nonce
        } else {
            r matches PendingIngest::Kept(kept, outcome) && kept@ == row && outcome
                == s.pending_outcome(row)
        },
    }
}

/// What is to be done with a pending action event that arrives at `now`.
pub open spec fn pending_decision_matches(r: PendingDecision, event: EventView, now: Timestamp) -> bool {
    match pending_action_of(event) {
        Err(e) => r matches PendingDecision::Malformed(x) && x == e,
        Ok(row) => if row.relay_details.has_expired(now) {
            r matches PendingDecision::Expired(nonce) && nonce == row.nonce
        } else {
            r matches PendingDecision::Keep(kept) && kept@ == row
        },
    }
}

/// The nonce of the action that an expiry notice or a revert notice names.
pub open spec fn noticed_nonce(event: EventView) -> Option<i64> {
    parsed_i64(plain_value(event, "nonce"@))
}

/// The store after a notice that an action has expired or was reverted:
/// the action is removed.
pub open spec fn notice_ingested(s: StoreState, nonce: Option<i64>) -> StoreState {
    match nonce {
        Some(n) => s.delete_pending(seq![n]),
        None => s,
    }
}

/// What a payload event does, as far as it can be told from the event and
/// the store before it.
pub open spec fn axelar_ingest_of(s: StoreState, event: EventView) -> AxelarIngest {
    match axelar_call_of(event) {
        Err(e) => AxelarIngest::Malformed(e),
        Ok(row) => if s.has_pending(row.nonce) {
            AxelarIngest::Kept(s.axelar_outcome(row))
        } else {
            AxelarIngest::NoPendingAction
        },
    }
}

/// The store after a payload event: a payload that can be read is handed
/// to the store if the store has a pending action with its nonce.
pub open spec fn axelar_ingested(s: StoreState, event: EventView) -> StoreState {
    match axelar_call_of(event) {
        Ok(row) => if s.has_pending(row.nonce) {
            s.save_axelar(row)
        } else {
            s
        },
        Err(_) => s,
    }
}

/// The four subscriptions that are set up when the relayer starts.
pub fn init_ws(carbon_config: &Carbon) -> (r: Vec<Subscription>)
    ensures
        r@.len() == 4,
        r@[0].kind == SubscriptionKind::PendingAction,
        r@[1].kind == SubscriptionKind::ExpiredPendingAction,
        r@[2].kind == SubscriptionKind::BridgeReverted,
        r@[3].kind == SubscriptionKind::AxelarCallContract,
        forall|i: int|
            0 <= i < 4 ==> (#[trigger] r@[i]).id@ == r@[i].kind.id() && r@[i].query@
                == r@[i].kind.query(carbon_config.axelar_bridge_id@),
{
    let bridge_id = carbon_config.axelar_bridge_id.as_str();
    let mut out: Vec<Subscription> = Vec::new();
    out.push(SubscriptionKind::PendingAction.subscription(bridge_id));
    out.push(SubscriptionKind::ExpiredPendingAction.subscription(bridge_id));
    out.push(SubscriptionKind::BridgeReverted.subscription(bridge_id));
    out.push(SubscriptionKind::AxelarCallContract.subscription(bridge_id));
    out
}

/// Decides what is to be done with a pending action event that arrives at
/// `now`: an action whose expiry time `now` has reached is dropped, any
/// other that can be read is kept.
pub fn accept_pending_action(event: &Event, now: &Timestamp) -> (r: PendingDecision)
    ensures
        pending_decision_matches(r, event@, *now),
{
    match parse_bridge_pending_action_event(event) {
        Err(e) => PendingDecision::Malformed(e),
        Ok(pending_action) => {
            if pending_action.relay_details.has_expired(now) {
                PendingDecision::Expired(pending_action.nonce)
            } else {
                PendingDecision::Keep(pending_action)
            }
        },
    }
}

/// Deals with one pending action event: an action that has expired at
/// `now` is dropped, any other is handed to the store.
pub fn ingest_pending_action(store: &mut EventStore, event: &Event, now: &Timestamp) -> (r:
    PendingIngest)
    requires
        old(store)@.wf(),
    ensures
        pending_ingest_matches(r, old(store)@, event@, *now),
        final(store)@ == pending_ingested(old(store)@, event@, *now),
        final(store)@.wf(),
{
    match accept_pending_action(event, now) {
        PendingDecision::Malformed(e) => PendingIngest::Malformed(e),
        PendingDecision::Expired(nonce) => PendingIngest::Expired(nonce),
        PendingDecision::Keep(pending_action) => {
            let outcome = store.save_bridge_pending_action_event(&pending_action);
            PendingIngest::Kept(pending_action, outcome)
        },
    }
}

/// Deals with pending action events in their order.
pub fn ingest_pending_actions(store: &mut EventStore, events: &Vec<Event>, now: &Timestamp) -> (r: Vec<
    PendingIngest,
>)
    requires
        old(store)@.wf(),
    ensures
        r@.len() == events@.len(),
        final(store)@ == pending_ingested_all(old(store)@, event_views(events@), *now),
        forall|i: int|
            0 <= i < events@.len() ==> pending_ingest_matches(
                #[trigger] r@[i],
                pending_ingested_all(old(store)@, event_views(events@).take(i), *now),
                event_views(events@)[i],
                *now,
            ),
        final(store)@.wf(),
{
    let ghost views = event_views(events@);
    let ghost start = store@;
    let mut out: Vec<PendingIngest> = Vec::new();
    let mut i: usize = 0;
    while i < events.len()
        invariant
            i <= events@.len(),
            views == event_views(events@),
            store@.wf(),
            store@ == pending_ingested_all(start, views.take(i as int), *now),
            out@.len() == i,
            forall|k: int|
                0 <= k < i ==> pending_ingest_matches(
                    #[trigger] out@[k],
                    pending_ingested_all(start, views.take(k), *now),
                    views[k],
                    *now,
                ),
        decreases events@.len() - i,
    {
        proof {
            assert(views.take(i + 1).drop_last() =~= views.take(i as int));
            assert(views.take(i + 1).last() == events@[i as int]@);
        }
        let done = ingest_pending_action(store, &events[i], now);
        out.push(done);
        i += 1;
    }
    assert(views.take(i as int) =~= views);
    out
}

/// Deals with a frame of pending action events, event by event.
pub fn process_bridge_pending_action(store: &mut EventStore, msg: &str, now: &Timestamp) -> (r:
    Result<Vec<PendingIngest>, CosmosError>)
    requires
        old(store)@.wf(),
    ensures
        final(store)@.wf(),
        match extracted_events(msg@, CARBON_BRIDGE_PENDING_ACTION_EVENT@) {
            Err(e) => r == Err::<Vec<PendingIngest>, CosmosError>(e) && final(store)@ == old(
                store,
            )@,
            Ok(events) => r is Ok && r->Ok_0@.len() == events.len() && final(store)@
                == pending_ingested_all(old(store)@, events, *now) && forall|i: int|
                0 <= i < events.len() ==> pending_ingest_matches(
                    #[trigger] r->Ok_0@[i],
                    pending_ingested_all(old(store)@, events.take(i), *now),
                    events[i],
                    *now,
                ),
        },
{
    match extract_events(msg, CARBON_BRIDGE_PENDING_ACTION_EVENT) {
        Ok(events) => Ok(ingest_pending_actions(store, &events, now)),
        Err(e) => Err(e),
    }
}

/// Deals with the hub's notice that a pending action has expired: the
/// action is removed from the store.
pub fn process_expired_pending_action_event(store: &mut EventStore, event: &Event) -> (r: Result<
    i64,
    ParseError,
>)
    requires
        old(store)@.wf(),
    ensures
        match expired_action_of(event@) {
            Ok(x) => r == Ok::<i64, ParseError>(x.0) && final(store)@ == old(store)@.delete_pending(
                seq![x.0],
            ),
            Err(e) => r == Err::<i64, ParseError>(e) && final(store)@ == old(store)@,
        },
        final(store)@.wf(),
{
    match parse_expired_pending_action_event(event) {
        Ok(expired) => {
            store.delete_bridge_pending_action_event(expired.nonce);
            Ok(expired.nonce)
        },
        Err(e) => Err(e),
    }
}

/// Deals with the hub's notice that the bridge has reverted an action: the
/// action is removed from the store.
pub fn process_bridge_reverted_event(store: &mut EventStore, event: &Event) -> (r: Result<
    i64,
    ParseError,
>)
    requires
        old(store)@.wf(),
    ensures
        match noticed_nonce(event@) {
            Some(n) => r == Ok::<i64, ParseError>(n),
            None => r == Err::<i64, ParseError>(ParseError::Nonce),
        },
        final(store)@ == notice_ingested(old(store)@, noticed_nonce(event@)),
        final(store)@.wf(),
{
    match parse_bridge_reverted_event(event) {
        Ok(reverted) => {
            store.delete_bridge_pending_action_event(reverted.nonce);
            Ok(reverted.nonce)
        },
        Err(e) => Err(e),
    }
}

/// Deals with a payload event: the payload is handed to the store if the
/// store has a pending action with its nonce.
pub fn process_axelar_call_contract_event(store: &mut EventStore, event: &Event) -> (r: AxelarIngest)
    requires
        old(store)@.wf(),
    ensures
        r == axelar_ingest_of(old(store)@, event@),
        final(store)@ == axelar_ingested(old(store)@, event@),
        final(store)@.wf(),
{
    match parse_axelar_call_contract_event(event) {
        Err(e) => AxelarIngest::Malformed(e),
        Ok(call) => {
            match store.get_pending_action_by_nonce(call.nonce) {
                Some(_) => AxelarIngest::Kept(store.save_axelar_call_contract_event(&call)),
                None => AxelarIngest::NoPendingAction,
            }
        },
    }
}

/// An action that arrives exactly at its expiry time is dropped.
pub proof fn lemma_expired_on_arrival(s: StoreState, event: EventView, now: Timestamp)
    requires
        pending_action_of(event) matches Ok(row) && row.relay_details.expiry_block_time == now,
    ensures
        pending_ingested(s, event, now) == s,
{
}

} // verus!
