//! What the hub's node says: the frames of its event stream, its account
//! and block answers, and its answer to a broadcast transaction.

use crate::codec::{base64_encode, base64_text};
use crate::decimal::{parse_u64, parsed_u64};
use crate::json::{items_view, json_parsed, Json, JsonTree};
use crate::text::str_equal;
use vstd::prelude::*;

verus! {

/// A frame of the event stream.
#[derive(Debug)]
pub struct WebSocketMessage {
    pub id: String,
    pub jsonrpc: String,
    pub result: WsResult,
}

/// What a subscription delivers: the query it answers and the data.
#[derive(Debug)]
pub struct WsResult {
    pub query: String,
    pub data: Data,
}

/// The data of a frame, tagged with its kind.
#[derive(Debug)]
pub struct Data {
    pub data_type: String,
    pub value: TxValue,
}

/// The payload of a frame: one transaction.
#[derive(Debug)]
pub struct TxValue {
    pub tx_result: TxResult,
}

/// A transaction and what came of it.
#[derive(Debug)]
pub struct TxResult {
    pub height: String,
    pub tx: String,
    pub result: TxResultInner,
}

/// What came of a transaction, with the events it emitted.
#[derive(Debug)]
pub struct TxResultInner {
    pub data: String,
    pub gas_wanted: String,
    pub gas_used: String,
    pub events: Vec<Event>,
}

/// An event with its attributes in the order in which the node lists them.
#[derive(Debug)]
pub struct Event {
    pub attributes: Vec<Attribute>,
    pub event_type: String,
}

/// One attribute of an event. The value is JSON text.
#[derive(Debug)]
pub struct Attribute {
    pub index: bool,
    pub key: String,
    pub value: String,
}

pub ghost struct AttributeView {
    pub index: bool,
    pub key: Seq<char>,
    pub value: Seq<char>,
}

pub ghost struct EventView {
    pub attributes: Seq<AttributeView>,
    pub event_type: Seq<char>,
}

/// Why an answer of the node could not be used.
#[derive(Clone, Copy, Debug, PartialEq, Eq, Structural)]
pub enum CosmosError {
    /// The text is no JSON document.
    Json,
    /// The document is no frame of the event stream.
    Frame,
    /// The account number is missing or no string.
    AccountNumberMissing,
    /// The account number is no unsigned 64-bit number.
    AccountNumberInvalid,
    /// The sequence is missing or no string.
    SequenceMissing,
    /// The sequence is no unsigned 64-bit number.
    SequenceInvalid,
    /// The block height is missing or no string.
    HeightMissing,
    /// The block height is no unsigned 64-bit number.
    HeightInvalid,
    /// The answer to a transaction carries no code.
    CodeMissing,
    /// The node refused the transaction: its code is not zero.
    TxFailed,
}

impl View for Attribute {
    type V = AttributeView;

    open spec fn view(&self) -> AttributeView {
        AttributeView { index: self.index, key: self.key@, value: self.value@ }
    }
}

pub open spec fn attribute_views(attributes: Seq<Attribute>) -> Seq<AttributeView> {
    Seq::new(attributes.len(), |i: int| attributes[i]@)
}

impl View for Event {
    type V = EventView;

    open spec fn view(&self) -> EventView {
        EventView { attributes: attribute_views(self.attributes@), event_type: self.event_type@ }
    }
}

pub open spec fn event_views(events: Seq<Event>) -> Seq<EventView> {
    Seq::new(events.len(), |i: int| events[i]@)
}

impl Clone for Attribute {
    fn clone(&self) -> (r: Self)
        ensures
            r@ == self@,
    {
        Attribute { index: self.index, key: self.key.clone(), value: self.value.clone() }
    }
}

impl Clone for Event {
    fn clone(&self) -> (r: Self)
        ensures
            r@ == self@,
    {
        let mut attributes: Vec<Attribute> = Vec::new();
        let mut i: usize = 0;
        while i < self.attributes.len()
            invariant
                i <= self.attributes@.len(),
                attribute_views(attributes@) == attribute_views(self.attributes@.take(i as int)),
            decreases self.attributes@.len() - i,
        {
            let ghost before = attribute_views(attributes@);
            attributes.push(self.attributes[i].clone());
            assert(attribute_views(attributes@) =~= before.push(self.attributes@[i as int]@));
            assert(attribute_views(self.attributes@.take(i + 1)) =~= attribute_views(
                self.attributes@.take(i as int),
            ).push(self.attributes@[i as int]@));
            i += 1;
        }
        assert(self.attributes@.take(i as int) =~= self.attributes@);
        Event { attributes, event_type: self.event_type.clone() }
    }
}

/// The attribute that a JSON object denotes.
pub open spec fn attribute_of_json(j: JsonTree) -> Option<AttributeView> {
    match (j.field("index"@), j.str_field("key"@), j.str_field("value"@)) {
        (Some(JsonTree::Bool(index)), Some(key), Some(value)) => Some(
            AttributeView { index, key, value },
        ),
        _ => None,
    }
}

/// The attributes that the items of a JSON array denote, if each does.
pub open spec fn attributes_of_json(items: Seq<JsonTree>) -> Option<Seq<AttributeView>>
    decreases items.len(),
{
    if items.len() == 0 {
        Some(Seq::empty())
    } else {
        match (attributes_of_json(items.drop_last()), attribute_of_json(items.last())) {
            (Some(head), Some(last)) => Some(head.push(last)),
            _ => None,
        }
    }
}

/// The event that a JSON object denotes.
pub open spec fn event_of_json(j: JsonTree) -> Option<EventView> {
    match (j.field("attributes"@), j.str_field("type"@)) {
        (Some(JsonTree::Array(items)), Some(event_type)) => match attributes_of_json(items) {
            Some(attributes) => Some(EventView { attributes, event_type }),
            None => None,
        },
        _ => None,
    }
}

/// The events that the items of a JSON array denote, if each does.
pub open spec fn events_of_json(items: Seq<JsonTree>) -> Option<Seq<EventView>>
    decreases items.len(),
{
    if items.len() == 0 {
        Some(Seq::empty())
    } else {
        match (events_of_json(items.drop_last()), event_of_json(items.last())) {
            (Some(head), Some(last)) => Some(head.push(last)),
            _ => None,
        }
    }
}

/// The events of a transaction's outcome, which also has to state its
/// data and its gas figures.
pub open spec fn outcome_events(j: JsonTree) -> Option<Seq<EventView>> {
    match (
        j.str_field("data"@),
        j.str_field("gas_wanted"@),
        j.str_field("gas_used"@),
        j.field("events"@),
    ) {
        (Some(_), Some(_), Some(_), Some(JsonTree::Array(items))) => events_of_json(items),
        _ => None,
    }
}

/// The events of a transaction in a frame, which also has to state its
/// height and its bytes.
pub open spec fn tx_result_events(j: JsonTree) -> Option<Seq<EventView>> {
    match (j.str_field("height"@), j.str_field("tx"@), j.field("result"@)) {
        (Some(_), Some(_), Some(outcome)) => outcome_events(outcome),
        _ => None,
    }
}

/// The events that a frame of the event stream carries: those of the
/// transaction under `result.data.value.TxResult`. Every level has to
/// state its other fields too.
pub open spec fn frame_events(j: JsonTree) -> Option<Seq<EventView>> {
    match (j.str_field("id"@), j.str_field("jsonrpc"@), j.field("result"@)) {
        (Some(_), Some(_), Some(result)) => match (result.str_field("query"@), result.field("data"@)) {
            (Some(_), Some(data)) => match (data.str_field("type"@), data.field("value"@)) {
                (Some(_), Some(value)) => match value.field("TxResult"@) {
                    Some(tx_result) => tx_result_events(tx_result),
                    None => None,
                },
                _ => None,
            },
            _ => None,
        },
        _ => None,
    }
}

/// The events of the given type, in their order.
pub open spec fn events_named(events: Seq<EventView>, name: Seq<char>) -> Seq<EventView>
    decreases events.len(),
{
    if events.len() == 0 {
        Seq::empty()
    } else {
        let head = events_named(events.drop_last(), name);
        if events.last().event_type == name {
            head.push(events.last())
        } else {
            head
        }
    }
}

/// What a frame's text yields for an event type.
pub open spec fn extracted_events(msg: Seq<char>, event_name: Seq<char>) -> Result<
    Seq<EventView>,
    CosmosError,
> {
    match json_parsed(msg) {
        None => Err(CosmosError::Json),
        Some(j) => match frame_events(j) {
            None => Err(CosmosError::Frame),
            Some(events) => Ok(events_named(events, event_name)),
        },
    }
}

/// The value of the first attribute with the given key, or the empty text
/// when the event has none.
pub open spec fn attribute_value(attributes: Seq<AttributeView>, key: Seq<char>) -> Seq<char>
    decreases attributes.len(),
{
    if attributes.len() == 0 {
        Seq::empty()
    } else if attributes[0].key == key {
        attributes[0].value
    } else {
        attribute_value(attributes.skip(1), key)
    }
}

/// An unsigned number that the node gives as a string two levels down.
pub open spec fn nested_number(j: JsonTree, outer: Seq<char>, inner: Seq<char>) -> Option<
    Option<u64>,
> {
    match j.field(outer) {
        Some(o) => match o.str_field(inner) {
            Some(text) => Some(parsed_u64(text)),
            None => None,
        },
        None => None,
    }
}

/// The account number and the sequence in the node's account answer.
pub open spec fn account_info_of(j: JsonTree) -> Result<(u64, u64), CosmosError> {
    match nested_number(j, "account"@, "account_number"@) {
        None => Err(CosmosError::AccountNumberMissing),
        Some(None) => Err(CosmosError::AccountNumberInvalid),
        Some(Some(number)) => match nested_number(j, "account"@, "sequence"@) {
            None => Err(CosmosError::SequenceMissing),
            Some(None) => Err(CosmosError::SequenceInvalid),
            Some(Some(sequence)) => Ok((number, sequence)),
        },
    }
}

/// The text at `result.block.header.height` of the node's block answer.
pub open spec fn height_text(j: JsonTree) -> Option<Seq<char>> {
    match j.field("result"@) {
        Some(result) => match result.field("block"@) {
            Some(block) => match block.field("header"@) {
                Some(header) => header.str_field("height"@),
                None => None,
            },
            None => None,
        },
        None => None,
    }
}

/// The height in the node's block answer.
pub open spec fn block_height_of(j: JsonTree) -> Result<u64, CosmosError> {
    match height_text(j) {
        None => Err(CosmosError::HeightMissing),
        Some(text) => match parsed_u64(text) {
            Some(h) => Ok(h),
            None => Err(CosmosError::HeightInvalid),
        },
    }
}

/// The code at `tx_response.code` of the node's answer to a transaction.
pub open spec fn tx_code(j: JsonTree) -> Option<i64> {
    match j.field("tx_response"@) {
        Some(response) => match response.field("code"@) {
            Some(code) => code.as_i64(),
            None => None,
        },
        None => None,
    }
}

/// Whether the node took the transaction: its answer carries code zero.
pub open spec fn tx_response_of(j: JsonTree) -> Result<(), CosmosError> {
    match tx_code(j) {
        None => Err(CosmosError::CodeMissing),
        Some(code) => if code == 0 {
            Ok(())
        } else {
            Err(CosmosError::TxFailed)
        },
    }
}

/// The body with which a signed transaction is handed to the node: its
/// bytes in base64, to be checked but not awaited.
pub open spec fn broadcast_body(tx_bytes: Seq<u8>) -> JsonTree {
    JsonTree::Object(
        seq![
            ("tx_bytes"@, JsonTree::Str(base64_text(tx_bytes))),
            ("mode"@, JsonTree::Str(crate::util::carbon::tx::BROADCAST_MODE@)),
        ],
    )
}

impl Attribute {
    /// Reads an attribute from a JSON object.
    pub fn from_json(j: &Json) -> (r: Option<Attribute>)
        ensures
            match r {
                Some(a) => attribute_of_json(j@) == Some(a@),
                None => attribute_of_json(j@) is None,
            },
    {
        let index = match j.field("index") {
            Some(Json::Bool(b)) => *b,
            _ => {
                return None;
            },
        };
        let key = match j.str_field("key") {
            Some(v) => v,
            None => {
                return None;
            },
        };
        let value = match j.str_field("value") {
            Some(v) => v,
            None => {
                return None;
            },
        };
        Some(Attribute { index, key: key.to_owned(), value: value.to_owned() })
    }
}

/// Reads the attributes of an event from the items of a JSON array.
fn attributes_from_json(items: &Vec<Json>) -> (r: Option<Vec<Attribute>>)
    ensures
        match r {
            Some(a) => attributes_of_json(items_view(items@)) == Some(attribute_views(a@)),
            None => attributes_of_json(items_view(items@)) is None,
        },
{
    let ghost trees = items_view(items@);
    let mut out: Vec<Attribute> = Vec::new();
    let mut i: usize = 0;
    while i < items.len()
        invariant
            i <= items@.len(),
            trees == items_view(items@),
            attributes_of_json(trees.take(i as int)) == Some(attribute_views(out@)),
        decreases items@.len() - i,
    {
        proof {
            assert(trees.take(i + 1).drop_last() =~= trees.take(i as int));
            assert(trees.take(i + 1).last() == items@[i as int]@);
        }
        match Attribute::from_json(&items[i]) {
            Some(a) => {
                let ghost before = attribute_views(out@);
                out.push(a);
                assert(attribute_views(out@) =~= before.push(a@));
            },
            None => {
                proof {
                    lemma_attributes_prefix(trees, i + 1);
                }
                return None;
            },
        }
        i += 1;
    }
    assert(trees.take(i as int) =~= trees);
    Some(out)
}

/// If a prefix of the items does not denote attributes, the items do not.
proof fn lemma_attributes_prefix(items: Seq<JsonTree>, n: int)
    requires
        0 <= n <= items.len(),
        attributes_of_json(items.take(n)) is None,
    ensures
        attributes_of_json(items) is None,
    decreases items.len() - n,
{
    if n < items.len() {
        assert(items.take(n + 1).drop_last() =~= items.take(n));
        lemma_attributes_prefix(items, n + 1);
    } else {
        assert(items.take(n) =~= items);
    }
}

/// If a prefix of the items does not denote events, the items do not.
proof fn lemma_events_prefix(items: Seq<JsonTree>, n: int)
    requires
        0 <= n <= items.len(),
        events_of_json(items.take(n)) is None,
    ensures
        events_of_json(items) is None,
    decreases items.len() - n,
{
    if n < items.len() {
        assert(items.take(n + 1).drop_last() =~= items.take(n));
        lemma_events_prefix(items, n + 1);
    } else {
        assert(items.take(n) =~= items);
    }
}

impl Event {
    /// Reads an event from a JSON object.
    pub fn from_json(j: &Json) -> (r: Option<Event>)
        ensures
            match r {
                Some(e) => event_of_json(j@) == Some(e@),
                None => event_of_json(j@) is None,
            },
    {
        let items = match j.field("attributes") {
            Some(a) => match a.as_array() {
                Some(items) => items,
                None => {
                    return None;
                },
            },
            None => {
                return None;
            },
        };
        let event_type = match j.str_field("type") {
            Some(v) => v,
            None => {
                return None;
            },
        };
        match attributes_from_json(items) {
            Some(attributes) => Some(Event { attributes, event_type: event_type.to_owned() }),
            None => None,
        }
    }
}

/// Reads events from the items of a JSON array.
pub fn events_from_json(items: &Vec<Json>) -> (r: Option<Vec<Event>>)
    ensures
        match r {
            Some(e) => events_of_json(items_view(items@)) == Some(event_views(e@)),
            None => events_of_json(items_view(items@)) is None,
        },
{
    let ghost trees = items_view(items@);
    let mut out: Vec<Event> = Vec::new();
    let mut i: usize = 0;
    while i < items.len()
        invariant
            i <= items@.len(),
            trees == items_view(items@),
            events_of_json(trees.take(i as int)) == Some(event_views(out@)),
        decreases items@.len() - i,
    {
        proof {
            assert(trees.take(i + 1).drop_last() =~= trees.take(i as int));
            assert(trees.take(i + 1).last() == items@[i as int]@);
        }
        match Event::from_json(&items[i]) {
            Some(e) => {
                let ghost before = event_views(out@);
                out.push(e);
                assert(event_views(out@) =~= before.push(e@));
            },
            None => {
                proof {
                    lemma_events_prefix(trees, i + 1);
                }
                return None;
            },
        }
        i += 1;
    }
    assert(trees.take(i as int) =~= trees);
    Some(out)
}

impl TxResultInner {
    /// Reads the outcome of a transaction from a JSON object.
    pub fn from_json(j: &Json) -> (r: Option<TxResultInner>)
        ensures
            match r {
                Some(t) => {
                    &&& outcome_events(j@) == Some(event_views(t.events@))
                    &&& j@.str_field("data"@) == Some(t.data@)
                    &&& j@.str_field("gas_wanted"@) == Some(t.gas_wanted@)
                    &&& j@.str_field("gas_used"@) == Some(t.gas_used@)
                },
                None => outcome_events(j@) is None,
            },
    {
        let data = match j.str_field("data") {
            Some(v) => v,
            None => {
                return None;
            },
        };
        let gas_wanted = match j.str_field("gas_wanted") {
            Some(v) => v,
            None => {
                return None;
            },
        };
        let gas_used = match j.str_field("gas_used") {
            Some(v) => v,
            None => {
                return None;
            },
        };
        let items = match j.field("events") {
            Some(a) => match a.as_array() {
                Some(items) => items,
                None => {
                    return None;
                },
            },
            None => {
                return None;
            },
        };
        match events_from_json(items) {
            Some(events) => Some(
                TxResultInner {
                    data: data.to_owned(),
                    gas_wanted: gas_wanted.to_owned(),
                    gas_used: gas_used.to_owned(),
                    events,
                },
            ),
            None => None,
        }
    }
}

impl TxResult {
    /// Reads a transaction of a frame from a JSON object.
    pub fn from_json(j: &Json) -> (r: Option<TxResult>)
        ensures
            match r {
                Some(t) => {
                    &&& tx_result_events(j@) == Some(event_views(t.result.events@))
                    &&& j@.str_field("height"@) == Some(t.height@)
                    &&& j@.str_field("tx"@) == Some(t.tx@)
                },
                None => tx_result_events(j@) is None,
            },
    {
        let height = match j.str_field("height") {
            Some(v) => v,
            None => {
                return None;
            },
        };
        let tx = match j.str_field("tx") {
            Some(v) => v,
            None => {
                return None;
            },
        };
        let outcome = match j.field("result") {
            Some(v) => v,
            None => {
                return None;
            },
        };
        match TxResultInner::from_json(outcome) {
            Some(result) => Some(TxResult { height: height.to_owned(), tx: tx.to_owned(), result }),
            None => None,
        }
    }
}

impl WebSocketMessage {
    /// Reads a frame of the event stream from a JSON object.
    pub fn from_json(j: &Json) -> (r: Option<WebSocketMessage>)
        ensures
            match r {
                Some(m) => {
                    &&& frame_events(j@) == Some(
                        event_views(m.result.data.value.tx_result.result.events@),
                    )
                    &&& j@.str_field("id"@) == Some(m.id@)
                    &&& j@.str_field("jsonrpc"@) == Some(m.jsonrpc@)
                    &&& j@.field("result"@)->0.str_field("query"@) == Some(m.result.query@)
                    &&& j@.field("result"@)->0.field("data"@)->0.str_field("type"@) == Some(
                        m.result.data.data_type@,
                    )
                },
                None => frame_events(j@) is None,
            },
    {
        let id = match j.str_field("id") {
            Some(v) => v,
            None => {
                return None;
            },
        };
        let jsonrpc = match j.str_field("jsonrpc") {
            Some(v) => v,
            None => {
                return None;
            },
        };
        let result = match j.field("result") {
            Some(v) => v,
            None => {
                return None;
            },
        };
        let query = match result.str_field("query") {
            Some(v) => v,
            None => {
                return None;
            },
        };
        let data = match result.field("data") {
            Some(v) => v,
            None => {
                return None;
            },
        };
        let data_type = match data.str_field("type") {
            Some(v) => v,
            None => {
                return None;
            },
        };
        let value = match data.field("value") {
            Some(v) => v,
            None => {
                return None;
            },
        };
        let tx_json = match value.field("TxResult") {
            Some(v) => v,
            None => {
                return None;
            },
        };
        match TxResult::from_json(tx_json) {
            Some(tx_result) => Some(
                WebSocketMessage {
                    id: id.to_owned(),
                    jsonrpc: jsonrpc.to_owned(),
                    result: WsResult {
                        query: query.to_owned(),
                        data: Data { data_type: data_type.to_owned(), value: TxValue { tx_result } },
                    },
                },
            ),
            None => None,
        }
    }
}

/// The events of the given type among `events`, in their order.
pub fn filter_events(events: &Vec<Event>, event_name: &str) -> (r: Vec<Event>)
    ensures
        event_views(r@) == events_named(event_views(events@), event_name@),
{
    let ghost views = event_views(events@);
    let mut out: Vec<Event> = Vec::new();
    let mut i: usize = 0;
    while i < events.len()
        invariant
            i <= events@.len(),
            views == event_views(events@),
            event_views(out@) == events_named(views.take(i as int), event_name@),
        decreases events@.len() - i,
    {
        proof {
            assert(views.take(i + 1).drop_last() =~= views.take(i as int));
            assert(views.take(i + 1).last() == events@[i as int]@);
        }
        if str_equal(events[i].event_type.as_str(), event_name) {
            let ghost before = event_views(out@);
            out.push(events[i].clone());
            assert(event_views(out@) =~= before.push(events@[i as int]@));
        }
        i += 1;
    }
    assert(views.take(i as int) =~= views);
    out
}

/// The events of the given type that a frame of the event stream carries.
pub fn extract_events(msg: &str, event_name: &str) -> (r: Result<Vec<Event>, CosmosError>)
    ensures
        match r {
            Ok(events) => extracted_events(msg@, event_name@) == Ok::<
                Seq<EventView>,
                CosmosError,
            >(event_views(events@)),
            Err(e) => extracted_events(msg@, event_name@) == Err::<Seq<EventView>, CosmosError>(e),
        },
{
    let j = match Json::parse(msg) {
        Some(j) => j,
        None => {
            return Err(CosmosError::Json);
        },
    };
    match WebSocketMessage::from_json(&j) {
        Some(m) => Ok(filter_events(&m.result.data.value.tx_result.result.events, event_name)),
        None => Err(CosmosError::Frame),
    }
}

/// The value of the first attribute with the given key, or the empty text.
pub fn find_attribute(event: &Event, key: &str) -> (r: String)
    ensures
        r@ == attribute_value(event@.attributes, key@),
{
    let ghost views = event@.attributes;
    assert(views.skip(0) =~= views);
    let mut i: usize = 0;
    while i < event.attributes.len()
        invariant
            i <= event.attributes@.len(),
            views == attribute_views(event.attributes@),
            attribute_value(views, key@) == attribute_value(views.skip(i as int), key@),
        decreases event.attributes@.len() - i,
    {
        proof {
            assert(views.skip(i as int)[0] == event.attributes@[i as int]@);
            assert(views.skip(i as int).skip(1) =~= views.skip(i + 1));
        }
        if str_equal(event.attributes[i].key.as_str(), key) {
            return event.attributes[i].value.clone();
        }
        i += 1;
    }
    String::new()
}

/// Reads an unsigned number that the node gives as a string two levels
/// down.
fn read_nested_number(j: &Json, outer: &str, inner: &str) -> (r: Option<Option<u64>>)
    ensures
        r == nested_number(j@, outer@, inner@),
{
    match j.field(outer) {
        Some(o) => match o.str_field(inner) {
            Some(text) => Some(parse_u64(text)),
            None => None,
        },
        None => None,
    }
}

/// The account number and the sequence in the node's account answer.
pub fn get_account_info(resp: &Json) -> (r: Result<(u64, u64), CosmosError>)
    ensures
        r == account_info_of(resp@),
{
    let number = match read_nested_number(resp, "account", "account_number") {
        None => {
            return Err(CosmosError::AccountNumberMissing);
        },
        Some(None) => {
            return Err(CosmosError::AccountNumberInvalid);
        },
        Some(Some(n)) => n,
    };
    match read_nested_number(resp, "account", "sequence") {
        None => Err(CosmosError::SequenceMissing),
        Some(None) => Err(CosmosError::SequenceInvalid),
        Some(Some(sequence)) => Ok((number, sequence)),
    }
}

/// The height in the node's block answer.
pub fn get_latest_block_height(resp: &Json) -> (r: Result<u64, CosmosError>)
    ensures
        r == block_height_of(resp@),
{
    let result = match resp.field("result") {
        Some(v) => v,
        None => {
            return Err(CosmosError::HeightMissing);
        },
    };
    let block = match result.field("block") {
        Some(v) => v,
        None => {
            return Err(CosmosError::HeightMissing);
        },
    };
    let header = match block.field("header") {
        Some(v) => v,
        None => {
            return Err(CosmosError::HeightMissing);
        },
    };
    match header.str_field("height") {
        Some(text) => match parse_u64(text) {
            Some(h) => Ok(h),
            None => Err(CosmosError::HeightInvalid),
        },
        None => Err(CosmosError::HeightMissing),
    }
}

/// The body with which a signed transaction is handed to the node.
pub fn send_transaction_body(tx_bytes: &[u8]) -> (r: Json)
    requires
        tx_bytes@.len() <= usize::MAX / 2,
    ensures
        r@ == broadcast_body(tx_bytes@),
{
    let mut fields: Vec<(String, Json)> = Vec::new();
    fields.push(("tx_bytes".to_owned(), Json::Str(base64_encode(tx_bytes))));
    fields.push(("mode".to_owned(), Json::Str(crate::util::carbon::tx::BROADCAST_MODE.to_owned())));
    let r = Json::object(fields);
    proof {
        reveal_with_fuel(crate::json::tree_of, 2);
        assert(r@->Object_0 =~= broadcast_body(tx_bytes@)->Object_0);
    }
    r
}

/// Whether the node took a transaction: its answer carries code zero.
pub fn send_transaction(resp: &Json) -> (r: Result<(), CosmosError>)
    ensures
        r == tx_response_of(resp@),
{
    let response = match resp.field("tx_response") {
        Some(v) => v,
        None => {
            return Err(CosmosError::CodeMissing);
        },
    };
    let code = match response.field("code") {
        Some(v) => v,
        None => {
            return Err(CosmosError::CodeMissing);
        },
    };
    match code.as_i64() {
        Some(c) => {
            if c == 0 {
                Ok(())
            } else {
                Err(CosmosError::TxFailed)
            }
        },
        None => Err(CosmosError::CodeMissing),
    }
}

} // verus!
