//! The client side of the hub's event stream: the requests that subscribe
//! and the routing of each frame to the subscription it belongs to.

use crate::carbon::listener::{Subscription, SubscriptionKind};
use crate::json::{json_parsed, json_text, Json, JsonTree};
use crate::text::str_equal;
use vstd::prelude::*;

verus! {

/// Seconds to wait before the connection is made again.
pub const RECONNECT_DELAY_SECONDS: u64 = 10;

/// The subscriptions of one connection to the hub's event stream.
#[derive(Debug)]
pub struct JSONWebSocketClient {
    pub url: String,
    pub subscriptions: Vec<Subscription>,
}

/// What is done with a frame.
#[derive(Clone, Copy, Debug, PartialEq, Eq, Structural)]
pub enum FrameAction {
    /// An empty frame, or one without a result: nothing to do.
    Ignore,
    /// The frame is no JSON document.
    Malformed,
    /// The frame belongs to the subscription at this position.
    Dispatch(usize),
    /// The frame names a subscription that the client does not have.
    UnknownSubscription,
    /// The frame names no subscription.
    MissingId,
}

/// The request that subscribes to `query` under the identifier `id`.
pub open spec fn subscribe_request(id: Seq<char>, query: Seq<char>) -> JsonTree {
    JsonTree::Object(
        seq![
            ("jsonrpc"@, JsonTree::Str("2.0"@)),
            ("method"@, JsonTree::Str("subscribe"@)),
            ("id"@, JsonTree::Str(id)),
            ("params"@, JsonTree::Object(seq![("query"@, JsonTree::Str(query))])),
        ],
    )
}

/// The position of the last subscription with the given identifier, which
/// is the one that a later subscription under the same identifier leaves
/// in force.
pub open spec fn subscription_index(subscriptions: Seq<Subscription>, id: Seq<char>) -> Option<int>
    decreases subscriptions.len(),
{
    if subscriptions.len() == 0 {
        None
    } else if subscriptions.last().id@ == id {
        Some(subscriptions.len() - 1)
    } else {
        subscription_index(subscriptions.drop_last(), id)
    }
}

/// Whether a frame carries a result: an object with at least one field
/// under `result`.
pub open spec fn has_result(j: JsonTree) -> bool {
    match j.field("result"@) {
        Some(result) => result.is_filled_object(),
        None => false,
    }
}

/// What is done with a frame of the given text.
pub open spec fn frame_action(text: Seq<char>, subscriptions: Seq<Subscription>) -> FrameAction {
    if text.len() == 0 {
        FrameAction::Ignore
    } else {
        match json_parsed(text) {
            None => FrameAction::Malformed,
            Some(j) => if !has_result(j) {
                FrameAction::Ignore
            } else {
                match j.str_field("id"@) {
                    None => FrameAction::MissingId,
                    Some(id) => match subscription_index(subscriptions, id) {
                        Some(i) => FrameAction::Dispatch(i as usize),
                        None => FrameAction::UnknownSubscription,
                    },
                }
            },
        }
    }
}

/// The position of the subscription that frames named `id` belong to.
pub fn find_subscription(subscriptions: &Vec<Subscription>, id: &str) -> (r: Option<usize>)
    ensures
        match r {
            Some(i) => subscription_index(subscriptions@, id@) == Some(i as int) && i
                < subscriptions@.len(),
            None => subscription_index(subscriptions@, id@) is None,
        },
{
    let mut i: usize = subscriptions.len();
    assert(subscriptions@.take(i as int) =~= subscriptions@);
    while i > 0
        invariant
            i <= subscriptions@.len(),
            subscription_index(subscriptions@, id@) == subscription_index(
                subscriptions@.take(i as int),
                id@,
            ),
        decreases i,
    {
        proof {
            assert(subscriptions@.take(i as int).drop_last() =~= subscriptions@.take(i - 1));
        }
        if str_equal(subscriptions[i - 1].id.as_str(), id) {
            return Some(i - 1);
        }
        i -= 1;
    }
    None
}

/// The text of the request that subscribes to `query` under `id`.
pub fn subscribe_message(id: &str, query: &str) -> (r: String)
    ensures
        r@ == json_text(subscribe_request(id@, query@)),
{
    let mut params: Vec<(String, Json)> = Vec::new();
    params.push(("query".to_owned(), Json::string(query)));
    let mut fields: Vec<(String, Json)> = Vec::new();
    fields.push(("jsonrpc".to_owned(), Json::string("2.0")));
    fields.push(("method".to_owned(), Json::string("subscribe")));
    fields.push(("id".to_owned(), Json::string(id)));
    fields.push(("params".to_owned(), Json::object(params)));
    let request = Json::object(fields);
    proof {
        assert(request@->Object_0[3].1->Object_0 =~= seq![("query"@, JsonTree::Str(query@))]);
        assert(request@->Object_0 =~= subscribe_request(id@, query@)->Object_0);
    }
    request.to_text()
}

impl JSONWebSocketClient {
    /// A client for the stream at `url`, with no subscription yet.
    pub fn new(url: String) -> (r: JSONWebSocketClient)
        ensures
            r.url@ == url@,
            r.subscriptions@.len() == 0,
    {
        JSONWebSocketClient { url, subscriptions: Vec::new() }
    }

    /// Adds a subscription. Frames named `id` belong to it from now on.
    pub fn add_cosmos_subscription(&mut self, id: String, query: String, kind: SubscriptionKind)
        ensures
            final(self).url@ == old(self).url@,
            final(self).subscriptions@.len() == old(self).subscriptions@.len() + 1,
            final(self).subscriptions@.drop_last() == old(self).subscriptions@,
            final(self).subscriptions@.last().id@ == id@,
            final(self).subscriptions@.last().query@ == query@,
            final(self).subscriptions@.last().kind == kind,
            subscription_index(final(self).subscriptions@, id@) == Some(
                old(self).subscriptions@.len() as int,
            ),
    {
        self.subscriptions.push(Subscription { id, query, kind });
        assert(self.subscriptions@.drop_last() =~= old(self).subscriptions@);
    }

    /// Decides what is done with a frame: an empty frame and a frame
    /// without a result are ignored, any other goes to the subscription
    /// that its identifier names.
    pub fn handle_message(&self, text: &str) -> (r: FrameAction)
        ensures
            r == frame_action(text@, self.subscriptions@),
    {
        if text.unicode_len() == 0 {
            return FrameAction::Ignore;
        }
        let j = match Json::parse(text) {
            Some(j) => j,
            None => {
                return FrameAction::Malformed;
            },
        };
        let filled = match j.field("result") {
            Some(result) => result.is_filled_object(),
            None => false,
        };
        if !filled {
            return FrameAction::Ignore;
        }
        match j.str_field("id") {
            None => FrameAction::MissingId,
            Some(id) => match find_subscription(&self.subscriptions, id) {
                Some(i) => FrameAction::Dispatch(i),
                None => FrameAction::UnknownSubscription,
            },
        }
    }
}

} // verus!
