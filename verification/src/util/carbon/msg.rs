//! The two messages that the relayer sends to the hub.

use crate::switcheo::carbon::bridge;
use vstd::prelude::*;

verus! {

/// Claims the relay of the pending action `nonce` for `relayer`.
#[derive(Debug, PartialEq, Eq)]
pub struct MsgStartRelay {
    pub relayer: String,
    pub nonce: u64,
}

/// Asks the hub to prune the expired pending actions `nonces`.
#[derive(Debug, PartialEq, Eq)]
pub struct MsgPruneExpiredPendingActions {
    pub creator: String,
    pub nonces: Vec<u64>,
}

/// The type URL under which a message of the bridge module travels.
pub open spec fn type_url_of(name: Seq<char>) -> Seq<char> {
    "/Switcheo.carbon.bridge."@ + name
}

/// The type URL under which a message of the bridge module travels.
pub fn type_url(name: &str) -> (r: String)
    ensures
        r@ == type_url_of(name@),
{
    let mut url = "/Switcheo.carbon.bridge.".to_owned();
    url.append(name);
    url
}

/// Copies a list of nonces.
fn copy_nonces(nonces: &Vec<u64>) -> (r: Vec<u64>)
    ensures
        r@ == nonces@,
{
    let mut out: Vec<u64> = Vec::new();
    let mut i: usize = 0;
    while i < nonces.len()
        invariant
            i <= nonces@.len(),
            out@ == nonces@.take(i as int),
        decreases nonces@.len() - i,
    {
        out.push(nonces[i]);
        assert(out@ =~= nonces@.take(i + 1));
        i += 1;
    }
    assert(nonces@.take(i as int) =~= nonces@);
    out
}

impl MsgStartRelay {
    /// The message's type URL.
    pub fn type_url() -> (r: String)
        ensures
            r@ == type_url_of("MsgStartRelay"@),
    {
        type_url("MsgStartRelay")
    }

    /// The message that a wire record denotes.
    pub fn try_from(proto: &bridge::MsgStartRelay) -> (r: MsgStartRelay)
        ensures
            r.relayer@ == proto.relayer@,
            r.nonce == proto.nonce,
    {
        MsgStartRelay { relayer: proto.relayer.clone(), nonce: proto.nonce }
    }

    /// The wire record of the message.
    pub fn to_proto(&self) -> (r: bridge::MsgStartRelay)
        ensures
            r.relayer@ == self.relayer@,
            r.nonce == self.nonce,
    {
        bridge::MsgStartRelay { relayer: self.relayer.clone(), nonce: self.nonce }
    }
}

impl MsgPruneExpiredPendingActions {
    /// The message's type URL.
    pub fn type_url() -> (r: String)
        ensures
            r@ == type_url_of("MsgPruneExpiredPendingActions"@),
    {
        type_url("MsgPruneExpiredPendingActions")
    }

    /// The message that a wire record denotes.
    pub fn try_from(proto: &bridge::MsgPruneExpiredPendingActions) -> (r:
        MsgPruneExpiredPendingActions)
        ensures
            r.creator@ == proto.creator@,
            r.nonces@ == proto.nonces@,
    {
        MsgPruneExpiredPendingActions {
            creator: proto.creator.clone(),
            nonces: copy_nonces(&proto.nonces),
        }
    }

    /// The wire record of the message.
    pub fn to_proto(&self) -> (r: bridge::MsgPruneExpiredPendingActions)
        ensures
            r.creator@ == self.creator@,
            r.nonces@ == self.nonces@,
    {
        bridge::MsgPruneExpiredPendingActions {
            creator: self.creator.clone(),
            nonces: copy_nonces(&self.nonces),
        }
    }
}

} // verus!
