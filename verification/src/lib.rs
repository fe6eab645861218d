//! The logic of a relayer between a Cosmos hub and EVM chains that a
//! message-passing gateway connects.
//!
//! The relayer watches the hub for pending actions, decides whether the
//! fee that rides on each is worth the relay, asks the hub to start the
//! relay, watches the destination chains for the gateway's approval of the
//! call, and executes the approved call there. This crate holds what the
//! relayer decides and computes on the way, each function with a contract
//! that Verus checks; connections, clocks and keys are the caller's.
//!
//! - `db` holds the rows of the event store, and `db::store` the store
//!   itself with its invariants.
//! - `carbon` holds the hub pipeline: live events, retries and expiry.
//! - `evm` holds the destination pipeline: log selections, the broadcast
//!   worker and its gas escalation.
//! - `fee` holds the fee policy.
//! - `util` and `ws` read what the hub says; `operational` serves the
//!   operator's one-off requests.
//! - `text`, `decimal`, `codec` and `json` are the ground the rest stands
//!   on: strings, numbers as text, byte encodings and JSON documents.

pub mod carbon;
pub mod codec;
pub mod conf;
pub mod constants;
pub mod db;
pub mod decimal;
pub mod evm;
pub mod fee;
pub mod json;
pub mod operational;
pub mod switcheo;
pub mod text;
pub mod util;
pub mod ws;
