//! Points in time as the hub reports them, their order, their RFC 3339
//! text, and a rough wording for the distance between two of them.

use vstd::prelude::*;

verus! {

/// Seconds since the Unix epoch and nanoseconds within that second.
#[derive(Clone, Copy, Debug, PartialEq, Eq, Structural)]
pub struct Timestamp {
    pub seconds: i64,
    pub nanos: i32,
}

/// The point in time that an RFC 3339 text denotes, as seconds and
/// nanoseconds, if the text is well formed.
pub uninterp spec fn rfc3339_parsed(text: Seq<char>) -> Option<(i64, i32)>;

/// The RFC 3339 text of a point in time given as seconds and nanoseconds,
/// if the calendar can represent it.
pub uninterp spec fn rfc3339_text(seconds: i64, nanos: i32) -> Option<Seq<char>>;

/// The timestamp that an RFC 3339 text denotes.
pub open spec fn timestamp_of_text(text: Seq<char>) -> Option<Timestamp> {
    match rfc3339_parsed(text) {
        Some(p) => Some(Timestamp { seconds: p.0, nanos: p.1 }),
        None => None,
    }
}

/// View of an optional string.
pub open spec fn opt_text(s: Option<String>) -> Option<Seq<char>> {
    match s {
        Some(t) => Some(t@),
        None => None,
    }
}

/// The whole seconds between two instants that lie `nanos` nanoseconds apart.
pub open spec fn whole_seconds(nanos: int) -> nat {
    if nanos < 0 {
        ((-nanos) / 1_000_000_000) as nat
    } else {
        (nanos / 1_000_000_000) as nat
    }
}

/// A rough wording of a distance of `seconds` seconds: the largest unit
/// among days, hours, minutes and seconds of which it holds at least one.
pub open spec fn distance_text(seconds: nat) -> Seq<char> {
    if seconds / 86400 > 0 {
        "~ "@ + crate::decimal::decimal_text(seconds / 86400) + " days"@
    } else if seconds / 3600 > 0 {
        "~ "@ + crate::decimal::decimal_text(seconds / 3600) + " hours"@
    } else if seconds / 60 > 0 {
        "~ "@ + crate::decimal::decimal_text(seconds / 60) + " minutes"@
    } else {
        "~ "@ + crate::decimal::decimal_text(seconds) + " seconds"@
    }
}

impl Timestamp {
    /// Nanoseconds since the Unix epoch.
    pub open spec fn total_nanos(self) -> int {
        self.seconds * 1_000_000_000 + self.nanos
    }

    /// `self` is not later than `other`: seconds first, then nanoseconds.
    pub open spec fn at_or_before(self, other: Timestamp) -> bool {
        self.seconds < other.seconds || (self.seconds == other.seconds && self.nanos
            <= other.nanos)
    }

    /// `self` is earlier than `other`.
    pub open spec fn before(self, other: Timestamp) -> bool {
        self.seconds < other.seconds || (self.seconds == other.seconds && self.nanos < other.nanos)
    }

    pub fn new(seconds: i64, nanos: i32) -> (r: Timestamp)
        ensures
            r.seconds == seconds,
            r.nanos == nanos,
    {
        Timestamp { seconds, nanos }
    }

    pub fn is_at_or_before(&self, other: &Timestamp) -> (r: bool)
        ensures
            r == self.at_or_before(*other),
    {
        self.seconds < other.seconds || (self.seconds == other.seconds && self.nanos
            <= other.nanos)
    }

    pub fn is_before(&self, other: &Timestamp) -> (r: bool)
        ensures
            r == self.before(*other),
    {
        self.seconds < other.seconds || (self.seconds == other.seconds && self.nanos < other.nanos)
    }

    /// Reads an RFC 3339 text.
    pub fn parse(text: &str) -> (r: Option<Timestamp>)
        ensures
            r == timestamp_of_text(text@),
    {
        match parse_rfc3339(text) {
            Some(p) => Some(Timestamp { seconds: p.0, nanos: p.1 }),
            None => None,
        }
    }

    /// The RFC 3339 text of this instant, if the calendar can represent it.
    pub fn to_rfc3339(&self) -> (r: Option<String>)
        ensures
            opt_text(r) == rfc3339_text(self.seconds, self.nanos),
    {
        format_rfc3339(self.seconds, self.nanos)
    }
}

/// Calls `chrono::DateTime::parse_from_rfc3339` and takes the result's
/// `timestamp` and `timestamp_subsec_nanos`. The instant is named, not
/// defined.
#[verifier::external_body]
pub(crate) fn parse_rfc3339(text: &str) -> (r: Option<(i64, i32)>)
    ensures
        r == rfc3339_parsed(text@),
{
    match chrono::DateTime::parse_from_rfc3339(text) {
        Ok(t) => Some((t.timestamp(), t.timestamp_subsec_nanos() as i32)),
        Err(_) => None,
    }
}

/// Calls `chrono::DateTime::from_timestamp`, which refuses what the
/// calendar cannot represent, and `to_rfc3339` on the result. The text is
/// named, not defined.
#[verifier::external_body]
pub(crate) fn format_rfc3339(seconds: i64, nanos: i32) -> (r: Option<String>)
    ensures
        opt_text(r) == rfc3339_text(seconds, nanos),
{
    match u32::try_from(nanos) {
        Ok(n) => chrono::DateTime::from_timestamp(seconds, n).map(|t| t.to_rfc3339()),
        Err(_) => None,
    }
}

/// Words the distance between two instants that lie `nanos` nanoseconds
/// apart, in either direction.
pub fn time_difference_str(nanos: i128) -> (r: String)
    ensures
        r@ == distance_text(whole_seconds(nanos as int)),
{
    let magnitude: u128 = if nanos == i128::MIN {
        0x8000_0000_0000_0000_0000_0000_0000_0000
    } else if nanos < 0 {
        (-nanos) as u128
    } else {
        nanos as u128
    };
    let seconds: u128 = magnitude / 1_000_000_000;
    let mut out = String::from_str("~ ");
    let days = seconds / 86400;
    let hours = seconds / 3600;
    let minutes = seconds / 60;
    if days > 0 {
        crate::decimal::push_decimal_wide(&mut out, days);
        out.append(" days");
    } else if hours > 0 {
        crate::decimal::push_decimal_wide(&mut out, hours);
        out.append(" hours");
    } else if minutes > 0 {
        crate::decimal::push_decimal_wide(&mut out, minutes);
        out.append(" minutes");
    } else {
        crate::decimal::push_decimal_wide(&mut out, seconds);
        out.append(" seconds");
    }
    out
}

} // verus!
