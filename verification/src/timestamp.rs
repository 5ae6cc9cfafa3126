use vstd::prelude::*;

use chrono::{DateTime, Utc};

use crate::model::{Embed, EmbedView};

verus! {

/// An instant: non-leap seconds since the Unix epoch plus the nanoseconds
/// within that second.
#[derive(Clone, Copy, Debug, PartialEq, Eq, Structural)]
pub struct Timestamp {
    pub secs: i64,
    pub nanos: u32,
}

/// Instants in this range render without fail: they lie well inside the
/// range of dates chrono can represent (about a quarter of a million years
/// either way), and their nanosecond part names no leap second.
pub open spec fn instant_in_range(secs: i64, nanos: u32) -> bool {
    -8_000_000_000_000 <= secs <= 8_000_000_000_000 && nanos < 1_000_000_000
}

impl Timestamp {
    pub open spec fn in_range(self) -> bool {
        instant_in_range(self.secs, self.nanos)
    }

    pub fn new(secs: i64, nanos: u32) -> (r: Timestamp)
        ensures
            r == (Timestamp { secs, nanos }),
    {
        Timestamp { secs, nanos }
    }
}

/// The fixed ISO-8601-with-offset rendering of an instant; a function of the
/// instant alone.
pub uninterp spec fn iso8601_of(secs: i64, nanos: u32) -> Seq<char>;

/// Relies on chrono's `DateTime::from_timestamp`, which builds the UTC
/// instant for in-range seconds and nanoseconds and returns `None`
/// otherwise, and on `format` with "%+", whose ISO-8601 rendering depends on
/// the instant alone.
#[verifier::external_body]
fn format_instant(secs: i64, nanos: u32) -> (r: Option<String>)
    ensures
        r matches Some(s) ==> s@ == iso8601_of(secs, nanos),
        instant_in_range(secs, nanos) ==> r is Some,
{
    DateTime::<Utc>::from_timestamp(secs, nanos).map(|dt| dt.format("%+").to_string())
}

/// Relies on chrono's `Utc::now` for the current wall-clock instant,
/// rendered by `format` with "%+" in the same fixed ISO-8601 form; nothing
/// is assumed of the result, which depends on the clock.
#[verifier::external_body]
fn now_iso8601() -> String {
    Utc::now().format("%+").to_string()
}

impl Embed {
    /// Sets the timestamp to the fixed ISO-8601 rendering of the given
    /// instant, or of the current wall-clock time when none is given. An
    /// out-of-range instant that chrono cannot represent leaves the embed
    /// unchanged.
    pub fn set_timestamp(self, timestamp: Option<Timestamp>) -> (r: Embed)
        ensures
            (EmbedView { timestamp: self@.timestamp, ..r@ }) == self@,
            timestamp matches Some(ts) ==> {
                &&& ts.in_range() ==> r@.timestamp == Some(iso8601_of(ts.secs, ts.nanos))
                &&& !ts.in_range() ==> r@.timestamp == Some(iso8601_of(ts.secs, ts.nanos))
                    || r@.timestamp == self@.timestamp
            },
            timestamp is None ==> r@.timestamp is Some,
    {
        let mut this = self;
        match timestamp {
            Some(ts) => {
                match format_instant(ts.secs, ts.nanos) {
                    Some(rendered) => {
                        this.timestamp = Some(rendered);
                    },
                    None => {},
                }
            },
            None => {
                this.timestamp = Some(now_iso8601());
            },
        }
        this
    }
}

} // verus!
