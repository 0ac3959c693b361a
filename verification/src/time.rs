//! Points in time and their calendar text, which chrono writes.

use vstd::prelude::*;

verus! {

/// A point in time: the seconds since 1970-01-01 00:00:00, leap seconds not
/// counted, and the nanoseconds since the last whole second.
#[derive(Clone, Copy, Debug, PartialEq, Eq, Structural)]
pub struct Timestamp {
    pub secs: i64,
    pub nanos: u32,
}

/// The text chrono writes for the calendar date and time of day at `secs`
/// seconds and `nanos` nanoseconds since 1970-01-01 00:00:00, or `None`
/// where chrono has no date for them.
pub uninterp spec fn naive_datetime_text(secs: i64, nanos: u32) -> Option<Seq<char>>;

/// chrono's `DateTime::from_timestamp`, and for the date and time it gives,
/// the `Display` text of its `naive_utc()`. The contract claims only that the
/// outcome is a function of the two numbers; it gives that function a name.
#[verifier::external_body]
fn calendar_text(secs: i64, nanos: u32) -> (out: Option<String>)
    ensures
        match out {
            Some(text) => naive_datetime_text(secs, nanos) == Some(text@),
            None => naive_datetime_text(secs, nanos) is None,
        },
{
    match chrono::DateTime::from_timestamp(secs, nanos) {
        Some(at) => Some(at.naive_utc().to_string()),
        None => None,
    }
}

/// The text of a point in time: its calendar date and time of day, or the
/// empty text where the calendar has no date for it.
pub open spec fn time_text(at: Timestamp) -> Seq<char> {
    match naive_datetime_text(at.secs, at.nanos) {
        Some(text) => text,
        None => Seq::empty(),
    }
}

/// The calendar text of `at`, given the outcome of asking the calendar.
pub fn text_or_blank(asked: Option<String>) -> (out: String)
    ensures
        out@ == match asked {
            Some(text) => text@,
            None => Seq::<char>::empty(),
        },
{
    match asked {
        Some(text) => text,
        None => String::new(),
    }
}

impl Timestamp {
    /// A point in time from its seconds and nanoseconds.
    pub fn new(secs: i64, nanos: u32) -> (out: Timestamp)
        ensures
            out == (Timestamp { secs, nanos }),
    {
        Timestamp { secs, nanos }
    }

    /// The calendar text of this point in time, empty where the calendar has
    /// no date for it.
    pub fn text(&self) -> (out: String)
        ensures
            out@ == time_text(*self),
    {
        text_or_blank(calendar_text(self.secs, self.nanos))
    }
}

} // verus!
