//! Instants on the UTC time line, the clock, and their RFC 3339 text.

use vstd::prelude::*;

verus! {

/// An instant: whole seconds since 1970-01-01T00:00:00Z and the nanoseconds
/// that follow them.
#[derive(Clone, Copy, Debug, PartialEq, Eq, Structural)]
pub struct Timestamp {
    pub secs: i64,
    pub nanos: u32,
}

impl Timestamp {
    /// The instant as one count of nanoseconds since the epoch.
    pub open spec fn as_nanos(self) -> int {
        self.secs * 1_000_000_000 + self.nanos
    }

    /// The instant `seconds` later, as far as the seconds field can hold it.
    pub open spec fn later_by(self, seconds: u32) -> Timestamp {
        Timestamp {
            secs: if self.secs + seconds <= i64::MAX {
                (self.secs + seconds) as i64
            } else {
                i64::MAX
            },
            nanos: self.nanos,
        }
    }

    /// The instant `nanos` nanoseconds after the whole second `secs`.
    pub fn new(secs: i64, nanos: u32) -> (t: Timestamp)
        ensures
            t == (Timestamp { secs, nanos }),
    {
        Timestamp { secs, nanos }
    }

    /// Whether `self` lies at or before `other` on the time line.
    pub fn at_or_before(&self, other: &Timestamp) -> (r: bool)
        ensures
            r == (self.as_nanos() <= other.as_nanos()),
    {
        let a: i128 = self.secs as i128 * 1_000_000_000 + self.nanos as i128;
        let b: i128 = other.secs as i128 * 1_000_000_000 + other.nanos as i128;
        a <= b
    }

    /// Whether `self` lies at or before the instant `seconds` after `other`.
    pub fn at_or_before_after(&self, other: &Timestamp, seconds: u32) -> (r: bool)
        ensures
            r == (self.as_nanos() <= other.as_nanos() + seconds * 1_000_000_000),
    {
        let a: i128 = self.secs as i128 * 1_000_000_000 + self.nanos as i128;
        let b: i128 = (other.secs as i128 + seconds as i128) * 1_000_000_000
            + other.nanos as i128;
        a <= b
    }

    /// The instant `seconds` after `self`; the seconds field stops at its
    /// largest value instead of wrapping.
    pub fn plus_seconds(&self, seconds: u32) -> (t: Timestamp)
        ensures
            t == self.later_by(seconds),
            self.secs + seconds <= i64::MAX ==> t.as_nanos() == self.as_nanos() + seconds
                * 1_000_000_000,
    {
        let secs: i64 = match self.secs.checked_add(seconds as i64) {
            Some(s) => s,
            None => i64::MAX,
        };
        Timestamp { secs, nanos: self.nanos }
    }
}

/// The RFC 3339 text of the instant `secs`, `nanos`, where the calendar of
/// `chrono` can hold that instant; `None` where it cannot.
pub uninterp spec fn rfc3339_text(secs: i64, nanos: u32) -> Option<Seq<char>>;

/// Reads the system clock through `chrono::Utc::now`. Nothing is claimed of
/// the instant that comes back.
#[verifier::external_body]
pub(crate) fn read_clock() -> (t: Timestamp) {
    let now = chrono::Utc::now();
    Timestamp { secs: now.timestamp(), nanos: now.timestamp_subsec_nanos() }
}

/// Builds the `chrono::DateTime<Utc>` of the instant with
/// `DateTime::from_timestamp` and renders it with `DateTime::to_rfc3339`.
/// The contract names the text; it is a function of the two fields alone.
#[verifier::external_body]
pub(crate) fn render_rfc3339(secs: i64, nanos: u32) -> (r: Option<String>)
    ensures
        r.deep_view() == rfc3339_text(secs, nanos),
{
    match chrono::DateTime::from_timestamp(secs, nanos) {
        Some(moment) => Some(moment.to_rfc3339()),
        None => None,
    }
}

} // verus!
