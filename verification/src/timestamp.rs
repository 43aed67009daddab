//! Points in time, as whole seconds since the Unix epoch and nanoseconds
//! within the second.

use vstd::prelude::*;

verus! {

/// The number of nanoseconds in a second.
pub const NANOS_PER_SEC: u32 = 1_000_000_000;

/// An instant in UTC.
///
/// `secs` counts the seconds since 1970-01-01T00:00:00Z and leaves leap
/// seconds out; `nanos` counts the nanoseconds past that second. During a leap
/// second `nanos` runs from `1_000_000_000` to `1_999_999_999` within the
/// second before it, so instants are ordered by `secs` first and by `nanos`
/// within the same second.
#[derive(Debug, Clone, Copy, PartialEq, Eq, PartialOrd, Ord)]
pub struct Timestamp {
    pub secs: i64,
    pub nanos: u32,
}

impl Timestamp {
    /// Whether `self` is strictly earlier than `other`.
    pub open spec fn precedes(self, other: Timestamp) -> bool {
        self.secs < other.secs || (self.secs == other.secs && self.nanos < other.nanos)
    }

    /// The instant `nanos` nanoseconds past second `secs`.
    pub fn new(secs: i64, nanos: u32) -> (t: Timestamp)
        ensures
            t == (Timestamp { secs, nanos }),
    {
        Timestamp { secs, nanos }
    }

    /// Whether `self` is strictly earlier than `other`.
    pub fn is_before(&self, other: &Timestamp) -> (b: bool)
        ensures
            b == self.precedes(*other),
    {
        self.secs < other.secs || (self.secs == other.secs && self.nanos < other.nanos)
    }

    /// The current time.
    ///
    /// Reads the clock through `chrono::Utc::now` and takes the result apart
    /// with `DateTime::timestamp` and `DateTime::timestamp_subsec_nanos`.
    /// Claims only what holds of every reading: `now` builds its result from
    /// the time that has passed since the epoch, so the seconds are not
    /// negative and the nanoseconds stay below a full second.
    #[verifier::external_body]
    pub(crate) fn now() -> (t: Timestamp)
        ensures
            0 <= t.secs,
            t.nanos < NANOS_PER_SEC,
    {
        let now = chrono::Utc::now();
        Timestamp { secs: now.timestamp(), nanos: now.timestamp_subsec_nanos() }
    }
}

/// "Earlier than" orders the instants strictly and totally: no instant is
/// earlier than itself, what is earlier than something earlier is earlier,
/// and of two different instants exactly one is the earlier.
pub proof fn lemma_precedes_is_a_strict_total_order(a: Timestamp, b: Timestamp, c: Timestamp)
    ensures
        !a.precedes(a),
        a.precedes(b) && b.precedes(c) ==> a.precedes(c),
        !(a.precedes(b) && b.precedes(a)),
        a.precedes(b) || b.precedes(a) || a == b,
{
}

} // verus!
