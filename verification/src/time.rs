//! Points in time, their order, and the recency cutoff.

use vstd::prelude::*;

verus! {

/// A point in time on the UTC scale: the whole seconds since the start of
/// 1970, and the nanoseconds into that second. During a leap second the
/// nanoseconds run from one thousand million upwards, within the last
/// second of the minute.
#[derive(Clone, Copy, Debug, PartialEq, Eq)]
pub struct Timestamp {
    pub secs: i64,
    pub nanos: u32,
}

/// The number of seconds in a day.
pub const SECONDS_PER_DAY: i64 = 86_400;

impl Timestamp {
    /// `self` lies strictly before `other`: seconds decide, nanoseconds break
    /// a tie.
    pub open spec fn earlier_than(self, other: Timestamp) -> bool {
        self.secs < other.secs || (self.secs == other.secs && self.nanos < other.nanos)
    }

    /// `self` lies strictly before the instant `days` whole days before
    /// `now`. The cutoff keeps the nanoseconds of `now`.
    pub open spec fn before_cutoff(self, now: Timestamp, days: nat) -> bool {
        let cutoff_secs = now.secs - SECONDS_PER_DAY * days;
        self.secs < cutoff_secs || (self.secs == cutoff_secs && self.nanos < now.nanos)
    }

    /// Whether `self` lies strictly before `other`.
    pub fn is_earlier_than(&self, other: &Timestamp) -> (r: bool)
        ensures
            r == self.earlier_than(*other),
    {
        self.secs < other.secs || (self.secs == other.secs && self.nanos < other.nanos)
    }

    /// Whether `self` lies strictly before the instant `days` whole days
    /// before `now`.
    pub fn is_before_cutoff(&self, now: &Timestamp, days: u32) -> (r: bool)
        ensures
            r == self.before_cutoff(*now, days as nat),
    {
        let cutoff_secs: i128 = now.secs as i128 - 86_400 * (days as i128);
        let secs: i128 = self.secs as i128;
        secs < cutoff_secs || (secs == cutoff_secs && self.nanos < now.nanos)
    }
}

/// A cutoff of zero days is `now` itself.
pub proof fn lemma_cutoff_of_zero_days(t: Timestamp, now: Timestamp)
    ensures
        t.before_cutoff(now, 0) == t.earlier_than(now),
{
}

/// A longer window admits whatever a shorter one admits.
pub proof fn lemma_cutoff_monotone(t: Timestamp, now: Timestamp, fewer: nat, more: nat)
    requires
        fewer <= more,
        !t.before_cutoff(now, fewer),
    ensures
        !t.before_cutoff(now, more),
{
    assert(SECONDS_PER_DAY * fewer <= SECONDS_PER_DAY * more) by (nonlinear_arith)
        requires
            fewer <= more,
    ;
}

/// Trusted: reads the clock with `chrono::Utc::now` and takes the result
/// apart with `DateTime::timestamp` and `DateTime::timestamp_subsec_nanos`.
/// Nothing is claimed of the value: two readings may differ. Like chrono it
/// does not return on a machine whose clock stands before 1970.
#[verifier::external_body]
pub(crate) fn current_time() -> (now: Timestamp) {
    let t = chrono::Utc::now();
    Timestamp { secs: t.timestamp(), nanos: t.timestamp_subsec_nanos() }
}

} // verus!
