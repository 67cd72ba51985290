//! Instants and intervals with nanosecond resolution.
use vstd::prelude::*;

verus! {

/// Nanoseconds in one second.
pub const NANOS_PER_SEC: i128 = 1_000_000_000;

/// A point in time, counted in nanoseconds since the Unix epoch,
/// 1970-01-01T00:00:00Z; negative before it.
#[derive(Clone, Copy, Debug, PartialEq, Eq, Structural)]
pub struct Timestamp {
    pub nanos: i128,
}

/// A non-negative span of time, counted in nanoseconds.
#[derive(Clone, Copy, Debug, PartialEq, Eq, Structural)]
pub struct Interval {
    pub nanos: u128,
}

/// The current time as the system clock tells it: seconds since the epoch
/// and nanoseconds within the second.
///
/// Trusted: `chrono::Utc::now`, read through `DateTime::timestamp` and
/// `DateTime::timestamp_subsec_nanos`. Nothing is said of the time itself;
/// the clock yields nanoseconds below one second. The call fails only
/// where the system clock is set before 1970.
#[verifier::external_body]
fn utc_now() -> (r: (i64, u32))
    ensures
        r.1 < NANOS_PER_SEC,
{
    let now = chrono::Utc::now();
    (now.timestamp(), now.timestamp_subsec_nanos())
}

/// The date and time of an instant in UTC, to the millisecond, as RFC 3339
/// writes them, with `Z` for the offset; nothing where the calendar does
/// not reach that far.
pub uninterp spec fn rfc3339_millis(secs: i64, subsec_nanos: u32) -> Option<Seq<char>>;

/// Writes an instant as date and time.
///
/// Trusted: `chrono::DateTime::from_timestamp` and
/// `DateTime::to_rfc3339_opts` with millisecond precision and `Z`; the
/// text is computed from the two numbers alone.
#[verifier::external_body]
fn format_rfc3339_millis(secs: i64, subsec_nanos: u32) -> (r: Option<String>)
    ensures
        match r {
            Some(text) => rfc3339_millis(secs, subsec_nanos) == Some(text@),
            None => rfc3339_millis(secs, subsec_nanos) is None,
        },
{
    chrono::DateTime::from_timestamp(secs, subsec_nanos).map(
        |at| at.to_rfc3339_opts(chrono::SecondsFormat::Millis, true),
    )
}

impl Timestamp {
    /// The whole seconds of the instant since the epoch, rounded down.
    pub open spec fn unix_secs(self) -> int {
        self.nanos as int / NANOS_PER_SEC as int
    }

    /// The nanoseconds of the instant since its last whole second.
    pub open spec fn unix_subsec_nanos(self) -> int {
        self.nanos as int % NANOS_PER_SEC as int
    }

    /// The instant as date and time in UTC, as RFC 3339 writes them, to the
    /// millisecond; nothing where its seconds do not fit in 64 bits or the
    /// calendar does not reach that far.
    pub open spec fn spec_to_rfc3339(self) -> Option<Seq<char>> {
        if self.in_clock_range() {
            rfc3339_millis(self.unix_secs() as i64, self.unix_subsec_nanos() as u32)
        } else {
            None
        }
    }

    /// The instant as whole seconds since the epoch and nanoseconds within
    /// the second, or `None` if the seconds do not fit in 64 bits.
    pub fn to_unix(&self) -> (r: Option<(i64, u32)>)
        ensures
            r == if self.in_clock_range() {
                Some((self.unix_secs() as i64, self.unix_subsec_nanos() as u32))
            } else {
                None
            },
    {
        if self.nanos < i64::MIN as i128 * NANOS_PER_SEC || self.nanos >= (i64::MAX as i128 + 1)
            * NANOS_PER_SEC {
            return None;
        }
        if self.nanos >= 0 {
            Some(((self.nanos / NANOS_PER_SEC) as i64, (self.nanos % NANOS_PER_SEC) as u32))
        } else {
            let below: i128 = -(self.nanos + 1);
            let secs: i128 = -(below / NANOS_PER_SEC) - 1;
            let subsec: i128 = NANOS_PER_SEC - 1 - below % NANOS_PER_SEC;
            Some((secs as i64, subsec as u32))
        }
    }

    /// The instant as date and time in UTC, as RFC 3339 writes them, to the
    /// millisecond.
    pub fn to_rfc3339(&self) -> (r: Option<String>)
        ensures
            match r {
                Some(text) => self.spec_to_rfc3339() == Some(text@),
                None => self.spec_to_rfc3339() is None,
            },
    {
        match self.to_unix() {
            Some((secs, subsec_nanos)) => format_rfc3339_millis(secs, subsec_nanos),
            None => None,
        }
    }

    /// The instant can stand for a reading of the clock: it lies within the
    /// seconds that 64 bits can count.
    pub open spec fn in_clock_range(self) -> bool {
        i64::MIN * NANOS_PER_SEC <= self.nanos < (i64::MAX + 1) * NANOS_PER_SEC
    }

    /// The instant `subsec_nanos` nanoseconds after the second `secs` of the
    /// Unix epoch.
    pub fn from_unix(secs: i64, subsec_nanos: u32) -> (r: Timestamp)
        ensures
            r.nanos == secs * NANOS_PER_SEC + subsec_nanos,
    {
        Timestamp { nanos: secs as i128 * NANOS_PER_SEC + subsec_nanos as i128 }
    }

    /// The current time. Two calls may give any two instants; each lies
    /// within the seconds that 64 bits can count.
    pub fn now() -> (r: Timestamp)
        ensures
            r.in_clock_range(),
    {
        let (secs, subsec_nanos) = utc_now();
        Timestamp::from_unix(secs, subsec_nanos)
    }

    /// Whether `self` lies at or after `other`.
    pub fn is_at_or_after(&self, other: &Timestamp) -> (r: bool)
        ensures
            r == (self.nanos >= other.nanos),
    {
        self.nanos >= other.nanos
    }

    /// The instant `secs` seconds away from `self`, or `None` when it lies
    /// beyond what an instant can hold.
    pub fn checked_add_secs(&self, secs: i64) -> (r: Option<Timestamp>)
        ensures
            r == if i128::MIN <= self.nanos + secs * NANOS_PER_SEC <= i128::MAX {
                Some(Timestamp { nanos: (self.nanos + secs * NANOS_PER_SEC) as i128 })
            } else {
                None
            },
    {
        let span: i128 = secs as i128 * NANOS_PER_SEC;
        match self.nanos.checked_add(span) {
            Some(nanos) => Some(Timestamp { nanos }),
            None => None,
        }
    }

    /// The instant `secs` seconds away from `self`, which has to lie within
    /// what an instant can hold.
    pub fn add_secs(&self, secs: i64) -> (r: Timestamp)
        requires
            i128::MIN <= self.nanos + secs * NANOS_PER_SEC <= i128::MAX,
        ensures
            r.nanos == self.nanos + secs * NANOS_PER_SEC,
    {
        let span: i128 = secs as i128 * NANOS_PER_SEC;
        Timestamp { nanos: self.nanos + span }
    }

    /// The time from `earlier` to `self`; zero when `self` is not later.
    pub fn saturating_since(&self, earlier: &Timestamp) -> (r: Interval)
        ensures
            r.nanos == if self.nanos >= earlier.nanos {
                self.nanos - earlier.nanos
            } else {
                0
            },
    {
        if self.nanos <= earlier.nanos {
            Interval { nanos: 0 }
        } else if earlier.nanos >= 0 {
            Interval { nanos: (self.nanos - earlier.nanos) as u128 }
        } else if self.nanos < 0 {
            Interval { nanos: (self.nanos - earlier.nanos) as u128 }
        } else {
            let below: u128 = (-(earlier.nanos + 1)) as u128 + 1;
            Interval { nanos: self.nanos as u128 + below }
        }
    }
}

impl Interval {
    /// An interval of whole seconds.
    pub fn from_secs(secs: u64) -> (r: Interval)
        ensures
            r.nanos == secs * NANOS_PER_SEC,
    {
        Interval { nanos: secs as u128 * 1_000_000_000u128 }
    }

    /// The longer of two intervals.
    pub fn max(self, other: Interval) -> (r: Interval)
        ensures
            r.nanos == if other.nanos > self.nanos {
                other.nanos
            } else {
                self.nanos
            },
    {
        if other.nanos > self.nanos {
            other
        } else {
            self
        }
    }

    /// The whole seconds of the interval.
    pub fn as_secs(&self) -> (r: u128)
        ensures
            r == self.nanos / (NANOS_PER_SEC as u128),
    {
        self.nanos / 1_000_000_000u128
    }

    /// The nanoseconds of the interval beyond its whole seconds.
    pub fn subsec_nanos(&self) -> (r: u32)
        ensures
            r == self.nanos % (NANOS_PER_SEC as u128),
    {
        (self.nanos % 1_000_000_000u128) as u32
    }
}

} // verus!
