//! Instants as UTC Unix time (whole seconds and a nanosecond part), spans of
//! time, and the arithmetic that the service does on them.
use vstd::prelude::*;

verus! {

/// Seconds of the earliest instant that a UTC date-time can hold
/// (`-262143-01-01T00:00:00Z`).
pub const MIN_TIMESTAMP_SECS: i64 = -8_334_601_228_800;

/// Seconds of the latest instant that a UTC date-time can hold
/// (`+262142-12-31T23:59:59.999999999Z`).
pub const MAX_TIMESTAMP_SECS: i64 = 8_210_266_876_799;

/// Nanoseconds in one second.
pub const NANOS_PER_SEC: u32 = 1_000_000_000;

/// An instant in UTC: `secs` whole seconds since 1970-01-01T00:00:00Z plus
/// `nanos` nanoseconds.
#[derive(Clone, Copy, Debug, PartialEq, Eq, Structural)]
pub struct Timestamp {
    pub secs: i64,
    pub nanos: u32,
}

impl Timestamp {
    /// The instant lies in the range of UTC date-times and its nanosecond part
    /// is below one second.
    pub open spec fn wf(self) -> bool {
        &&& MIN_TIMESTAMP_SECS <= self.secs <= MAX_TIMESTAMP_SECS
        &&& self.nanos < NANOS_PER_SEC
    }

    /// Nanoseconds since the Unix epoch.
    pub open spec fn total_nanos(self) -> int {
        self.secs * 1_000_000_000 + self.nanos
    }

    /// The instant with these parts, or `None` where they do not make a
    /// well-formed instant.
    pub fn from_parts(secs: i64, nanos: u32) -> (r: Option<Timestamp>)
        ensures
            r is Some <==> (Timestamp { secs, nanos }).wf(),
            r matches Some(t) ==> t == (Timestamp { secs, nanos }),
    {
        if MIN_TIMESTAMP_SECS <= secs && secs <= MAX_TIMESTAMP_SECS && nanos < NANOS_PER_SEC {
            Some(Timestamp { secs, nanos })
        } else {
            None
        }
    }

    /// The instant `secs` seconds before this one (`DateTime - TimeDelta`).
    pub fn minus_seconds(self, secs: i64) -> (r: Timestamp)
        requires
            self.wf(),
            MIN_TIMESTAMP_SECS <= self.secs - secs <= MAX_TIMESTAMP_SECS,
        ensures
            r.wf(),
            r == (Timestamp { secs: (self.secs - secs) as i64, nanos: self.nanos }),
            r.total_nanos() == self.total_nanos() - secs * 1_000_000_000,
    {
        Timestamp { secs: self.secs - secs, nanos: self.nanos }
    }
}

/// `d / 1_000_000_000` rounded toward zero: the whole seconds in a span of
/// `d` nanoseconds, as `TimeDelta::num_seconds` counts them.
pub open spec fn whole_seconds(d: int) -> int {
    if d >= 0 {
        d / 1_000_000_000
    } else {
        -((-d) / 1_000_000_000)
    }
}

/// The whole seconds from `earlier` to `later`, negative where `later` comes
/// first (`later.signed_duration_since(earlier).num_seconds()`).
pub open spec fn seconds_between(later: Timestamp, earlier: Timestamp) -> int {
    whole_seconds(later.total_nanos() - earlier.total_nanos())
}

proof fn lemma_div_by_parts(x: int, q: int, r: int)
    requires
        x == q * 1_000_000_000 + r,
        0 <= r < 1_000_000_000,
    ensures
        x / 1_000_000_000 == q,
{
}

/// The whole seconds from `earlier` to `later`, rounded toward zero.
pub fn seconds_since(later: Timestamp, earlier: Timestamp) -> (r: i64)
    requires
        later.wf(),
        earlier.wf(),
    ensures
        r == seconds_between(later, earlier),
{
    let mut secs: i64 = later.secs - earlier.secs;
    let mut nanos: i64 = later.nanos as i64 - earlier.nanos as i64;
    if nanos < 0 {
        secs = secs - 1;
        nanos = nanos + 1_000_000_000;
    }
    let ghost d: int = later.total_nanos() - earlier.total_nanos();
    assert(d == secs * 1_000_000_000 + nanos);
    if secs < 0 && nanos > 0 {
        proof {
            lemma_div_by_parts(-d, -secs - 1, 1_000_000_000 - nanos);
        }
        secs + 1
    } else {
        proof {
            if secs >= 0 {
                lemma_div_by_parts(d, secs as int, nanos as int);
            } else {
                lemma_div_by_parts(-d, -secs as int, 0);
            }
        }
        secs
    }
}

/// A name for the span that `chrono::TimeDelta::seconds(secs)` builds.
pub uninterp spec fn seconds_delta(secs: i64) -> chrono::TimeDelta;

/// Largest number of seconds that a `chrono::TimeDelta` holds either way.
pub const MAX_DELTA_SECS: i64 = 9_223_372_036_854_775;

#[verifier::external_type_specification]
#[verifier::external_body]
pub struct ExTimeDelta(chrono::TimeDelta);

/// Calls `chrono::TimeDelta::seconds`, which builds the span of `secs` whole
/// seconds and panics beyond `i64::MAX / 1000` seconds either way; the contract
/// names the result and says nothing of its fields, which are private to chrono.
#[verifier::external_body]
pub(crate) fn time_delta_seconds(secs: i64) -> (d: chrono::TimeDelta)
    requires
        -MAX_DELTA_SECS <= secs <= MAX_DELTA_SECS,
    ensures
        d == seconds_delta(secs),
{
    chrono::TimeDelta::seconds(secs)
}


/// The whole seconds between two instants are their difference rounded toward
/// zero: never more than a second off, never past the exact difference, and
/// with its sign.
pub proof fn lemma_seconds_between_rounds_toward_zero(later: Timestamp, earlier: Timestamp)
    ensures
        ({
            let d = later.total_nanos() - earlier.total_nanos();
            let s = seconds_between(later, earlier);
            &&& d >= 0 ==> s * 1_000_000_000 <= d < s * 1_000_000_000 + 1_000_000_000
            &&& d < 0 ==> s * 1_000_000_000 - 1_000_000_000 < d <= s * 1_000_000_000
        }),
{
    let d = later.total_nanos() - earlier.total_nanos();
    if d >= 0 {
        assert(d == (d / 1_000_000_000) * 1_000_000_000 + d % 1_000_000_000);
    } else {
        let e = -d;
        assert(e == (e / 1_000_000_000) * 1_000_000_000 + e % 1_000_000_000);
    }
}

} // verus!
