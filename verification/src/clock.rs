//! The wall clock: instants as whole seconds since the Unix epoch plus the
//! nanoseconds into that second.
use vstd::prelude::*;

verus! {

/// An instant in UTC: seconds since the Unix epoch and nanoseconds past them.
#[derive(Debug, Clone, Copy, PartialEq, Eq, Structural)]
pub struct Timestamp {
    /// Whole seconds since 1970-01-01T00:00:00Z (negative before it).
    pub secs: i64,
    /// Nanoseconds into the second (at least 1e9 only during a leap second).
    pub nanos: u32,
}

/// A length of time: whole seconds and nanoseconds past them.
#[derive(Debug, Clone, Copy, PartialEq, Eq, Structural)]
pub struct Span {
    /// Whole seconds.
    pub secs: u64,
    /// Nanoseconds past the whole seconds (below 1e9).
    pub nanos: u32,
}

/// Reads the current time.
///
/// Trusted: calls `chrono::Utc::now`, then reads the instant back with
/// `timestamp` and `timestamp_subsec_nanos`. `Utc::now` measures the time
/// since the Unix epoch (panicking on a clock set before it) and builds the
/// instant from its whole seconds and its sub-second nanoseconds; so the
/// seconds are not negative and the nanoseconds are below one second. The
/// instant itself depends on the moment of the call and is not claimed.
#[verifier::external_body]
pub(crate) fn now() -> (t: Timestamp)
    ensures
        t.secs >= 0,
        t.nanos < 1_000_000_000,
{
    let instant = chrono::Utc::now();
    Timestamp { secs: instant.timestamp(), nanos: instant.timestamp_subsec_nanos() }
}

} // verus!
