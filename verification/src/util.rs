//! Times as the kernel gives and takes them.

use vstd::prelude::*;

verus! {

/// Nanoseconds in a second.
pub const NANOS_PER_SEC: u32 = 1_000_000_000;

/// A time as the kernel takes it for a timeout: seconds and microseconds.
#[derive(Debug, Copy, Clone, PartialEq, Eq, Structural)]
pub struct TimeVal {
    pub tv_sec: i64,
    pub tv_usec: i64,
}

/// A time as the kernel gives it for a receive time: seconds and nanoseconds.
#[derive(Debug, Copy, Clone, PartialEq, Eq, Structural)]
pub struct TimeSpec {
    pub tv_sec: i64,
    pub tv_nsec: i64,
}

/// A span of time: whole seconds and less than one second of nanoseconds.
#[derive(Debug, Copy, Clone)]
pub struct Duration {
    secs: u64,
    nanos: u32,
}

/// A point in time: the span since the start of 1970, UTC.
#[derive(Debug, Copy, Clone)]
pub struct SystemTime {
    since_epoch: Duration,
}

impl Duration {
    /// The nanoseconds stay below one second.
    #[verifier::type_invariant]
    spec fn inv(self) -> bool {
        self.nanos < NANOS_PER_SEC
    }

    /// The whole seconds of the span.
    pub closed spec fn secs(self) -> nat {
        self.secs as nat
    }

    /// The part of the span below one second, in nanoseconds.
    pub closed spec fn nanos(self) -> nat {
        self.nanos as nat
    }

    /// The span of `secs` seconds and `nanos` nanoseconds. Nanoseconds from
    /// one second on count as seconds.
    pub fn new(secs: u64, nanos: u32) -> (span: Duration)
        requires
            secs + nanos / NANOS_PER_SEC <= u64::MAX,
        ensures
            span.secs() == secs + nanos / NANOS_PER_SEC,
            span.nanos() == nanos % NANOS_PER_SEC,
    {
        Duration { secs: secs + (nanos / NANOS_PER_SEC) as u64, nanos: nanos % NANOS_PER_SEC }
    }

    /// The whole seconds of the span.
    pub fn as_secs(&self) -> (secs: u64)
        ensures
            secs == self.secs(),
    {
        self.secs
    }

    /// The part of the span below one second, in nanoseconds.
    pub fn subsec_nanos(&self) -> (nanos: u32)
        ensures
            nanos == self.nanos(),
            nanos < NANOS_PER_SEC,
    {
        proof {
            use_type_invariant(self);
        }
        self.nanos
    }

    /// The part of the span below one second, in whole microseconds.
    pub fn subsec_micros(&self) -> (micros: u32)
        ensures
            micros == self.nanos() / 1000,
            micros < 1_000_000,
    {
        proof {
            use_type_invariant(self);
        }
        self.nanos / 1000
    }
}

impl SystemTime {
    /// The span from the start of 1970, UTC, to this point in time.
    pub closed spec fn since_epoch(self) -> Duration {
        self.since_epoch
    }

    /// The span from the start of 1970, UTC, to this point in time.
    pub fn duration_since_epoch(&self) -> (span: Duration)
        ensures
            span == self.since_epoch(),
    {
        self.since_epoch
    }
}

/// The timeout that the kernel is handed for a span: its whole seconds, and
/// what is left of it in whole microseconds. Seconds beyond the range of the
/// kernel's type wrap around.
pub fn timeval_from_duration(t: Duration) -> (tv: TimeVal)
    ensures
        tv.tv_sec == t.secs() as i64,
        tv.tv_usec == t.nanos() / 1000,
{
    TimeVal { tv_sec: t.as_secs() as i64, tv_usec: t.subsec_micros() as i64 }
}

/// The span that a time of the kernel stands for: its seconds as an unsigned
/// number of 64 bits and its nanoseconds as one of 32 bits, of which whole
/// seconds count as seconds.
pub fn duration_from_timespec(ts: TimeSpec) -> (span: Duration)
    requires
        ts.tv_sec as u64 + (ts.tv_nsec as u32) / NANOS_PER_SEC <= u64::MAX,
    ensures
        span.secs() == ts.tv_sec as u64 + (ts.tv_nsec as u32) / NANOS_PER_SEC,
        span.nanos() == (ts.tv_nsec as u32) % NANOS_PER_SEC,
{
    Duration::new(ts.tv_sec as u64, ts.tv_nsec as u32)
}

/// The point in time that a time of the kernel stands for, counted from the
/// start of 1970, UTC.
pub fn system_time_from_timespec(ts: TimeSpec) -> (time: SystemTime)
    requires
        ts.tv_sec as u64 + (ts.tv_nsec as u32) / NANOS_PER_SEC <= u64::MAX,
    ensures
        time.since_epoch().secs() == ts.tv_sec as u64 + (ts.tv_nsec as u32) / NANOS_PER_SEC,
        time.since_epoch().nanos() == (ts.tv_nsec as u32) % NANOS_PER_SEC,
{
    SystemTime { since_epoch: duration_from_timespec(ts) }
}

} // verus!
