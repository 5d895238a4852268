//! Spans of time, readings of the monotonic clock, and wall-clock timestamps.

use vstd::prelude::*;

verus! {

/// The number of nanoseconds in a second.
pub const NANOS_PER_SEC: u128 = 1_000_000_000;

/// The number of nanoseconds in a millisecond.
pub const NANOS_PER_MILLI: u128 = 1_000_000;

/// The longest span of time, in nanoseconds: `u64::MAX` seconds and
/// 999,999,999 nanoseconds.
pub const MAX_NANOS: u128 = 18_446_744_073_709_551_615_999_999_999;

/// A span of time with nanosecond precision. Its view is its length in
/// nanoseconds.
#[derive(Clone, Copy, Debug, PartialEq, Eq)]
pub struct Duration {
    nanos: u128,
}

impl View for Duration {
    type V = nat;

    closed spec fn view(&self) -> nat {
        self.nanos as nat
    }
}

/// A number of seconds, in nanoseconds.
pub open spec fn secs(n: nat) -> nat {
    n * NANOS_PER_SEC as nat
}

/// A number of milliseconds, in nanoseconds.
pub open spec fn millis(n: nat) -> nat {
    n * NANOS_PER_MILLI as nat
}

/// What is left of `a` after `b`, or zero if `b` is larger.
pub open spec fn minus(a: nat, b: nat) -> nat {
    if a >= b {
        (a - b) as nat
    } else {
        0
    }
}

/// The time from `earlier` to `later`, or zero if `later` comes first.
pub open spec fn elapsed(earlier: nat, later: nat) -> nat {
    minus(later, earlier)
}

impl Duration {
    #[verifier::type_invariant]
    spec fn representable(self) -> bool {
        self.nanos <= MAX_NANOS
    }

    /// The span of `secs` seconds and `nanos` nanoseconds.
    pub fn new(secs: u64, nanos: u32) -> (d: Duration)
        requires
            nanos < NANOS_PER_SEC,
        ensures
            d@ == self::secs(secs as nat) + nanos,
    {
        Duration { nanos: secs as u128 * NANOS_PER_SEC + nanos as u128 }
    }

    /// The span of `secs` whole seconds.
    pub fn from_secs(secs: u64) -> (d: Duration)
        ensures
            d@ == self::secs(secs as nat),
    {
        Duration { nanos: secs as u128 * NANOS_PER_SEC }
    }

    /// The span of `millis` milliseconds.
    pub fn from_millis(millis: u64) -> (d: Duration)
        ensures
            d@ == self::millis(millis as nat),
    {
        Duration { nanos: millis as u128 * NANOS_PER_MILLI }
    }

    /// The whole length of the span, in nanoseconds.
    pub fn as_nanos(&self) -> (nanos: u128)
        ensures
            nanos == self@,
    {
        self.nanos
    }

    /// The whole seconds that the span contains.
    pub fn as_secs(&self) -> (secs: u64)
        ensures
            secs == self@ / NANOS_PER_SEC as nat,
    {
        proof {
            use_type_invariant(self);
        }
        (self.nanos / NANOS_PER_SEC) as u64
    }

    /// The nanoseconds that the span contains beyond its whole seconds.
    pub fn subsec_nanos(&self) -> (nanos: u32)
        ensures
            nanos == self@ % NANOS_PER_SEC as nat,
    {
        (self.nanos % NANOS_PER_SEC) as u32
    }

    /// What is left of this span after `other`, or zero if `other` is longer.
    pub fn saturating_sub(self, other: Duration) -> (d: Duration)
        ensures
            d@ == minus(self@, other@),
    {
        proof {
            use_type_invariant(&self);
        }
        if self.nanos >= other.nanos {
            Duration { nanos: self.nanos - other.nanos }
        } else {
            Duration { nanos: 0 }
        }
    }
}

/// A reading of the local monotonic clock: how much time has passed since an
/// origin that is fixed for the life of the process. Its view is that time in
/// nanoseconds. Readings of two processes are not comparable.
#[derive(Clone, Copy, Debug, PartialEq, Eq)]
pub struct Instant {
    since_origin: Duration,
}

impl View for Instant {
    type V = nat;

    closed spec fn view(&self) -> nat {
        self.since_origin@
    }
}

impl Instant {
    /// The reading at `since_origin` after the origin of the clock.
    pub fn at(since_origin: Duration) -> (i: Instant)
        ensures
            i@ == since_origin@,
    {
        Instant { since_origin }
    }

    /// The time that passed from this reading to the reading `now`, or zero
    /// if `now` was taken first.
    pub fn elapsed(&self, now: Instant) -> (d: Duration)
        ensures
            d@ == self::elapsed(self@, now@),
    {
        now.since_origin.saturating_sub(self.since_origin)
    }
}

/// A moment of wall-clock time, in nanoseconds since the Unix epoch.
#[derive(Clone, Copy, Debug, PartialEq, Eq, Structural)]
pub struct Timestamp {
    pub nanosecond: i128,
}

/// A wall-clock time as a Kubernetes object holds it.
#[derive(Clone, Copy, Debug, PartialEq, Eq, Structural)]
pub struct MicroTime(pub Timestamp);

/// A second has a thousand milliseconds and a billion nanoseconds; what is left
/// of a time after a part of it is the rest, and nothing is left after more than
/// the whole.
pub proof fn law_times_add_up(n: nat, a: nat, b: nat)
    ensures
        secs(n) == n * 1_000_000_000,
        millis(1000 * n) == secs(n),
        a <= b ==> a + elapsed(a, b) == b,
        a <= b ==> minus(b, a) + a == b,
        a >= b ==> elapsed(a, b) == 0,
        a >= b ==> minus(b, a) == 0,
{
}

/// A span of whole seconds and nanoseconds is taken apart into what it was made
/// of.
pub proof fn law_duration_comes_apart(s: u64, n: u32, d: Duration, secs: u64, nanos: u32)
    requires
        n < 1_000_000_000,
        call_ensures(Duration::new, (s, n), d),
        call_ensures(Duration::as_secs, (&d,), secs),
        call_ensures(Duration::subsec_nanos, (&d,), nanos),
    ensures
        secs == s,
        nanos == n,
{
}

/// Spans and readings of the clock are as long as what they are made of, in
/// nanoseconds, and the time between two readings is their difference.
pub proof fn law_spans_are_exact(
    n: u64,
    s: Duration,
    m: Duration,
    whole: u128,
    other: Duration,
    rest: Duration,
    start: Instant,
    end: Instant,
    passed: Duration,
)
    requires
        call_ensures(Duration::from_secs, (n,), s),
        call_ensures(Duration::from_millis, (n,), m),
        call_ensures(Duration::as_nanos, (&other,), whole),
        call_ensures(Duration::saturating_sub, (s, other), rest),
        call_ensures(Instant::at, (other,), start),
        call_ensures(Instant::elapsed, (&start, end), passed),
    ensures
        s@ == n * 1_000_000_000,
        m@ == n * 1_000_000,
        whole == other@,
        other@ <= s@ ==> rest@ + other@ == s@,
        other@ >= s@ ==> rest@ == 0,
        start@ == other@,
        start@ <= end@ ==> start@ + passed@ == end@,
        start@ >= end@ ==> passed@ == 0,
{
}

} // verus!
