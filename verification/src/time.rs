use vstd::prelude::*;

verus! {

/// Nanoseconds in one second.
pub const NANOS_PER_SEC: u128 = 1_000_000_000;

/// The longest span a `Duration` holds, in nanoseconds: `u64::MAX` whole seconds
/// and 999_999_999 nanoseconds, as for the duration type of the standard library.
pub const MAX_NANOS: u128 = 18_446_744_073_709_551_615_999_999_999;

/// `MAX_NANOS` as a mathematical number.
pub open spec fn max_nanos() -> nat {
    (u64::MAX as nat) * 1_000_000_000 + 999_999_999
}

/// A span of time, counted in nanoseconds.
///
/// Its view is the number of nanoseconds it spans; it never spans more than
/// `max_nanos()`, so that its whole seconds fit in a `u64`.
#[derive(Clone, Copy, Debug, PartialEq, Eq, Structural, Hash)]
pub struct Duration {
    nanos: u128,
}

impl View for Duration {
    type V = nat;

    closed spec fn view(&self) -> nat {
        self.nanos as nat
    }
}

/// Nanoseconds in `secs` seconds.
pub open spec fn secs_nanos(secs: nat) -> nat {
    secs * 1_000_000_000
}

/// What `day(count)` spans, in nanoseconds.
pub open spec fn day_nanos(count: nat) -> nat {
    secs_nanos(count * 86_400)
}

/// What `hour(count)` spans, in nanoseconds.
pub open spec fn hour_nanos(count: nat) -> nat {
    secs_nanos(count * 3_600)
}

/// What `min(count)` spans, in nanoseconds.
pub open spec fn min_nanos(count: nat) -> nat {
    secs_nanos(count * 60)
}

impl Duration {
    #[verifier::type_invariant]
    spec fn bounded(self) -> bool {
        self.nanos <= MAX_NANOS
    }

    /// Two durations are equal exactly when they span the same time.
    pub proof fn lemma_view_determines(a: Duration, b: Duration)
        ensures
            (a@ == b@) == (a == b),
    {
    }

    /// The empty duration.
    pub fn zero() -> (d: Duration)
        ensures
            d@ == 0,
    {
        Duration { nanos: 0 }
    }

    /// A duration of `secs` whole seconds.
    pub fn from_secs(secs: u64) -> (d: Duration)
        ensures
            d@ == secs_nanos(secs as nat),
    {
        let nanos: u128 = (secs as u128) * NANOS_PER_SEC;
        assert(nanos <= MAX_NANOS) by (nonlinear_arith)
            requires
                nanos == (secs as u128) * 1_000_000_000u128,
                secs <= u64::MAX,
        ;
        Duration { nanos }
    }

    /// A duration of `millis` milliseconds.
    pub fn from_millis(millis: u64) -> (d: Duration)
        ensures
            d@ == millis * 1_000_000,
    {
        let nanos: u128 = (millis as u128) * 1_000_000;
        assert(nanos <= MAX_NANOS) by (nonlinear_arith)
            requires
                nanos == (millis as u128) * 1_000_000u128,
                millis <= u64::MAX,
        ;
        Duration { nanos }
    }

    /// A duration of `micros` microseconds.
    pub fn from_micros(micros: u64) -> (d: Duration)
        ensures
            d@ == micros * 1_000,
    {
        let nanos: u128 = (micros as u128) * 1_000;
        Duration { nanos }
    }

    /// A duration of `nanos` nanoseconds.
    pub fn from_nanos(nanos: u64) -> (d: Duration)
        ensures
            d@ == nanos,
    {
        Duration { nanos: nanos as u128 }
    }

    /// The whole seconds of the duration.
    pub fn as_secs(&self) -> (secs: u64)
        ensures
            secs == self@ / 1_000_000_000,
    {
        proof {
            use_type_invariant(self);
        }
        let secs: u128 = self.nanos / NANOS_PER_SEC;
        assert(secs <= u64::MAX) by (nonlinear_arith)
            requires
                secs == self.nanos / 1_000_000_000u128,
                self.nanos <= MAX_NANOS,
        ;
        secs as u64
    }

    /// The nanoseconds that the duration spans beyond its whole seconds.
    pub fn subsec_nanos(&self) -> (nanos: u32)
        ensures
            nanos == self@ % 1_000_000_000,
            nanos < 1_000_000_000,
    {
        (self.nanos % NANOS_PER_SEC) as u32
    }

    /// The whole duration in nanoseconds.
    pub fn as_nanos(&self) -> (nanos: u128)
        ensures
            nanos == self@,
            nanos <= max_nanos(),
    {
        proof {
            use_type_invariant(self);
        }
        self.nanos
    }
}

impl core::ops::Add for Duration {
    type Output = Duration;

    fn add(self, rhs: Duration) -> (sum: Duration)
        ensures
            sum@ == self@ + rhs@,
    {
        proof {
            use_type_invariant(&self);
            use_type_invariant(&rhs);
        }
        Duration { nanos: self.nanos + rhs.nanos }
    }
}

impl vstd::std_specs::ops::AddSpecImpl for Duration {
    open spec fn obeys_add_spec() -> bool {
        true
    }

    open spec fn add_req(self, rhs: Duration) -> bool {
        self@ + rhs@ <= max_nanos()
    }

    open spec fn add_spec(self, rhs: Duration) -> Duration {
        self.sum_spec(rhs)
    }
}

impl Duration {
    /// The duration that spans `self` and then `rhs`.
    pub closed spec fn sum_spec(self, rhs: Duration) -> Duration {
        Duration { nanos: (self.nanos + rhs.nanos) as u128 }
    }

    /// Where the sum fits, it spans both durations.
    pub proof fn lemma_sum(a: Duration, b: Duration)
        requires
            a@ + b@ <= max_nanos(),
        ensures
            a.sum_spec(b)@ == a@ + b@,
    {
    }
}

impl Default for Duration {
    fn default() -> (d: Duration)
        ensures
            d@ == 0,
    {
        Duration::zero()
    }
}

/// A duration of `count` days.
pub fn day(count: u64) -> (d: Duration)
    requires
        count * 86_400 <= u64::MAX,
    ensures
        d@ == day_nanos(count as nat),
{
    assert(24 * 60 * 60 * count == count * 86_400) by (nonlinear_arith);
    Duration::from_secs(24 * 60 * 60 * count)
}

/// A duration of `count` hours.
pub fn hour(count: u64) -> (d: Duration)
    requires
        count * 3_600 <= u64::MAX,
    ensures
        d@ == hour_nanos(count as nat),
{
    assert(60 * 60 * count == count * 3_600) by (nonlinear_arith);
    Duration::from_secs(60 * 60 * count)
}

/// A duration of `count` minutes.
pub fn min(count: u64) -> (d: Duration)
    requires
        count * 60 <= u64::MAX,
    ensures
        d@ == min_nanos(count as nat),
{
    assert(60 * count == count * 60) by (nonlinear_arith);
    Duration::from_secs(60 * count)
}

/// A builder of durations: it adds up the spans it is given.
///
/// Its view is the number of nanoseconds added so far.
pub struct Time {
    dur: Duration,
}

impl View for Time {
    type V = nat;

    closed spec fn view(&self) -> nat {
        self.dur@
    }
}

impl Default for Time {
    fn default() -> (t: Time)
        ensures
            t@ == 0,
    {
        Time { dur: Duration::default() }
    }
}

impl Time {
    /// The duration that the builder has added up.
    pub closed spec fn duration(self) -> Duration {
        self.dur
    }

    /// A builder that has added nothing yet.
    pub fn new() -> (t: Time)
        ensures
            t@ == 0,
    {
        Time::default()
    }

    /// Adds `dur` to what the builder has added up.
    pub fn every(self, dur: Duration) -> (t: Time)
        requires
            self@ + dur@ <= max_nanos(),
        ensures
            t@ == self@ + dur@,
    {
        Time { dur: self.dur + dur }
    }

    /// Adds `dur` to what the builder has added up, as `every` does.
    pub fn plus(self, dur: Duration) -> (t: Time)
        requires
            self@ + dur@ <= max_nanos(),
        ensures
            t@ == self@ + dur@,
    {
        Time { dur: self.dur + dur }
    }
}

impl From<Time> for Duration {
    fn from(t: Time) -> (d: Duration)
        ensures
            d@ == t@,
    {
        t.dur
    }
}

impl vstd::std_specs::convert::FromSpecImpl<Time> for Duration {
    open spec fn obeys_from_spec() -> bool {
        true
    }

    open spec fn from_spec(t: Time) -> Duration {
        t.duration()
    }
}

/// Counts of time units, turned into durations by unit.
pub trait ToDuration: Sized {
    /// The count that `into_u64` gives.
    spec fn count(&self) -> u64;

    /// The count as a `u64`.
    fn into_u64(self) -> (n: u64)
        ensures
            n == self.count(),
    ;

    /// A duration of `self` days.
    fn d(self) -> (dur: Duration)
        requires
            self.count() * 86_400 <= u64::MAX,
        ensures
            dur@ == day_nanos(self.count() as nat),
    {
        day(self.into_u64())
    }

    /// A duration of `self` hours.
    fn h(self) -> (dur: Duration)
        requires
            self.count() * 3_600 <= u64::MAX,
        ensures
            dur@ == hour_nanos(self.count() as nat),
    {
        hour(self.into_u64())
    }

    /// A duration of `self` minutes.
    fn m(self) -> (dur: Duration)
        requires
            self.count() * 60 <= u64::MAX,
        ensures
            dur@ == min_nanos(self.count() as nat),
    {
        min(self.into_u64())
    }

    /// A duration of `self` seconds.
    fn s(self) -> (dur: Duration)
        ensures
            dur@ == secs_nanos(self.count() as nat),
    {
        Duration::from_secs(self.into_u64())
    }

    /// A duration of `self` milliseconds.
    fn millis(self) -> (dur: Duration)
        ensures
            dur@ == self.count() * 1_000_000,
    {
        Duration::from_millis(self.into_u64())
    }

    /// A duration of `self` microseconds.
    fn micros(self) -> (dur: Duration)
        ensures
            dur@ == self.count() * 1_000,
    {
        Duration::from_micros(self.into_u64())
    }

    /// A duration of `self` nanoseconds.
    fn nanos(self) -> (dur: Duration)
        ensures
            dur@ == self.count(),
    {
        Duration::from_nanos(self.into_u64())
    }
}

impl ToDuration for u16 {
    open spec fn count(&self) -> u64 {
        *self as u64
    }

    fn into_u64(self) -> (n: u64)
        ensures
            n == self as u64,
    {
        self as u64
    }
}

/// Each unit is the next smaller one taken a fixed number of times: a day is
/// 24 hours, an hour 60 minutes, a minute 60 seconds, a second 1000
/// milliseconds, a millisecond 1000 microseconds, a microsecond 1000
/// nanoseconds.
pub proof fn law_units(n: nat)
    ensures
        day_nanos(n) == hour_nanos(24 * n),
        hour_nanos(n) == min_nanos(60 * n),
        min_nanos(n) == secs_nanos(60 * n),
        secs_nanos(n) == (1000 * n) * 1_000_000,
        (n * 1_000_000) == (1000 * n) * 1_000,
        (n * 1_000) == 1000 * n,
{
    assert(day_nanos(n) == hour_nanos(24 * n)) by (nonlinear_arith);
    assert(hour_nanos(n) == min_nanos(60 * n)) by (nonlinear_arith);
    assert(min_nanos(n) == secs_nanos(60 * n)) by (nonlinear_arith);
    assert(secs_nanos(n) == (1000 * n) * 1_000_000) by (nonlinear_arith);
    assert((n * 1_000_000) == (1000 * n) * 1_000) by (nonlinear_arith);
}

/// Each unit spans its fixed number of nanoseconds, `count` times over: a
/// second is 10^9 ns, a minute 60 s, an hour 3600 s, a day 86_400 s.
pub proof fn law_unit_spans(count: nat)
    ensures
        secs_nanos(count) == count * 1_000_000_000,
        min_nanos(count) == count * 60_000_000_000,
        hour_nanos(count) == count * 3_600_000_000_000,
        day_nanos(count) == count * 86_400_000_000_000,
{
    assert(min_nanos(count) == count * 60_000_000_000) by (nonlinear_arith);
    assert(hour_nanos(count) == count * 3_600_000_000_000) by (nonlinear_arith);
    assert(day_nanos(count) == count * 86_400_000_000_000) by (nonlinear_arith);
}

/// A `u16` counts itself: `n.d()`, `n.h()`, `n.m()`, `n.s()`, `n.millis()`,
/// `n.micros()` and `n.nanos()` span `n` of their unit, for every `n`.
pub proof fn law_u16_counts_itself(n: u16)
    ensures
        n.count() == n as u64,
        secs_nanos(n.count() as nat) == (n as nat) * 1_000_000_000,
        min_nanos(n.count() as nat) == (n as nat) * 60_000_000_000,
        hour_nanos(n.count() as nat) == (n as nat) * 3_600_000_000_000,
        day_nanos(n.count() as nat) == (n as nat) * 86_400_000_000_000,
        n.count() * 1_000_000 == (n as nat) * 1_000_000,
        n.count() * 1_000 == (n as nat) * 1_000,
        n.count() * 86_400 <= u64::MAX,
{
    law_unit_spans(n as nat);
}

/// Durations add up in any order, and the empty duration adds nothing.
pub proof fn law_sum_commutes(a: Duration, b: Duration, c: Duration)
    ensures
        a.sum_spec(b) == b.sum_spec(a),
        a@ + b@ + c@ <= max_nanos() ==> a.sum_spec(b).sum_spec(c) == a.sum_spec(b.sum_spec(c)),
        b@ == 0 ==> a.sum_spec(b) == a,
{
}

} // verus!
