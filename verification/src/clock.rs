use vstd::prelude::*;

verus! {

/// Nanoseconds in one second.
pub const NANOS_PER_SEC: u128 = 1_000_000_000;

/// Nanoseconds in one millisecond.
pub const NANOS_PER_MILLI: u128 = 1_000_000;

/// The longest span a `Duration` holds: `u64::MAX` seconds and 999,999,999 nanoseconds.
pub const MAX_NANOS: u128 = 18_446_744_073_709_551_615_999_999_999;

/// A span of time with nanosecond precision, viewed as its length in nanoseconds.
#[derive(Debug, Clone, Copy, PartialEq, Eq, Structural)]
pub struct Duration {
    nanos: u128,
}

impl Duration {
    #[verifier::type_invariant]
    spec fn in_range(self) -> bool {
        self.nanos <= MAX_NANOS
    }
}

impl View for Duration {
    type V = nat;

    closed spec fn view(&self) -> nat {
        self.nanos as nat
    }
}

/// Whole seconds in a span of `nanos` nanoseconds.
pub open spec fn whole_secs(nanos: nat) -> nat {
    nanos / (NANOS_PER_SEC as nat)
}

/// The nanoseconds of a span beyond its whole seconds.
pub open spec fn subsec_nanos_of(nanos: nat) -> nat {
    nanos % (NANOS_PER_SEC as nat)
}

/// The whole milliseconds of a span beyond its whole seconds.
pub open spec fn subsec_millis_of(nanos: nat) -> nat {
    subsec_nanos_of(nanos) / (NANOS_PER_MILLI as nat)
}

impl Duration {
    /// The empty span.
    pub fn zero() -> (r: Duration)
        ensures
            r@ == 0,
    {
        Duration { nanos: 0 }
    }

    /// A span of `secs` seconds and `nanos` nanoseconds; nanoseconds beyond a second carry over.
    pub fn new(secs: u64, nanos: u32) -> (r: Duration)
        requires
            secs + (nanos as nat) / (NANOS_PER_SEC as nat) <= u64::MAX,
        ensures
            r@ == secs * (NANOS_PER_SEC as nat) + nanos,
    {
        let total: u128 = (secs as u128) * NANOS_PER_SEC + (nanos as u128);
        assert(total <= MAX_NANOS) by (nonlinear_arith)
            requires
                total == secs * 1_000_000_000 + nanos,
                secs + nanos / 1_000_000_000 <= 18_446_744_073_709_551_615,
                nanos <= 4_294_967_295,
        ;
        Duration { nanos: total }
    }

    pub fn from_secs(secs: u64) -> (r: Duration)
        ensures
            r@ == secs * (NANOS_PER_SEC as nat),
    {
        let total: u128 = (secs as u128) * NANOS_PER_SEC;
        assert(total <= MAX_NANOS) by (nonlinear_arith)
            requires
                total == secs * 1_000_000_000,
                secs <= 18_446_744_073_709_551_615,
        ;
        Duration { nanos: total }
    }

    pub fn from_millis(millis: u64) -> (r: Duration)
        ensures
            r@ == millis * (NANOS_PER_MILLI as nat),
    {
        let total: u128 = (millis as u128) * NANOS_PER_MILLI;
        assert(total <= MAX_NANOS) by (nonlinear_arith)
            requires
                total == millis * 1_000_000,
                millis <= 18_446_744_073_709_551_615,
        ;
        Duration { nanos: total }
    }

    pub fn from_nanos(nanos: u64) -> (r: Duration)
        ensures
            r@ == nanos,
    {
        Duration { nanos: nanos as u128 }
    }

    /// The length of the span in nanoseconds.
    pub fn as_nanos(&self) -> (r: u128)
        ensures
            r == self@,
            r <= MAX_NANOS,
    {
        proof {
            use_type_invariant(self);
        }
        self.nanos
    }

    /// The whole seconds of the span.
    pub fn as_secs(&self) -> (r: u64)
        ensures
            r == whole_secs(self@),
    {
        proof {
            use_type_invariant(self);
        }
        let secs: u128 = self.nanos / NANOS_PER_SEC;
        assert(secs <= u64::MAX) by (nonlinear_arith)
            requires
                secs == self.nanos / 1_000_000_000,
                self.nanos <= 18_446_744_073_709_551_615_999_999_999,
        ;
        secs as u64
    }

    /// The nanoseconds of the span beyond its whole seconds.
    pub fn subsec_nanos(&self) -> (r: u32)
        ensures
            r == subsec_nanos_of(self@),
            r < NANOS_PER_SEC,
    {
        (self.nanos % NANOS_PER_SEC) as u32
    }

    /// The whole milliseconds of the span beyond its whole seconds.
    pub fn subsec_millis(&self) -> (r: u32)
        ensures
            r == subsec_millis_of(self@),
            r < 1000,
    {
        let sub: u128 = self.nanos % NANOS_PER_SEC;
        (sub / NANOS_PER_MILLI) as u32
    }

    /// The sum of two spans, or `None` when it leaves the representable range.
    pub fn checked_add(&self, other: &Duration) -> (r: Option<Duration>)
        ensures
            r is Some <==> self@ + other@ <= MAX_NANOS,
            r matches Some(d) ==> d@ == self@ + other@,
    {
        proof {
            use_type_invariant(self);
            use_type_invariant(other);
        }
        if self.nanos <= MAX_NANOS - other.nanos {
            Some(Duration { nanos: self.nanos + other.nanos })
        } else {
            None
        }
    }

    /// The sum of two spans whose total is known to be representable.
    pub fn plus(&self, other: &Duration) -> (r: Duration)
        requires
            self@ + other@ <= MAX_NANOS,
        ensures
            r@ == self@ + other@,
    {
        Duration { nanos: self.nanos + other.nanos }
    }

    /// The difference of two spans, or zero when `other` is the longer one.
    pub fn saturating_sub(&self, other: &Duration) -> (r: Duration)
        ensures
            r@ == if self@ >= other@ { (self@ - other@) as nat } else { 0 },
    {
        proof {
            use_type_invariant(self);
        }
        if self.nanos >= other.nanos {
            Duration { nanos: self.nanos - other.nanos }
        } else {
            Duration { nanos: 0 }
        }
    }
}

/// A reading of a clock, viewed as the nanoseconds elapsed since the clock's origin.
#[derive(Debug, Clone, Copy, PartialEq, Eq, Structural)]
pub struct Instant {
    since_origin: Duration,
}

impl View for Instant {
    type V = nat;

    closed spec fn view(&self) -> nat {
        self.since_origin@
    }
}

impl Instant {
    /// The reading that lies `since_origin` after the clock's origin.
    pub fn from_since_origin(since_origin: Duration) -> (r: Instant)
        ensures
            r@ == since_origin@,
            r@ <= MAX_NANOS,
    {
        proof {
            use_type_invariant(&since_origin);
        }
        Instant { since_origin }
    }

    /// The span from the clock's origin to this reading.
    pub fn since_origin(&self) -> (r: Duration)
        ensures
            r@ == self@,
            r@ <= MAX_NANOS,
    {
        proof {
            use_type_invariant(&self.since_origin);
        }
        self.since_origin
    }

    /// The span from `earlier` to this reading, or zero when `earlier` is later.
    pub fn duration_since(&self, earlier: &Instant) -> (r: Duration)
        ensures
            r@ == elapsed_between(earlier@, self@),
    {
        self.since_origin.saturating_sub(&earlier.since_origin)
    }

    /// The reading `dur` after this one, or `None` when it leaves the representable range.
    pub fn checked_add(&self, dur: &Duration) -> (r: Option<Instant>)
        ensures
            r is Some <==> self@ + dur@ <= MAX_NANOS,
            r matches Some(i) ==> i@ == self@ + dur@,
    {
        match self.since_origin.checked_add(dur) {
            Some(d) => Some(Instant { since_origin: d }),
            None => None,
        }
    }

    /// The reading `dur` after this one, known to be representable.
    pub fn plus(&self, dur: &Duration) -> (r: Instant)
        requires
            self@ + dur@ <= MAX_NANOS,
        ensures
            r@ == self@ + dur@,
    {
        Instant { since_origin: self.since_origin.plus(dur) }
    }
}

/// The time that passes from reading `earlier` to reading `later`, zero when `later` is earlier.
pub open spec fn elapsed_between(earlier: nat, later: nat) -> nat {
    if later >= earlier { (later - earlier) as nat } else { 0 }
}

/// A reading of the system clock, as std gives it.
#[verifier::external_type_specification]
#[verifier::external_body]
pub struct ExSystemTime(std::time::SystemTime);

/// Calls `std::time::SystemTime::now`. Nothing is claimed of the reading: it depends on the
/// time of the call and on how the system clock is set.
#[verifier::external_body]
fn system_time_now() -> (r: std::time::SystemTime) {
    std::time::SystemTime::now()
}

/// Calls `std::time::SystemTime::duration_since` with `std::time::UNIX_EPOCH`: the span from
/// the epoch to `t` as its whole seconds and its nanoseconds beyond them, or `None` (std's
/// error) when `t` lies before the epoch. Of the span only what std documents for
/// `Duration::subsec_nanos` is claimed: the nanoseconds are below one billion. A `SystemTime`
/// holds no value this library can see, so the span itself is left open.
#[verifier::external_body]
fn since_unix_epoch(t: &std::time::SystemTime) -> (r: Option<(u64, u32)>)
    ensures
        r matches Some(parts) ==> parts.1 < NANOS_PER_SEC,
{
    match t.duration_since(std::time::UNIX_EPOCH) {
        Ok(d) => Some((d.as_secs(), d.subsec_nanos())),
        Err(_) => None,
    }
}

/// Reads the clock that the stopwatches follow: the system clock, measured from the Unix
/// epoch (a clock set before the epoch reads as the epoch itself).
///
/// std's monotonic `Instant` gives a number only as the time since another `Instant`, and a
/// reference reading shared by every stopwatch would have to live in a `static`, which this
/// library does not hold. So the stopwatches follow the system clock: a forward jump of that
/// clock between two readings counts as elapsed time, and across a backward jump nothing is
/// counted (`duration_since` saturates at zero).
pub(crate) fn read_clock() -> (r: Instant)
    ensures
        r@ <= MAX_NANOS,
{
    let now = system_time_now();
    match since_unix_epoch(&now) {
        Some((secs, nanos)) => Instant::from_since_origin(Duration::new(secs, nanos)),
        None => Instant::from_since_origin(Duration::zero()),
    }
}

} // verus!
