//! Points in time, generalized over the clock source. A clock variant is a
//! type implementing [`InstantTrait`]; exactly one variant is wired to a real
//! clock per build.
//!
//! The system-clock variant samples the host's monotonic clock. A sample
//! itself is opaque — the host hands out no number, only a point that later
//! points can be measured against — so each instant is a pair: an opaque base
//! sample, and a verified nanosecond reading along the time line that starts
//! at that sample. Arithmetic on instants is plain saturating arithmetic on
//! readings and is verified here; instants on the same line are compared
//! exactly by their readings, instants on different lines by asking the
//! monotonic clock for the span between their base samples, which is the one
//! part taken on trust.

use vstd::prelude::*;

verus! {

/// Saturating addition of a delay to a nanosecond reading: the sum, capped at
/// the largest representable reading instead of wrapping.
pub open spec fn sat_add_nanos(t: u64, d: u64) -> u64 {
    if t + d <= u64::MAX {
        (t + d) as u64
    } else {
        u64::MAX
    }
}

/// Saturating subtraction of a delay from a nanosecond reading: the
/// difference, floored at the time line's origin instead of wrapping.
pub open spec fn sat_sub_nanos(t: u64, d: u64) -> u64 {
    if t >= d {
        (t - d) as u64
    } else {
        0
    }
}

/// The span from `earlier` to `later`, or nothing when `later` precedes
/// `earlier`. Absence of a valid result is a value, never an error.
pub open spec fn duration_between(earlier: u64, later: u64) -> Option<u64> {
    if earlier <= later {
        Some((later - earlier) as u64)
    } else {
        None
    }
}

/// The capability interface every clock variant satisfies. Callers program
/// against this trait, not against a concrete variant.
///
/// A variant whose `configured()` is false has no clock source wired in: none
/// of its operations can be called from verified code, so depending on time in
/// a clockless build fails at verification rather than at run time.
pub trait InstantTrait: Sized + Copy {
    /// Whether this variant is wired to a real clock source.
    spec fn configured() -> bool;

    /// The nanosecond reading of this instant along its own time line, which
    /// starts at the clock sample the instant was derived from.
    spec fn nanos(self) -> u64;

    /// Whether the two instants lie on the same time line, so that their
    /// readings measure against the same clock sample and the span between
    /// them is exactly the difference of the readings.
    spec fn comparable(self, other: Self) -> bool;

    /// The current point in time, sampled from the active clock: the origin
    /// of a fresh time line.
    fn now() -> (r: Self)
        requires
            Self::configured(),
        ensures
            r.nanos() == 0,
    ;

    /// The current point in time pushed `delay` nanoseconds into the future:
    /// some freshly sampled reading pushed forward by the delay, saturating.
    fn with_delay(delay: u64) -> (r: Self)
        requires
            Self::configured(),
        ensures
            exists|n: u64| r.nanos() == sat_add_nanos(n, delay),
    ;

    /// This instant pushed `delay` nanoseconds into the future on its own
    /// time line, saturating at the representable range.
    fn add(self, delay: u64) -> (r: Self)
        requires
            Self::configured(),
        ensures
            r.nanos() == sat_add_nanos(self.nanos(), delay),
            self.comparable(r),
            r.comparable(self),
    ;

    /// This instant pulled `delay` nanoseconds into the past on its own time
    /// line, saturating at the line's origin.
    fn sub(self, delay: u64) -> (r: Self)
        requires
            Self::configured(),
        ensures
            r.nanos() == sat_sub_nanos(self.nanos(), delay),
            self.comparable(r),
            r.comparable(self),
    ;

    /// The span from this instant forward to `later`, or `None` when `later`
    /// precedes this instant. Never panics: absence of a result is a value.
    /// On one time line the result is exactly the difference of the readings;
    /// across lines it is measured against the clock and not pinned here.
    fn checked_duration_until(&self, later: Self) -> (r: Option<u64>)
        requires
            Self::configured(),
        ensures
            self.comparable(later) ==> r == duration_between(self.nanos(), later.nanos()),
    ;

    /// The span from `earlier` forward to this instant, or `None` when
    /// `earlier` is the later of the two.
    fn checked_duration_since(&self, earlier: Self) -> (r: Option<u64>)
        requires
            Self::configured(),
        ensures
            self.comparable(earlier) ==> r == duration_between(earlier.nanos(), self.nanos()),
    ;
}

/// One sample of the host's monotonic clock. Opaque to the verifier: the host
/// hands out no number, so a sample can only be measured against another
/// sample, through the trusted span queries below.
#[verifier::external_body]
pub struct MonotonicPoint {
    inner: std::time::Instant,
}

impl Clone for MonotonicPoint {
    fn clone(&self) -> (r: Self)
        ensures
            r == *self,
    {
        *self
    }
}

impl Copy for MonotonicPoint {

}

/// Relies on `std::time::Instant::now`: a fresh sample of the host's
/// monotonic clock, which never goes backwards. Nothing is promised of the
/// sample itself; it only serves as a base other samples are measured
/// against.
#[verifier::external_body]
fn sample_monotonic() -> (r: MonotonicPoint) {
    MonotonicPoint { inner: std::time::Instant::now() }
}

/// Relies on `std::time::Instant::checked_duration_since`: the nanoseconds
/// from sample `a` forward to sample `b`, saturating at the representable
/// range, or `None` when `b` precedes `a`. One and the same sample is zero
/// nanoseconds from itself; beyond that the value is the clock's and nothing
/// more is promised.
#[verifier::external_body]
fn span_forward(a: &MonotonicPoint, b: &MonotonicPoint) -> (r: Option<u64>)
    ensures
        *a == *b ==> r == Some(0u64),
{
    match b.inner.checked_duration_since(a.inner) {
        Some(d) => {
            let n = d.as_nanos();
            Some(if n > u64::MAX as u128 { u64::MAX } else { n as u64 })
        },
        None => None,
    }
}

/// Relies on `std::time::Instant::saturating_duration_since`: the nanoseconds
/// from sample `b` forward to sample `a`, saturating at the representable
/// range, and zero when `a` precedes `b`. The value is the clock's; nothing
/// is promised of it.
#[verifier::external_body]
fn span_backward(a: &MonotonicPoint, b: &MonotonicPoint) -> (r: u64) {
    let n = a.inner.saturating_duration_since(b.inner).as_nanos();
    if n > u64::MAX as u128 { u64::MAX } else { n as u64 }
}

/// The system-clock variant: an opaque base sample of the host's monotonic
/// clock, and a verified nanosecond reading along the time line starting
/// there.
#[derive(Clone, Copy)]
pub struct StdInstant {
    pub base: MonotonicPoint,
    pub offset: u64,
}

impl InstantTrait for StdInstant {
    open spec fn configured() -> bool {
        true
    }

    open spec fn nanos(self) -> u64 {
        self.offset
    }

    open spec fn comparable(self, other: Self) -> bool {
        self.base == other.base
    }

    fn now() -> (r: Self) {
        StdInstant { base: sample_monotonic(), offset: 0 }
    }

    fn with_delay(delay: u64) -> (r: Self) {
        Self::now().add(delay)
    }

    fn add(self, delay: u64) -> (r: Self) {
        let offset: u64 = if self.offset <= u64::MAX - delay {
            self.offset + delay
        } else {
            u64::MAX
        };
        StdInstant { base: self.base, offset }
    }

    fn sub(self, delay: u64) -> (r: Self) {
        let offset: u64 = if self.offset >= delay {
            self.offset - delay
        } else {
            0
        };
        StdInstant { base: self.base, offset }
    }

    fn checked_duration_until(&self, later: Self) -> (r: Option<u64>) {
        match span_forward(&self.base, &later.base) {
            Some(fwd) => {
                // later's line starts `fwd` nanoseconds ahead of this one
                let total: u128 = fwd as u128 + later.offset as u128;
                if total >= self.offset as u128 {
                    let gap: u128 = total - self.offset as u128;
                    Some(if gap > u64::MAX as u128 { u64::MAX } else { gap as u64 })
                } else {
                    None
                }
            },
            None => {
                // later's line starts behind this one
                let back = span_backward(&self.base, &later.base);
                let need: u128 = self.offset as u128 + back as u128;
                if later.offset as u128 >= need {
                    Some((later.offset as u128 - need) as u64)
                } else {
                    None
                }
            },
        }
    }

    fn checked_duration_since(&self, earlier: Self) -> (r: Option<u64>) {
        earlier.checked_duration_until(*self)
    }
}

/// The null variant, standing in when no clock source is configured. It is
/// never `configured()`, so no call to it verifies: a build that accidentally
/// depends on time without a clock fails loudly, at verification, rather than
/// returning garbage readings. The bodies below are unreachable from verified
/// code.
#[derive(Clone, Copy, PartialEq, Eq, PartialOrd, Ord, Hash, Debug)]
pub struct DummyInstant;

impl InstantTrait for DummyInstant {
    open spec fn configured() -> bool {
        false
    }

    open spec fn nanos(self) -> u64 {
        0
    }

    open spec fn comparable(self, other: Self) -> bool {
        true
    }

    fn now() -> (r: Self) {
        DummyInstant
    }

    fn with_delay(_delay: u64) -> (r: Self) {
        DummyInstant
    }

    fn add(self, _delay: u64) -> (r: Self) {
        self
    }

    fn sub(self, _delay: u64) -> (r: Self) {
        self
    }

    fn checked_duration_until(&self, _later: Self) -> (r: Option<u64>) {
        None
    }

    fn checked_duration_since(&self, _earlier: Self) -> (r: Option<u64>) {
        None
    }
}

/// The backend-independent instant: the facade callers name. It wraps the one
/// clock variant that is active in this build, the system clock.
#[derive(Clone, Copy)]
pub struct Instant(pub StdInstant);

impl InstantTrait for Instant {
    open spec fn configured() -> bool {
        true
    }

    open spec fn nanos(self) -> u64 {
        self.0.nanos()
    }

    open spec fn comparable(self, other: Self) -> bool {
        self.0.comparable(other.0)
    }

    fn now() -> (r: Self) {
        Instant(StdInstant::now())
    }

    fn with_delay(delay: u64) -> (r: Self) {
        Instant(StdInstant::with_delay(delay))
    }

    fn add(self, delay: u64) -> (r: Self) {
        Instant(self.0.add(delay))
    }

    fn sub(self, delay: u64) -> (r: Self) {
        Instant(self.0.sub(delay))
    }

    fn checked_duration_until(&self, later: Self) -> (r: Option<u64>) {
        self.0.checked_duration_until(later.0)
    }

    fn checked_duration_since(&self, earlier: Self) -> (r: Option<u64>) {
        self.0.checked_duration_since(earlier.0)
    }
}

/// A delay measured back gives the delay: for every instant `t` of any clock
/// variant and every delay `d` whose sum stays in range, the span from `t`
/// forward to `t` plus `d` is exactly `d`, measuring the same pair from the
/// later end gives exactly `d` again, and the span from `t` plus `d` forward
/// to `t` is no value at all unless `d` is zero. The instant operations are
/// specified by exactly these spec functions, so the law carries to each of
/// them.
pub proof fn lemma_duration_round_trip<I: InstantTrait>(t: I, d: u64)
    requires
        t.nanos() + d <= u64::MAX,
    ensures
        duration_between(t.nanos(), sat_add_nanos(t.nanos(), d)) == Some(d),
        duration_between(sat_add_nanos(t.nanos(), d), t.nanos()) == if d == 0 {
            Some(0u64)
        } else {
            None::<u64>
        },
{
}

} // verus!
