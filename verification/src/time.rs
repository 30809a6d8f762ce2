//! Spans of time.
use vstd::prelude::*;

verus! {

/// Nanoseconds in one second.
pub const NANOS_PER_SEC: u32 = 1_000_000_000;

/// Nanoseconds in one microsecond.
pub const NANOS_PER_MICRO: u32 = 1_000;

/// Microseconds in one second.
pub const MICROS_PER_SEC: u64 = 1_000_000;

/// The number of nanoseconds of the longest span a [`Duration`] can hold.
pub open spec fn max_duration_nanos() -> nat {
    (u64::MAX as nat) * (NANOS_PER_SEC as nat) + (NANOS_PER_SEC as nat - 1) as nat
}

/// The sum of two spans, in nanoseconds, or `None` when it is longer than any duration.
pub open spec fn checked_add_nanos(a: nat, b: nat) -> Option<nat> {
    if a + b <= max_duration_nanos() {
        Some(a + b)
    } else {
        None
    }
}

/// The difference of two spans, in nanoseconds, or `None` when `b` is longer than `a`.
pub open spec fn checked_sub_nanos(a: nat, b: nat) -> Option<nat> {
    if a >= b {
        Some((a - b) as nat)
    } else {
        None
    }
}

/// Taking away a span that was just added gives the first span back.
pub proof fn lemma_add_sub_round_trip(a: nat, b: nat)
    ensures
        checked_add_nanos(a, b) matches Some(s) ==> checked_sub_nanos(s, b) == Some(a),
{
}

/// Adding back a span that was just taken away gives the first span back. The bound holds of
/// every duration, and of every point of the clocks, as their operations state.
pub proof fn lemma_sub_add_round_trip(a: nat, b: nat)
    requires
        a <= max_duration_nanos(),
    ensures
        checked_sub_nanos(a, b) matches Some(s) ==> checked_add_nanos(s, b) == Some(a),
{
}

/// A span of time with nanosecond precision, as whole seconds and the nanoseconds of the
/// second that is not whole.
///
/// Its value (`@`) is the number of nanoseconds it spans.
#[derive(Clone, Copy, PartialEq, Eq, Structural, PartialOrd, Ord, Hash, Debug)]
pub struct Duration {
    secs: u64,
    nanos: u32,
}

impl View for Duration {
    type V = nat;

    closed spec fn view(&self) -> nat {
        (self.secs as nat) * (NANOS_PER_SEC as nat) + (self.nanos as nat)
    }
}

impl Duration {
    #[verifier::type_invariant]
    spec fn inv(self) -> bool {
        self.nanos < NANOS_PER_SEC
    }

    /// A duration holds at most [`max_duration_nanos`] nanoseconds, and its whole seconds and
    /// remaining nanoseconds are its value divided by one second, with remainder.
    proof fn lemma_parts(secs: u64, nanos: u32)
        requires
            nanos < NANOS_PER_SEC,
        ensures
            (Duration { secs, nanos })@ <= max_duration_nanos(),
            (Duration { secs, nanos })@ / (NANOS_PER_SEC as nat) == secs,
            (Duration { secs, nanos })@ % (NANOS_PER_SEC as nat) == nanos,
    {
        let v = (secs as nat) * (NANOS_PER_SEC as nat) + (nanos as nat);
        assert(v / 1_000_000_000 == secs && v % 1_000_000_000 == nanos) by (nonlinear_arith)
            requires
                v == (secs as nat) * 1_000_000_000 + (nanos as nat),
                nanos < 1_000_000_000,
        ;
    }

    /// The empty span.
    pub fn zero() -> (r: Duration)
        ensures
            r@ == 0,
    {
        Duration { secs: 0, nanos: 0 }
    }

    /// The longest span a duration can hold.
    pub fn max() -> (r: Duration)
        ensures
            r@ == max_duration_nanos(),
    {
        Duration { secs: u64::MAX, nanos: NANOS_PER_SEC - 1 }
    }

    /// Creates a duration from whole seconds and additional nanoseconds.
    ///
    /// Nanoseconds beyond one second carry into the seconds; the seconds must not overflow.
    pub fn new(secs: u64, nanos: u32) -> (r: Duration)
        requires
            (secs as nat) * (NANOS_PER_SEC as nat) + (nanos as nat) <= max_duration_nanos(),
        ensures
            r@ == (secs as nat) * (NANOS_PER_SEC as nat) + (nanos as nat),
    {
        let extra: u32 = nanos / NANOS_PER_SEC;
        let rest: u32 = nanos % NANOS_PER_SEC;
        assert(secs + extra <= u64::MAX) by (nonlinear_arith)
            requires
                (secs as nat) * 1_000_000_000 + (nanos as nat) <= (u64::MAX as nat) * 1_000_000_000
                    + 999_999_999,
                extra == nanos / 1_000_000_000,
        ;
        assert((secs + extra) * 1_000_000_000 + rest == secs * 1_000_000_000 + nanos)
            by (nonlinear_arith)
            requires
                extra == nanos / 1_000_000_000,
                rest == nanos % 1_000_000_000,
        ;
        Duration { secs: secs + extra as u64, nanos: rest }
    }

    /// Creates a duration of whole seconds.
    pub fn from_secs(secs: u64) -> (r: Duration)
        ensures
            r@ == (secs as nat) * (NANOS_PER_SEC as nat),
    {
        Duration { secs, nanos: 0 }
    }

    /// Creates a duration of whole microseconds.
    pub fn from_micros(micros: u64) -> (r: Duration)
        ensures
            r@ == (micros as nat) * (NANOS_PER_MICRO as nat),
    {
        let secs = micros / MICROS_PER_SEC;
        let sub_micros = micros % MICROS_PER_SEC;
        let nanos = (sub_micros * 1000) as u32;
        assert(secs * 1_000_000_000 + sub_micros * 1000 == micros * 1000) by (nonlinear_arith)
            requires
                secs == micros / 1_000_000,
                sub_micros == micros % 1_000_000,
        ;
        Duration { secs, nanos }
    }

    /// The number of whole seconds.
    pub fn as_secs(&self) -> (r: u64)
        ensures
            r == self@ / (NANOS_PER_SEC as nat),
    {
        proof {
            use_type_invariant(self);
            Self::lemma_parts(self.secs, self.nanos);
        }
        self.secs
    }

    /// The nanoseconds of the second that is not whole.
    pub fn subsec_nanos(&self) -> (r: u32)
        ensures
            r == self@ % (NANOS_PER_SEC as nat),
            r < NANOS_PER_SEC,
    {
        proof {
            use_type_invariant(self);
            Self::lemma_parts(self.secs, self.nanos);
        }
        self.nanos
    }

    /// The number of whole microseconds.
    pub fn as_micros(&self) -> (r: u128)
        ensures
            r == self@ / (NANOS_PER_MICRO as nat),
            self@ <= max_duration_nanos(),
    {
        proof {
            use_type_invariant(self);
            Self::lemma_parts(self.secs, self.nanos);
        }
        let secs = self.secs;
        let nanos = self.nanos;
        let r = secs as u128 * 1_000_000 + (nanos / NANOS_PER_MICRO) as u128;
        assert(r == (secs * 1_000_000_000 + nanos) / 1000) by (nonlinear_arith)
            requires
                r == secs * 1_000_000 + nanos / 1000,
                nanos < 1_000_000_000,
        ;
        r
    }

    /// The sum of two durations, or `None` when it is longer than any duration.
    pub fn checked_add(self, rhs: Duration) -> (r: Option<Duration>)
        ensures
            r is Some <==> self@ + rhs@ <= max_duration_nanos(),
            r matches Some(d) ==> d@ == self@ + rhs@,
            (match r {
                Some(d) => Some(d@),
                None => None,
            }) == checked_add_nanos(self@, rhs@),
            self@ <= max_duration_nanos(),
            rhs@ <= max_duration_nanos(),
    {
        proof {
            use_type_invariant(&self);
            use_type_invariant(&rhs);
            Self::lemma_parts(self.secs, self.nanos);
            Self::lemma_parts(rhs.secs, rhs.nanos);
        }
        let nanos = self.nanos + rhs.nanos;
        if self.secs > u64::MAX - rhs.secs {
            return None;
        }
        let secs = self.secs + rhs.secs;
        if nanos >= NANOS_PER_SEC {
            if secs == u64::MAX {
                return None;
            }
            Some(Duration { secs: secs + 1, nanos: nanos - NANOS_PER_SEC })
        } else {
            Some(Duration { secs, nanos })
        }
    }

    /// The difference of two durations, or `None` when `rhs` is longer than `self`.
    pub fn checked_sub(self, rhs: Duration) -> (r: Option<Duration>)
        ensures
            r is Some <==> self@ >= rhs@,
            r matches Some(d) ==> d@ == self@ - rhs@,
            (match r {
                Some(d) => Some(d@),
                None => None,
            }) == checked_sub_nanos(self@, rhs@),
            self@ <= max_duration_nanos(),
            rhs@ <= max_duration_nanos(),
    {
        proof {
            use_type_invariant(&self);
            use_type_invariant(&rhs);
            Self::lemma_parts(self.secs, self.nanos);
            Self::lemma_parts(rhs.secs, rhs.nanos);
        }
        if self.secs < rhs.secs {
            return None;
        }
        let secs = self.secs - rhs.secs;
        if self.nanos >= rhs.nanos {
            Some(Duration { secs, nanos: self.nanos - rhs.nanos })
        } else if secs == 0 {
            None
        } else {
            Some(Duration { secs: secs - 1, nanos: self.nanos + NANOS_PER_SEC - rhs.nanos })
        }
    }

    /// The difference of two durations where `rhs` is known not to be longer than `self`.
    pub fn difference(self, rhs: Duration) -> (r: Duration)
        requires
            self@ >= rhs@,
        ensures
            r@ == self@ - rhs@,
    {
        match self.checked_sub(rhs) {
            Some(d) => d,
            None => {
                assert(false);
                Duration::zero()
            },
        }
    }
}

} // verus!
