//! Time operation and management.
use vstd::prelude::*;

use crate::sys::result::{SceIntoOkValue, SceOkRoundTrip, SceResultOk};
use crate::time::{
    checked_add_nanos, checked_sub_nanos, max_duration_nanos, Duration, NANOS_PER_MICRO,
    NANOS_PER_SEC,
};

verus! {

/// The 64-bit system clock type.
#[derive(Debug, Copy, Clone, PartialEq, Eq, Structural, PartialOrd, Ord, Hash)]
pub struct SystemClock {
    pub low: u32,
    pub hi: u32,
}

impl Default for SystemClock {
    fn default() -> (r: SystemClock)
        ensures
            r == (SystemClock { low: 0, hi: 0 }),
    {
        SystemClock { low: 0, hi: 0 }
    }
}

/// PSP Date Time structure.
#[derive(Debug, Copy, Clone, PartialEq, Eq, Structural, PartialOrd, Ord, Hash)]
pub struct DateTime {
    pub year: u16,
    pub month: u16,
    pub day: u16,
    pub hour: u16,
    pub minutes: u16,
    pub seconds: u16,
    pub microseconds: u32,
}

impl Default for DateTime {
    fn default() -> (r: DateTime)
        ensures
            r == (DateTime {
                year: 0,
                month: 0,
                day: 0,
                hour: 0,
                minutes: 0,
                seconds: 0,
                microseconds: 0,
            }),
    {
        DateTime { year: 0, month: 0, day: 0, hour: 0, minutes: 0, seconds: 0, microseconds: 0 }
    }
}

/// The possible month values.
#[derive(Debug, Copy, Clone, PartialEq, Eq, Structural, PartialOrd, Ord, Hash)]
pub enum Month {
    January,
    February,
    March,
    April,
    May,
    June,
    July,
    August,
    September,
    October,
    November,
    December,
}

impl Month {
    /// The number of the month, from 1 for January to 12 for December.
    pub open spec fn spec_raw(self) -> u16 {
        match self {
            Month::January => 1,
            Month::February => 2,
            Month::March => 3,
            Month::April => 4,
            Month::May => 5,
            Month::June => 6,
            Month::July => 7,
            Month::August => 8,
            Month::September => 9,
            Month::October => 10,
            Month::November => 11,
            Month::December => 12,
        }
    }

    /// The number of the month, from 1 for January to 12 for December.
    pub fn as_raw(self) -> (r: u16)
        ensures
            r == self.spec_raw(),
    {
        match self {
            Month::January => 1,
            Month::February => 2,
            Month::March => 3,
            Month::April => 4,
            Month::May => 5,
            Month::June => 6,
            Month::July => 7,
            Month::August => 8,
            Month::September => 9,
            Month::October => 10,
            Month::November => 11,
            Month::December => 12,
        }
    }
}

impl Default for Month {
    fn default() -> (r: Month)
        ensures
            r == Month::January,
    {
        Month::January
    }
}

/// The possible values for day of the week.
#[derive(Debug, Clone, Copy, PartialEq, Eq, Structural, PartialOrd, Ord, Hash)]
pub enum DayOfWeek {
    Sunday,
    Monday,
    Tuesday,
    Wednesday,
    Thursday,
    Friday,
    Saturday,
}

impl DayOfWeek {
    /// The number of the day, from 0 for Sunday to 6 for Saturday.
    pub open spec fn spec_raw(self) -> u8 {
        match self {
            DayOfWeek::Sunday => 0,
            DayOfWeek::Monday => 1,
            DayOfWeek::Tuesday => 2,
            DayOfWeek::Wednesday => 3,
            DayOfWeek::Thursday => 4,
            DayOfWeek::Friday => 5,
            DayOfWeek::Saturday => 6,
        }
    }

    /// The day with the given number, from 0 for Sunday to 6 for Saturday.
    pub open spec fn spec_from_raw(raw: u32) -> Option<DayOfWeek> {
        if raw == 0 {
            Some(DayOfWeek::Sunday)
        } else if raw == 1 {
            Some(DayOfWeek::Monday)
        } else if raw == 2 {
            Some(DayOfWeek::Tuesday)
        } else if raw == 3 {
            Some(DayOfWeek::Wednesday)
        } else if raw == 4 {
            Some(DayOfWeek::Thursday)
        } else if raw == 5 {
            Some(DayOfWeek::Friday)
        } else if raw == 6 {
            Some(DayOfWeek::Saturday)
        } else {
            None
        }
    }

    fn from_raw(raw: u32) -> (r: Option<DayOfWeek>)
        ensures
            r == DayOfWeek::spec_from_raw(raw),
    {
        match raw {
            0 => Some(DayOfWeek::Sunday),
            1 => Some(DayOfWeek::Monday),
            2 => Some(DayOfWeek::Tuesday),
            3 => Some(DayOfWeek::Wednesday),
            4 => Some(DayOfWeek::Thursday),
            5 => Some(DayOfWeek::Friday),
            6 => Some(DayOfWeek::Saturday),
            _ => None,
        }
    }
}

impl Default for DayOfWeek {
    fn default() -> (r: DayOfWeek)
        ensures
            r == DayOfWeek::Sunday,
    {
        DayOfWeek::Sunday
    }
}

impl SceResultOk for DayOfWeek {
    open spec fn ok_value_spec(ok_value: u32) -> Option<DayOfWeek> {
        DayOfWeek::spec_from_raw(ok_value)
    }

    open spec fn ok_value64_spec(ok_value: u64) -> Option<DayOfWeek> {
        if ok_value <= 6 {
            DayOfWeek::spec_from_raw(ok_value as u32)
        } else {
            None
        }
    }

    fn handle_ok_value(ok_value: u32) -> (r: Option<DayOfWeek>) {
        DayOfWeek::from_raw(ok_value)
    }

    fn handle_ok_value64(ok_value: u64) -> (r: Option<DayOfWeek>) {
        if ok_value <= 6 {
            DayOfWeek::from_raw(ok_value as u32)
        } else {
            None
        }
    }
}

impl SceIntoOkValue for DayOfWeek {
    open spec fn into_ok_spec(self) -> u32 {
        self.spec_raw() as u32
    }

    fn into_ok_value(self) -> (r: u32) {
        match self {
            DayOfWeek::Sunday => 0,
            DayOfWeek::Monday => 1,
            DayOfWeek::Tuesday => 2,
            DayOfWeek::Wednesday => 3,
            DayOfWeek::Thursday => 4,
            DayOfWeek::Friday => 5,
            DayOfWeek::Saturday => 6,
        }
    }
}

impl SceOkRoundTrip for DayOfWeek {
    proof fn lemma_ok_round_trip(v: DayOfWeek) {
    }
}

// ---------------------------------------------------------------------------------------------
// Wall clock and monotonic clock.
// ---------------------------------------------------------------------------------------------
/// Seconds from the PSP epoch (0001-01-01 00:00:00 UTC) to the Unix epoch
/// (1970-01-01 00:00:00 UTC).
pub const PSP_TO_UNIX_EPOCH_SECS: u64 = 62_135_596_800;

/// The nanoseconds since the PSP epoch of a real-time clock reading: `tick` ticks at
/// `resolution` ticks per second, or microsecond ticks when the resolution is 0.
pub open spec fn tick_nanos(tick: u64, resolution: u32) -> nat {
    if resolution > 0 {
        (tick / (resolution as u64)) as nat * (NANOS_PER_SEC as nat) + ((tick % (resolution as u64))
            as nat * (NANOS_PER_SEC as nat)) / (resolution as nat)
    } else {
        (tick as nat) * (NANOS_PER_MICRO as nat)
    }
}

/// A clock reading is converted exactly, rounding down to whole nanoseconds: `tick` ticks at
/// `resolution` ticks per second are `tick * 10^9 / resolution` nanoseconds, and `tick`
/// microsecond ticks are `tick * 1000` nanoseconds.
pub proof fn lemma_tick_nanos_exact(tick: u64, resolution: u32)
    ensures
        resolution > 0 ==> tick_nanos(tick, resolution) == (tick as nat) * (NANOS_PER_SEC as nat)
            / (resolution as nat),
        resolution == 0 ==> tick_nanos(tick, resolution) == (tick as nat) * 1000,
{
    if resolution > 0 {
        let t = tick as int;
        let r = resolution as int;
        let q = t / r;
        let m = t % r;
        assert(tick / (resolution as u64) == q);
        assert(tick % (resolution as u64) == m);
        vstd::arithmetic::div_mod::lemma_fundamental_div_mod(t, r);
        assert(t * 1_000_000_000 == (m * 1_000_000_000) + (q * 1_000_000_000) * r) by (nonlinear_arith)
            requires
                t == r * q + m,
        ;
        vstd::arithmetic::div_mod::lemma_hoist_over_denominator(
            m * 1_000_000_000,
            q * 1_000_000_000,
            r as nat,
        );
    }
}

/// A point of the wall clock, as the time elapsed since the PSP epoch (0001-01-01).
///
/// Its value (`@`) is the number of nanoseconds since that epoch.
#[derive(Copy, Clone, PartialEq, Eq, Structural, PartialOrd, Ord, Debug, Hash)]
pub struct SystemTime(Duration);

impl View for SystemTime {
    type V = nat;

    closed spec fn view(&self) -> nat {
        self.0@
    }
}

impl SystemTime {
    /// The latest point a `SystemTime` can hold.
    pub fn max() -> (r: SystemTime)
        ensures
            r@ == max_duration_nanos(),
    {
        SystemTime(Duration::max())
    }

    /// The PSP epoch itself.
    pub fn min() -> (r: SystemTime)
        ensures
            r@ == 0,
    {
        SystemTime(Duration::zero())
    }

    /// The Unix epoch, 1970-01-01 00:00:00 UTC.
    pub fn unix_epoch() -> (r: SystemTime)
        ensures
            r@ == (PSP_TO_UNIX_EPOCH_SECS as nat) * (NANOS_PER_SEC as nat),
    {
        SystemTime(Duration::from_secs(PSP_TO_UNIX_EPOCH_SECS))
    }

    /// The point of the wall clock given by a real-time clock reading: `tick` ticks since the
    /// PSP epoch at `resolution` ticks per second. A resolution of 0 is taken as microsecond
    /// ticks.
    pub fn now(tick: u64, resolution: u32) -> (r: SystemTime)
        ensures
            r@ == tick_nanos(tick, resolution),
            resolution > 0 ==> r@ == (tick as nat) * (NANOS_PER_SEC as nat) / (resolution as nat),
            resolution == 0 ==> r@ == (tick as nat) * 1000,
    {
        proof {
            lemma_tick_nanos_exact(tick, resolution);
        }
        if resolution > 0 {
            let res = resolution as u64;
            let seconds = tick / res;
            let remaining = tick % res;
            assert(remaining * 1_000_000_000 < 0x1_0000_0000 * 1_000_000_000) by (nonlinear_arith)
                requires
                    remaining < res,
                    res <= 0xFFFF_FFFF,
            ;
            let scaled = remaining * 1_000_000_000;
            let nanosecs = scaled / res;
            assert(nanosecs < 1_000_000_000) by (nonlinear_arith)
                requires
                    nanosecs == scaled / res,
                    scaled == remaining * 1_000_000_000,
                    remaining < res,
                    res > 0,
            ;
            SystemTime(Duration::new(seconds, nanosecs as u32))
        } else {
            SystemTime(Duration::from_micros(tick))
        }
    }

    /// The time elapsed from `other` to `self`, or, when `other` is later, `Err` with the time
    /// elapsed from `self` to `other`.
    pub fn sub_time(&self, other: &SystemTime) -> (r: Result<Duration, Duration>)
        ensures
            r is Ok <==> self@ >= other@,
            r matches Ok(d) ==> d@ == self@ - other@,
            r matches Err(d) ==> d@ == other@ - self@,
            (match r {
                Ok(d) => Ok(d@),
                Err(d) => Err(d@),
            }) == elapsed_nanos(self@, other@),
            self@ <= max_duration_nanos(),
            other@ <= max_duration_nanos(),
    {
        match self.0.checked_sub(other.0) {
            Some(d) => Ok(d),
            None => Err(other.0.difference(self.0)),
        }
    }

    /// The point `other` later than `self`, or `None` when it cannot be represented.
    pub fn checked_add_duration(&self, other: &Duration) -> (r: Option<SystemTime>)
        ensures
            r is Some <==> self@ + other@ <= max_duration_nanos(),
            r matches Some(t) ==> t@ == self@ + other@,
            (match r {
                Some(t) => Some(t@),
                None => None,
            }) == checked_add_nanos(self@, other@),
            self@ <= max_duration_nanos(),
            other@ <= max_duration_nanos(),
    {
        match self.0.checked_add(*other) {
            Some(d) => Some(SystemTime(d)),
            None => None,
        }
    }

    /// The point `other` earlier than `self`, or `None` when it is before the PSP epoch.
    pub fn checked_sub_duration(&self, other: &Duration) -> (r: Option<SystemTime>)
        ensures
            r is Some <==> self@ >= other@,
            r matches Some(t) ==> t@ == self@ - other@,
            (match r {
                Some(t) => Some(t@),
                None => None,
            }) == checked_sub_nanos(self@, other@),
            self@ <= max_duration_nanos(),
            other@ <= max_duration_nanos(),
    {
        match self.0.checked_sub(*other) {
            Some(d) => Some(SystemTime(d)),
            None => None,
        }
    }
}

/// A point of the monotonic clock, as the time elapsed since the system booted.
///
/// Its value (`@`) is the number of nanoseconds since boot.
#[derive(Copy, Clone, PartialEq, Eq, Structural, PartialOrd, Ord, Debug, Hash)]
pub struct Instant(Duration);

impl View for Instant {
    type V = nat;

    closed spec fn view(&self) -> nat {
        self.0@
    }
}

impl Instant {
    /// The point of the monotonic clock given by the system time in microseconds since boot.
    pub fn now(micros: u64) -> (r: Instant)
        ensures
            r@ == (micros as nat) * (NANOS_PER_MICRO as nat),
    {
        Instant(Duration::from_micros(micros))
    }

    /// The time elapsed from `other` to `self`, or `None` when `other` is later.
    pub fn checked_sub_instant(&self, other: &Instant) -> (r: Option<Duration>)
        ensures
            r is Some <==> self@ >= other@,
            r matches Some(d) ==> d@ == self@ - other@,
            (match r {
                Some(d) => Some(d@),
                None => None,
            }) == checked_sub_nanos(self@, other@),
            self@ <= max_duration_nanos(),
            other@ <= max_duration_nanos(),
    {
        self.0.checked_sub(other.0)
    }

    /// The point `other` later than `self`, or `None` when it cannot be represented.
    pub fn checked_add_duration(&self, other: &Duration) -> (r: Option<Instant>)
        ensures
            r is Some <==> self@ + other@ <= max_duration_nanos(),
            r matches Some(t) ==> t@ == self@ + other@,
            (match r {
                Some(t) => Some(t@),
                None => None,
            }) == checked_add_nanos(self@, other@),
            self@ <= max_duration_nanos(),
            other@ <= max_duration_nanos(),
    {
        match self.0.checked_add(*other) {
            Some(d) => Some(Instant(d)),
            None => None,
        }
    }

    /// The point `other` earlier than `self`, or `None` when it is before boot.
    pub fn checked_sub_duration(&self, other: &Duration) -> (r: Option<Instant>)
        ensures
            r is Some <==> self@ >= other@,
            r matches Some(t) ==> t@ == self@ - other@,
            (match r {
                Some(t) => Some(t@),
                None => None,
            }) == checked_sub_nanos(self@, other@),
            self@ <= max_duration_nanos(),
            other@ <= max_duration_nanos(),
    {
        match self.0.checked_sub(*other) {
            Some(d) => Some(Instant(d)),
            None => None,
        }
    }
}


/// The time elapsed between two points, in nanoseconds: `Ok` from `earlier` to `later`, or,
/// when `earlier` is in fact later, `Err` with the time elapsed the other way.
pub open spec fn elapsed_nanos(later: nat, earlier: nat) -> Result<nat, nat> {
    if later >= earlier {
        Ok((later - earlier) as nat)
    } else {
        Err((earlier - later) as nat)
    }
}

/// The time elapsed between two different points is the same whichever comes first: it is
/// `Ok` from the earlier to the later point and `Err` the other way round, with the same length.
pub proof fn lemma_elapsed_antisymmetric(a: nat, b: nat)
    requires
        a != b,
    ensures
        elapsed_nanos(a, b) matches Ok(x) ==> elapsed_nanos(b, a) == Err::<nat, nat>(x),
        elapsed_nanos(a, b) matches Err(x) ==> elapsed_nanos(b, a) == Ok::<nat, nat>(x),
{
}

// ---------------------------------------------------------------------------------------------
// The numbers of the enumerations.
// ---------------------------------------------------------------------------------------------
/// The numbers that stand for the values of [`Month`] in the system interface: `January` is 1, `February` is 2, `March` is 3, `April` is 4, `May` is 5, `June` is 6, `July` is 7, `August` is 8, `September` is 9, `October` is 10, `November` is 11, `December` is 12.
pub proof fn lemma_month_codes()
    ensures
        Month::January.spec_raw() == 1,
        Month::February.spec_raw() == 2,
        Month::March.spec_raw() == 3,
        Month::April.spec_raw() == 4,
        Month::May.spec_raw() == 5,
        Month::June.spec_raw() == 6,
        Month::July.spec_raw() == 7,
        Month::August.spec_raw() == 8,
        Month::September.spec_raw() == 9,
        Month::October.spec_raw() == 10,
        Month::November.spec_raw() == 11,
        Month::December.spec_raw() == 12,
{
}

/// The numbers that stand for the values of [`DayOfWeek`] in the system interface: `Sunday` is 0, `Monday` is 1, `Tuesday` is 2, `Wednesday` is 3, `Thursday` is 4, `Friday` is 5, `Saturday` is 6.
/// A number is read as the value it stands for, and as nothing else.
/// A success word is decoded by the same numbers, whether it comes as 32 or 64 bits.
/// A value is encoded as its number.
pub proof fn lemma_day_of_week_codes()
    ensures
        DayOfWeek::Sunday.spec_raw() == 0,
        DayOfWeek::Monday.spec_raw() == 1,
        DayOfWeek::Tuesday.spec_raw() == 2,
        DayOfWeek::Wednesday.spec_raw() == 3,
        DayOfWeek::Thursday.spec_raw() == 4,
        DayOfWeek::Friday.spec_raw() == 5,
        DayOfWeek::Saturday.spec_raw() == 6,
        forall|raw: u32| #[trigger] DayOfWeek::spec_from_raw(raw) matches Some(d) ==> d.spec_raw() == raw,
        forall|d: DayOfWeek| #[trigger] DayOfWeek::spec_from_raw(d.spec_raw() as u32) == Some(d),
        forall|raw: u32| #[trigger] <DayOfWeek as SceResultOk>::ok_value_spec(raw) matches Some(d) ==> d.spec_raw() == raw,
        forall|d: DayOfWeek| #[trigger] <DayOfWeek as SceResultOk>::ok_value_spec(d.spec_raw() as u32) == Some(d),
        forall|raw: u64| #[trigger] <DayOfWeek as SceResultOk>::ok_value64_spec(raw) matches Some(d) ==> d.spec_raw() == raw,
        forall|d: DayOfWeek| #[trigger] <DayOfWeek as SceResultOk>::ok_value64_spec(d.spec_raw() as u64) == Some(d),
        forall|d: DayOfWeek| #[trigger] d.into_ok_spec() == d.spec_raw(),
{
    assert forall|d: DayOfWeek| #![trigger d.spec_raw()] DayOfWeek::spec_from_raw(d.spec_raw() as u32) == Some(d) && <DayOfWeek as SceResultOk>::ok_value_spec(d.spec_raw() as u32) == Some(d) && <DayOfWeek as SceResultOk>::ok_value64_spec(d.spec_raw() as u64) == Some(d) && d.into_ok_spec() == d.spec_raw() by {
        match d {
            DayOfWeek::Sunday => {},
            DayOfWeek::Monday => {},
            DayOfWeek::Tuesday => {},
            DayOfWeek::Wednesday => {},
            DayOfWeek::Thursday => {},
            DayOfWeek::Friday => {},
            DayOfWeek::Saturday => {},
        }
    }
}

} // verus!
