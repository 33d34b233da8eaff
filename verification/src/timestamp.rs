//! Calendar instants, 64-bit NTP timestamps, and the conversions between
//! the two.
//!
//! A calendar instant counts whole seconds from the Unix epoch and
//! nanoseconds inside the second. An NTP timestamp counts seconds from
//! `1900-01-01T00:00:00Z` in 32 bits and divides the second into `2^32`
//! parts. Neither subdivision is a multiple of the other, so both
//! conversions round to the nearest unit.

use vstd::prelude::*;

verus! {

/// Nanoseconds in one second.
pub const NANOS_PER_SECOND: u32 = 1_000_000_000;

/// Parts into which the NTP fraction field divides one second, `2^32`.
pub const FRACTIONS_PER_SECOND: u64 = 4_294_967_296;

/// Seconds from the NTP epoch, `1900-01-01T00:00:00Z`, to the Unix epoch.
pub const NTP_TO_UNIX_SECONDS: i64 = 2_208_988_800;

/// Unix second count of the first instant the calendar can name,
/// `-262143-01-01T00:00:00Z`.
pub const MIN_UNIX_SECONDS: i64 = -8_334_601_228_800;

/// Unix second count of the last second the calendar can name,
/// `+262142-12-31T23:59:59Z`.
pub const MAX_UNIX_SECONDS: i64 = 8_210_266_876_799;

/// The mathematical value of a calendar instant.
pub struct Instant {
    /// Whole seconds since `1970-01-01T00:00:00Z`; negative before it.
    pub secs: int,
    /// Nanoseconds since the start of that second.
    pub nanos: int,
}

impl Instant {
    /// An instant is valid when the calendar can name its second and the
    /// nanosecond count stays inside one second.
    pub open spec fn valid(self) -> bool {
        &&& MIN_UNIX_SECONDS <= self.secs <= MAX_UNIX_SECONDS
        &&& 0 <= self.nanos < NANOS_PER_SECOND
    }

    /// Nanoseconds between the Unix epoch and this instant.
    pub open spec fn total_nanos(self) -> int {
        self.secs * 1_000_000_000 + self.nanos
    }
}

/// The integer nearest to `a / b`, halves going up, for `a >= 0` and `b > 0`.
pub open spec fn round_div(a: int, b: int) -> int {
    (a + b / 2) / b
}

/// The fraction field that stands for `nanos` nanoseconds, before it is cut
/// to 32 bits: `nanos * 2^32 / 10^9`, rounded to the nearest integer.
pub open spec fn fraction_of_nanos(nanos: int) -> int {
    round_div(nanos * FRACTIONS_PER_SECOND, NANOS_PER_SECOND as int)
}

/// The nanosecond count that stands for a fraction field:
/// `fraction * 10^9 / 2^32`, rounded to the nearest integer and held to at
/// most `999_999_999`.
pub open spec fn nanos_of_fraction(fraction: int) -> int {
    let rounded = round_div(fraction * NANOS_PER_SECOND, FRACTIONS_PER_SECOND as int);
    if rounded < NANOS_PER_SECOND {
        rounded
    } else {
        NANOS_PER_SECOND - 1
    }
}

/// The seconds field for Unix second `unix_secs`: the count of seconds since
/// the NTP epoch, cut to its low 32 bits.
pub open spec fn wire_seconds(unix_secs: int) -> int {
    (unix_secs + NTP_TO_UNIX_SECONDS) % (FRACTIONS_PER_SECOND as int)
}

/// A UTC instant with nanosecond precision.
///
/// Every value is valid in the sense of [`Instant::valid`]; the fields are
/// private so that no caller can build one that is not.
#[derive(Clone, Copy, Debug, PartialEq, Eq)]
pub struct CalendarTimestamp {
    secs: i64,
    nanos: u32,
}

impl View for CalendarTimestamp {
    type V = Instant;

    closed spec fn view(&self) -> Instant {
        Instant { secs: self.secs as int, nanos: self.nanos as int }
    }
}

impl CalendarTimestamp {
    /// The invariant every value carries.
    #[verifier::type_invariant]
    pub open spec fn wf(self) -> bool {
        self@.valid()
    }

    /// Builds the instant `nanos` nanoseconds after Unix second `secs`, or
    /// `None` when that pair is not a valid instant.
    pub fn new(secs: i64, nanos: u32) -> (r: Option<CalendarTimestamp>)
        ensures
            (Instant { secs: secs as int, nanos: nanos as int }).valid() <==> r.is_some(),
            r matches Some(t) ==> t@ == (Instant { secs: secs as int, nanos: nanos as int }),
    {
        if MIN_UNIX_SECONDS <= secs && secs <= MAX_UNIX_SECONDS && nanos < NANOS_PER_SECOND {
            Some(CalendarTimestamp { secs, nanos })
        } else {
            None
        }
    }

    /// Whole seconds since the Unix epoch.
    pub fn timestamp(&self) -> (secs: i64)
        ensures
            secs == self@.secs,
            self@.valid(),
    {
        proof {
            use_type_invariant(self);
        }
        self.secs
    }

    /// Nanoseconds since the last second boundary.
    pub fn timestamp_subsec_nanos(&self) -> (nanos: u32)
        ensures
            nanos == self@.nanos,
            self@.valid(),
    {
        proof {
            use_type_invariant(self);
        }
        self.nanos
    }
}

/// A 64-bit NTP timestamp as it travels on the wire.
///
/// `seconds` wraps every `2^32` seconds (about 136 years); a value carries
/// no record of how often it has wrapped.
#[derive(Clone, Copy, Debug, PartialEq, Eq)]
pub struct NTPTimestamp {
    /// Seconds since `1900-01-01T00:00:00Z`, modulo `2^32`.
    pub seconds: u32,
    /// The part of a second that has passed, in units of `2^-32` seconds.
    pub fraction: u32,
}

impl NTPTimestamp {
    /// The instant that this timestamp names, taking `seconds` as a count
    /// that has not wrapped.
    pub open spec fn instant(self) -> Instant {
        Instant {
            secs: self.seconds - NTP_TO_UNIX_SECONDS,
            nanos: nanos_of_fraction(self.fraction as int),
        }
    }

    /// The timestamp that names a calendar instant.
    pub open spec fn of_instant(t: Instant) -> NTPTimestamp {
        NTPTimestamp {
            seconds: wire_seconds(t.secs) as u32,
            fraction: (fraction_of_nanos(t.nanos) % (FRACTIONS_PER_SECOND as int)) as u32,
        }
    }
}

impl Default for NTPTimestamp {
    /// The NTP epoch itself.
    fn default() -> (r: NTPTimestamp)
        ensures
            r.seconds == 0,
            r.fraction == 0,
    {
        NTPTimestamp { seconds: 0, fraction: 0 }
    }
}

impl vstd::std_specs::convert::FromSpecImpl<CalendarTimestamp> for NTPTimestamp {
    open spec fn obeys_from_spec() -> bool {
        true
    }

    open spec fn from_spec(utc: CalendarTimestamp) -> NTPTimestamp {
        NTPTimestamp::of_instant(utc@)
    }
}

impl From<CalendarTimestamp> for NTPTimestamp {
    /// Converts a calendar instant to the wire format.
    ///
    /// The seconds field wraps for instants outside 1900 to 2036; the
    /// fraction field never does, it is the rounded value itself.
    fn from(utc: CalendarTimestamp) -> (r: NTPTimestamp)
        ensures
            r == NTPTimestamp::of_instant(utc@),
            r.seconds == wire_seconds(utc@.secs),
            r.fraction == fraction_of_nanos(utc@.nanos),
    {
        let unix_secs = utc.timestamp();
        let nanos = utc.timestamp_subsec_nanos();
        let secs: i64 = unix_secs + NTP_TO_UNIX_SECONDS;
        let seconds = #[verifier::truncate] (secs as u32);
        assert(secs as u32 == secs % 0x1_0000_0000) by (bit_vector);
        let scaled: u64 = (nanos as u64) * FRACTIONS_PER_SECOND + 500_000_000;
        let fraction: u64 = scaled / 1_000_000_000;
        NTPTimestamp { seconds, fraction: fraction as u32 }
    }
}

impl vstd::std_specs::convert::FromSpecImpl<NTPTimestamp> for CalendarTimestamp {
    open spec fn obeys_from_spec() -> bool {
        true
    }

    closed spec fn from_spec(value: NTPTimestamp) -> CalendarTimestamp {
        CalendarTimestamp {
            secs: (value.seconds - NTP_TO_UNIX_SECONDS) as i64,
            nanos: nanos_of_fraction(value.fraction as int) as u32,
        }
    }
}

impl From<NTPTimestamp> for CalendarTimestamp {
    /// Converts a wire timestamp to the calendar instant it names.
    fn from(value: NTPTimestamp) -> (r: CalendarTimestamp)
        ensures
            r@ == value.instant(),
    {
        let secs: i64 = value.seconds as i64 - NTP_TO_UNIX_SECONDS;
        let scaled: u64 = (value.fraction as u64) * 1_000_000_000 + 2_147_483_648;
        let rounded: u64 = scaled / FRACTIONS_PER_SECOND;
        let nanos: u32 = if rounded < 1_000_000_000 {
            rounded as u32
        } else {
            999_999_999
        };
        CalendarTimestamp { secs, nanos }
    }
}

/// `round_div(a, b)` is the integer nearest to `a / b`: it lies within half
/// of `b` of `a` once scaled back, and an exact half goes up.
pub proof fn lemma_round_div_is_nearest(a: int, b: int)
    requires
        0 <= a,
        0 < b,
    ensures
        2 * (round_div(a, b) * b - a) <= b,
        2 * (a - round_div(a, b) * b) < b,
{
    let h = b / 2;
    let q = (a + h) / b;
    let r = (a + h) % b;
    assert(a + h == q * b + r && 0 <= r < b) by (nonlinear_arith)
        requires
            0 < b,
            q == (a + h) / b,
            r == (a + h) % b,
    ;
    assert(2 * h <= b < 2 * h + 2);
}

/// Every nanosecond count inside one second has a fraction field inside
/// `[0, 2^32)`: cutting the rounded value to 32 bits loses nothing.
pub proof fn lemma_fraction_in_range(nanos: int)
    requires
        0 <= nanos < NANOS_PER_SECOND,
    ensures
        0 <= fraction_of_nanos(nanos) < FRACTIONS_PER_SECOND,
{
}

/// A fraction field that came from a nanosecond count gives that count
/// back, exactly: half a fraction unit is less than half a nanosecond.
pub proof fn lemma_nanos_round_trip(nanos: int)
    requires
        0 <= nanos < NANOS_PER_SECOND,
    ensures
        nanos_of_fraction(fraction_of_nanos(nanos)) == nanos,
{
    let scaled = nanos * 4_294_967_296;
    let f = (scaled + 500_000_000) / 1_000_000_000;
    assert(f == fraction_of_nanos(nanos));
    assert(scaled - 500_000_000 < f * 1_000_000_000 <= scaled + 500_000_000);
    let back = f * 1_000_000_000 + 2_147_483_648;
    assert(nanos * 4_294_967_296 <= back < (nanos + 1) * 4_294_967_296);
    assert(back / 4_294_967_296 == nanos) by (nonlinear_arith)
        requires
            nanos * 4_294_967_296 <= back < (nanos + 1) * 4_294_967_296,
    ;
    assert(round_div(f * 1_000_000_000, 4_294_967_296) == nanos);
}

/// What `CalendarTimestamp::from` and `into` return for a wire timestamp has
/// the value [`NTPTimestamp::instant`], which is always a valid instant.
pub proof fn lemma_from_ntp_value(value: NTPTimestamp)
    ensures
        <CalendarTimestamp as vstd::std_specs::convert::FromSpec<NTPTimestamp>>::from_spec(value)@
            == value.instant(),
        value.instant().valid(),
{
}

/// Calendar to NTP and back gives the same instant, second and nanosecond,
/// for every instant from `1900-01-01T00:00:00Z` up to the second before the
/// seconds field wraps, `2036-02-07T06:28:15Z`.
pub proof fn lemma_calendar_round_trip(t: CalendarTimestamp)
    requires
        t.wf(),
        0 <= t@.secs + NTP_TO_UNIX_SECONDS < FRACTIONS_PER_SECOND,
    ensures
        NTPTimestamp::of_instant(t@).instant() == t@,
{
    lemma_fraction_in_range(t@.nanos);
    lemma_nanos_round_trip(t@.nanos);
}

} // verus!
