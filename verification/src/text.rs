//! Calendar instants as text: the three output standards, and the two of
//! them that can be read back.
//!
//! The calendar itself, which day a second falls on and how a date is
//! written, is the work of the `chrono` crate. It is reached through four
//! small functions at the end of this file whose contracts are taken on
//! trust; each gives the text or the instant a name, and the functions
//! above them state their results over those names.

use chrono::{DateTime, FixedOffset, ParseError};
use vstd::prelude::*;
use vstd::string::StringExecFns;
use crate::timestamp::{CalendarTimestamp, Instant};

verus! {

/// Local second count of `0000-01-01T00:00:00`, the first second that
/// RFC 2822 can write.
pub const MIN_RFC2822_SECONDS: i64 = -62_167_219_200;

/// Local second count of `9999-12-31T23:59:59`, the last second that
/// RFC 2822 can write.
pub const MAX_RFC2822_SECONDS: i64 = 253_402_300_799;

/// Seconds in one day: a zone's offset from UTC lies strictly inside one
/// day either way.
pub const SECONDS_PER_DAY: i32 = 86_400;

/// A standard for writing an instant as text.
#[derive(Clone, Copy, Debug, PartialEq, Eq)]
pub enum Standard {
    /// The count of seconds since the Unix epoch, in decimal.
    Timestamp,
    /// A date as in Internet mail: `Mon, 1 Jan 2024 00:00:00 +0000`.
    Rfc2822,
    /// A date as in Internet protocols: `2024-01-01T00:00:00+00:00`.
    Rfc3339,
}

/// Why a text could not be read as an instant.
#[derive(Clone, Copy, Debug, PartialEq, Eq)]
pub enum DatetimeError {
    /// The standard is one that is written but never read.
    UnsupportedStandard,
    /// The text is not a date and time in the standard.
    Unparsable,
    /// The text names a leap second, or a second that the calendar cannot
    /// hold.
    NotRepresentable,
}

/// Why an instant could not be written.
#[derive(Clone, Copy, Debug, PartialEq, Eq)]
pub enum RenderError {
    /// The zone's offset from UTC is a day or more.
    OffsetOutOfRange,
    /// The local year lies outside 0 to 9999, which RFC 2822 cannot write.
    YearOutOfRange,
}

/// The character for one decimal digit.
pub open spec fn digit_char(d: int) -> char {
    seq!['0', '1', '2', '3', '4', '5', '6', '7', '8', '9'][d]
}

/// The decimal digits of `n`, most significant first, without leading
/// zeros; `0` is the single digit `0`.
pub open spec fn decimal_digits(n: nat) -> Seq<char>
    decreases n,
{
    if n < 10 {
        seq![digit_char(n as int)]
    } else {
        decimal_digits(n / 10).push(digit_char((n % 10) as int))
    }
}

/// `n` in decimal, with a leading `-` where it is negative.
pub open spec fn decimal(n: int) -> Seq<char> {
    if n < 0 {
        seq!['-'] + decimal_digits((-n) as nat)
    } else {
        decimal_digits(n as nat)
    }
}

/// The instant that a parser's answer stands for: none where the text did
/// not parse, and an error where the second and nanosecond it gave are not
/// a valid instant.
pub open spec fn parsed_instant(parsed: Option<(i64, u32)>) -> Result<Instant, DatetimeError> {
    match parsed {
        None => Err(DatetimeError::Unparsable),
        Some((secs, nanos)) => {
            let t = Instant { secs: secs as int, nanos: nanos as int };
            if t.valid() {
                Ok(t)
            } else {
                Err(DatetimeError::NotRepresentable)
            }
        },
    }
}

impl Standard {
    /// The standard that a selector names: `timestamp`, `rfc2822` or
    /// `rfc3339`, in exactly that spelling.
    pub open spec fn spec_parse(selector: Seq<char>) -> Option<Standard> {
        if selector == "timestamp"@ {
            Some(Standard::Timestamp)
        } else if selector == "rfc2822"@ {
            Some(Standard::Rfc2822)
        } else if selector == "rfc3339"@ {
            Some(Standard::Rfc3339)
        } else {
            None
        }
    }

    /// What [`Standard::parse_datetime`] returns, over the values of the
    /// instants.
    pub open spec fn spec_parse_datetime(self, text: Seq<char>) -> Result<Instant, DatetimeError> {
        match self {
            Standard::Timestamp => Err(DatetimeError::UnsupportedStandard),
            Standard::Rfc2822 => parsed_instant(rfc2822_instant(text)),
            Standard::Rfc3339 => parsed_instant(rfc3339_instant(text)),
        }
    }

    /// What [`Standard::render`] returns.
    pub open spec fn spec_render(self, t: Instant, offset_secs: i32) -> Result<
        Seq<char>,
        RenderError,
    > {
        match self {
            Standard::Timestamp => Ok(decimal(t.secs)),
            Standard::Rfc2822 => if !(-SECONDS_PER_DAY < offset_secs < SECONDS_PER_DAY) {
                Err(RenderError::OffsetOutOfRange)
            } else if !(MIN_RFC2822_SECONDS <= t.secs + offset_secs <= MAX_RFC2822_SECONDS) {
                Err(RenderError::YearOutOfRange)
            } else {
                Ok(rfc2822_text(t.secs as i64, t.nanos as u32, offset_secs))
            },
            Standard::Rfc3339 => if !(-SECONDS_PER_DAY < offset_secs < SECONDS_PER_DAY) {
                Err(RenderError::OffsetOutOfRange)
            } else {
                Ok(rfc3339_text(t.secs as i64, t.nanos as u32, offset_secs))
            },
        }
    }

    /// Reads a format selector.
    pub fn parse(selector: &str) -> (r: Option<Standard>)
        ensures
            r == Self::spec_parse(selector@),
    {
        if same_text(selector, "timestamp") {
            Some(Standard::Timestamp)
        } else if same_text(selector, "rfc2822") {
            Some(Standard::Rfc2822)
        } else if same_text(selector, "rfc3339") {
            Some(Standard::Rfc3339)
        } else {
            None
        }
    }

    /// The selector that names this standard.
    pub fn name(self) -> (r: &'static str)
        ensures
            Self::spec_parse(r@) == Some(self),
    {
        proof {
            reveal_strlit("timestamp");
            reveal_strlit("rfc2822");
            reveal_strlit("rfc3339");
            assert("timestamp"@.len() == 9);
            assert("rfc2822"@.len() == 7);
            assert("rfc2822"@[3] == '2');
            assert("rfc3339"@[3] == '3');
        }
        match self {
            Standard::Timestamp => "timestamp",
            Standard::Rfc2822 => "rfc2822",
            Standard::Rfc3339 => "rfc3339",
        }
    }

    /// Reads `text` as a date and time in this standard.
    ///
    /// Only the two calendar standards can be read. The instant is the one
    /// the text names, whatever zone the text is written in.
    pub fn parse_datetime(self, text: &str) -> (r: Result<CalendarTimestamp, DatetimeError>)
        ensures
            match r {
                Ok(t) => self.spec_parse_datetime(text@) == Ok::<Instant, DatetimeError>(t@),
                Err(e) => self.spec_parse_datetime(text@) == Err::<Instant, DatetimeError>(e),
            },
    {
        match self {
            Standard::Timestamp => Err(DatetimeError::UnsupportedStandard),
            Standard::Rfc2822 => instant_of_parsed(chrono_parse_rfc2822(text).ok()),
            Standard::Rfc3339 => instant_of_parsed(chrono_parse_rfc3339(text).ok()),
        }
    }

    /// Writes instant `t` in this standard, as read on a clock that is
    /// `offset_secs` seconds ahead of UTC.
    ///
    /// The decimal timestamp does not depend on the zone and is written for
    /// every offset.
    pub fn render(self, t: &CalendarTimestamp, offset_secs: i32) -> (r: Result<String, RenderError>)
        ensures
            match r {
                Ok(s) => self.spec_render(t@, offset_secs) == Ok::<Seq<char>, RenderError>(s@),
                Err(e) => self.spec_render(t@, offset_secs) == Err::<Seq<char>, RenderError>(e),
            },
    {
        let secs = t.timestamp();
        let nanos = t.timestamp_subsec_nanos();
        match self {
            Standard::Timestamp => Ok(decimal_string(secs)),
            Standard::Rfc2822 => {
                if !(-SECONDS_PER_DAY < offset_secs && offset_secs < SECONDS_PER_DAY) {
                    Err(RenderError::OffsetOutOfRange)
                } else {
                    let local: i64 = secs + offset_secs as i64;
                    if !(MIN_RFC2822_SECONDS <= local && local <= MAX_RFC2822_SECONDS) {
                        Err(RenderError::YearOutOfRange)
                    } else {
                        Ok(chrono_to_rfc2822(secs, nanos, offset_secs))
                    }
                }
            },
            Standard::Rfc3339 => {
                if !(-SECONDS_PER_DAY < offset_secs && offset_secs < SECONDS_PER_DAY) {
                    Err(RenderError::OffsetOutOfRange)
                } else {
                    Ok(chrono_to_rfc3339(secs, nanos, offset_secs))
                }
            },
        }
    }
}

/// Turns what a parser gave, the second and nanosecond of an instant or
/// nothing, into a timestamp.
pub fn instant_of_parsed(parsed: Option<(i64, u32)>) -> (r: Result<
    CalendarTimestamp,
    DatetimeError,
>)
    ensures
        match r {
            Ok(t) => parsed_instant(parsed) == Ok::<Instant, DatetimeError>(t@),
            Err(e) => parsed_instant(parsed) == Err::<Instant, DatetimeError>(e),
        },
{
    match parsed {
        None => Err(DatetimeError::Unparsable),
        Some((secs, nanos)) => match CalendarTimestamp::new(secs, nanos) {
            Some(t) => Ok(t),
            None => Err(DatetimeError::NotRepresentable),
        },
    }
}

/// Writes `n` in decimal.
pub fn decimal_string(n: i64) -> (s: String)
    ensures
        s@ == decimal(n as int),
{
    if n < 0 {
        let magnitude: u64 = (-(n as i128)) as u64;
        let mut s = String::from_str("-");
        proof {
            reveal_strlit("-");
            assert(s@ =~= seq!['-']);
        }
        push_decimal_digits(&mut s, magnitude);
        s
    } else {
        let mut s = String::new();
        push_decimal_digits(&mut s, n as u64);
        assert(s@ =~= decimal_digits(n as nat));
        s
    }
}

/// Appends the decimal digits of `n` to `s`.
fn push_decimal_digits(s: &mut String, n: u64)
    ensures
        final(s)@ == old(s)@ + decimal_digits(n as nat),
    decreases n,
{
    if n >= 10 {
        push_decimal_digits(s, n / 10);
    }
    let d = digit_text(n % 10);
    s.append(d);
    assert(final(s)@ =~= old(s)@ + decimal_digits(n as nat));
}

/// The one-character text of a decimal digit.
fn digit_text(d: u64) -> (r: &'static str)
    requires
        d < 10,
    ensures
        r@ == seq![digit_char(d as int)],
{
    proof {
        reveal_strlit("0");
        reveal_strlit("1");
        reveal_strlit("2");
        reveal_strlit("3");
        reveal_strlit("4");
        reveal_strlit("5");
        reveal_strlit("6");
        reveal_strlit("7");
        reveal_strlit("8");
        reveal_strlit("9");
    }
    let r = if d == 0 {
        "0"
    } else if d == 1 {
        "1"
    } else if d == 2 {
        "2"
    } else if d == 3 {
        "3"
    } else if d == 4 {
        "4"
    } else if d == 5 {
        "5"
    } else if d == 6 {
        "6"
    } else if d == 7 {
        "7"
    } else if d == 8 {
        "8"
    } else {
        "9"
    };
    assert(r@ =~= seq![digit_char(d as int)]);
    r
}

/// Whether two texts are the same sequence of characters.
fn same_text(a: &str, b: &str) -> (r: bool)
    ensures
        r == (a@ == b@),
{
    let a = a.to_owned();
    let b = b.to_owned();
    a == b
}

/// `chrono::ParseError`, the parser's account of why a text is no date.
#[verifier::external_type_specification]
#[verifier::external_body]
pub struct ExParseError(ParseError);

/// The second and nanosecond of the instant that `text` names as an
/// RFC 3339 date and time, as `chrono` reads it; `None` where it reads none.
pub uninterp spec fn rfc3339_instant(text: Seq<char>) -> Option<(i64, u32)>;

/// The second and nanosecond of the instant that `text` names as an
/// RFC 2822 date and time, as `chrono` reads it; `None` where it reads none.
pub uninterp spec fn rfc2822_instant(text: Seq<char>) -> Option<(i64, u32)>;

/// The RFC 3339 text of the instant `nanos` nanoseconds after Unix second
/// `secs`, on a clock `offset_secs` seconds ahead of UTC, as `chrono`
/// writes it.
pub uninterp spec fn rfc3339_text(secs: i64, nanos: u32, offset_secs: i32) -> Seq<char>;

/// The RFC 2822 text of the instant `nanos` nanoseconds after Unix second
/// `secs`, on a clock `offset_secs` seconds ahead of UTC, as `chrono`
/// writes it.
pub uninterp spec fn rfc2822_text(secs: i64, nanos: u32, offset_secs: i32) -> Seq<char>;

/// Calls `chrono::DateTime::parse_from_rfc3339` and takes the Unix second
/// and the nanosecond of what it returns.
///
/// Trusted: the answer depends on the text alone, so it has a name. Nothing
/// is claimed of which texts parse, nor of the range of the two numbers.
#[verifier::external_body]
fn chrono_parse_rfc3339(text: &str) -> (parsed: Result<(i64, u32), ParseError>)
    ensures
        match parsed {
            Ok(v) => rfc3339_instant(text@) == Some(v),
            Err(_) => rfc3339_instant(text@).is_none(),
        },
{
    match DateTime::parse_from_rfc3339(text) {
        Ok(t) => Ok((t.timestamp(), t.timestamp_subsec_nanos())),
        Err(e) => Err(e),
    }
}

/// Calls `chrono::DateTime::parse_from_rfc2822` and takes the Unix second
/// and the nanosecond of what it returns.
///
/// Trusted: the answer depends on the text alone, so it has a name. Nothing
/// is claimed of which texts parse, nor of the range of the two numbers.
#[verifier::external_body]
fn chrono_parse_rfc2822(text: &str) -> (parsed: Result<(i64, u32), ParseError>)
    ensures
        match parsed {
            Ok(v) => rfc2822_instant(text@) == Some(v),
            Err(_) => rfc2822_instant(text@).is_none(),
        },
{
    match DateTime::parse_from_rfc2822(text) {
        Ok(t) => Ok((t.timestamp(), t.timestamp_subsec_nanos())),
        Err(e) => Err(e),
    }
}

/// Calls `chrono::DateTime::to_rfc3339` on the instant, moved to the zone
/// with the given offset.
///
/// Trusted: the text depends on the three numbers alone, so it has a name.
/// The `requires` keeps to the instants and offsets that `chrono` can hold.
#[verifier::external_body]
fn chrono_to_rfc3339(secs: i64, nanos: u32, offset_secs: i32) -> (text: String)
    requires
        (Instant { secs: secs as int, nanos: nanos as int }).valid(),
        -SECONDS_PER_DAY < offset_secs < SECONDS_PER_DAY,
    ensures
        text@ == rfc3339_text(secs, nanos, offset_secs),
{
    let zone = FixedOffset::east_opt(offset_secs).unwrap();
    DateTime::from_timestamp(secs, nanos).unwrap().with_timezone(&zone).to_rfc3339()
}

/// Calls `chrono::DateTime::to_rfc2822` on the instant, moved to the zone
/// with the given offset.
///
/// Trusted: the text depends on the three numbers alone, so it has a name.
/// `to_rfc2822` panics where the local year is outside 0 to 9999; the
/// `requires` leaves those instants out.
#[verifier::external_body]
fn chrono_to_rfc2822(secs: i64, nanos: u32, offset_secs: i32) -> (text: String)
    requires
        (Instant { secs: secs as int, nanos: nanos as int }).valid(),
        -SECONDS_PER_DAY < offset_secs < SECONDS_PER_DAY,
        MIN_RFC2822_SECONDS <= secs + offset_secs <= MAX_RFC2822_SECONDS,
    ensures
        text@ == rfc2822_text(secs, nanos, offset_secs),
{
    let zone = FixedOffset::east_opt(offset_secs).unwrap();
    DateTime::from_timestamp(secs, nanos).unwrap().with_timezone(&zone).to_rfc2822()
}

} // verus!
