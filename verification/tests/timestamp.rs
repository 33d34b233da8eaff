use chrono::{TimeZone, Utc};
use ntp_client::timestamp::{
    CalendarTimestamp, NTPTimestamp, MAX_UNIX_SECONDS, MIN_UNIX_SECONDS, NTP_TO_UNIX_SECONDS,
};

fn at(secs: i64, nanos: u32) -> CalendarTimestamp {
    CalendarTimestamp::new(secs, nanos).expect("a valid instant")
}

fn on_calendar(year: i32, month: u32, day: u32, hour: u32, min: u32, sec: u32) -> CalendarTimestamp {
    let t = Utc.with_ymd_and_hms(year, month, day, hour, min, sec).unwrap();
    at(t.timestamp(), t.timestamp_subsec_nanos())
}

#[test]
fn ntp_epoch_is_all_zero() {
    let ntp = NTPTimestamp::from(on_calendar(1900, 1, 1, 0, 0, 0));
    assert_eq!(ntp, NTPTimestamp { seconds: 0, fraction: 0 });
}

#[test]
fn unix_epoch_is_the_epoch_distance() {
    let ntp = NTPTimestamp::from(on_calendar(1970, 1, 1, 0, 0, 0));
    assert_eq!(ntp.seconds, 2_208_988_800);
    assert_eq!(ntp.fraction, 0);
    assert_eq!(NTP_TO_UNIX_SECONDS, 2_208_988_800);
}

#[test]
fn default_is_the_ntp_epoch() {
    assert_eq!(NTPTimestamp::default(), NTPTimestamp { seconds: 0, fraction: 0 });
    let t = CalendarTimestamp::from(NTPTimestamp::default());
    assert_eq!(t, on_calendar(1900, 1, 1, 0, 0, 0));
}

#[test]
fn new_keeps_second_and_nanosecond() {
    let t = at(1_704_067_200, 123_456_789);
    assert_eq!(t.timestamp(), 1_704_067_200);
    assert_eq!(t.timestamp_subsec_nanos(), 123_456_789);
}

#[test]
fn new_refuses_a_nanosecond_count_of_a_whole_second() {
    assert!(CalendarTimestamp::new(0, 999_999_999).is_some());
    assert!(CalendarTimestamp::new(0, 1_000_000_000).is_none());
    assert!(CalendarTimestamp::new(0, u32::MAX).is_none());
}

#[test]
fn new_refuses_seconds_outside_the_calendar() {
    assert!(CalendarTimestamp::new(MIN_UNIX_SECONDS, 0).is_some());
    assert!(CalendarTimestamp::new(MIN_UNIX_SECONDS - 1, 0).is_none());
    assert!(CalendarTimestamp::new(MAX_UNIX_SECONDS, 999_999_999).is_some());
    assert!(CalendarTimestamp::new(MAX_UNIX_SECONDS + 1, 0).is_none());
    assert!(CalendarTimestamp::new(i64::MIN, 0).is_none());
    assert!(CalendarTimestamp::new(i64::MAX, 0).is_none());
}

#[test]
fn calendar_bounds_are_those_of_the_calendar_library() {
    assert_eq!(chrono::DateTime::<Utc>::MIN_UTC.timestamp(), MIN_UNIX_SECONDS);
    assert_eq!(chrono::DateTime::<Utc>::MAX_UTC.timestamp(), MAX_UNIX_SECONDS);
}

#[test]
fn fraction_is_rounded_to_nearest() {
    // 2^32 / 10^9 = 4.294967296 fraction units per nanosecond.
    assert_eq!(NTPTimestamp::from(at(0, 0)).fraction, 0);
    assert_eq!(NTPTimestamp::from(at(0, 1)).fraction, 4);
    assert_eq!(NTPTimestamp::from(at(0, 2)).fraction, 9);
    assert_eq!(NTPTimestamp::from(at(0, 3)).fraction, 13);
    assert_eq!(NTPTimestamp::from(at(0, 500_000_000)).fraction, 2_147_483_648);
    assert_eq!(NTPTimestamp::from(at(0, 250_000_000)).fraction, 1_073_741_824);
    assert_eq!(NTPTimestamp::from(at(0, 1_953_125)).fraction, 8_388_608);
}

#[test]
fn fraction_of_the_last_nanosecond_does_not_wrap() {
    // 999_999_999 * 4.294967296 = 4294967291.705..., which rounds up.
    assert_eq!(NTPTimestamp::from(at(0, 999_999_999)).fraction, 4_294_967_292);
}

#[test]
fn nanoseconds_are_rounded_to_nearest() {
    let nanos = |fraction: u32| {
        CalendarTimestamp::from(NTPTimestamp { seconds: 0, fraction }).timestamp_subsec_nanos()
    };
    assert_eq!(nanos(0), 0);
    // One fraction unit is 0.2328 ns, two are 0.4657 ns, three are 0.6985 ns.
    assert_eq!(nanos(1), 0);
    assert_eq!(nanos(2), 0);
    assert_eq!(nanos(3), 1);
    assert_eq!(nanos(2_147_483_648), 500_000_000);
    // 2^22 fraction units are exactly 976562.5 ns: the half goes up.
    assert_eq!(nanos(4_194_304), 976_563);
}

#[test]
fn nanoseconds_are_held_below_one_second() {
    // The largest fraction is 999999999.767 ns, which would round to a
    // whole second.
    let t = CalendarTimestamp::from(NTPTimestamp { seconds: 7, fraction: u32::MAX });
    assert_eq!(t.timestamp_subsec_nanos(), 999_999_999);
    assert_eq!(t.timestamp(), 7 - 2_208_988_800);
    let t = CalendarTimestamp::from(NTPTimestamp { seconds: 7, fraction: u32::MAX - 1 });
    assert_eq!(t.timestamp_subsec_nanos(), 999_999_999);
    let t = CalendarTimestamp::from(NTPTimestamp { seconds: 7, fraction: u32::MAX - 2 });
    assert_eq!(t.timestamp_subsec_nanos(), 999_999_999);
    let t = CalendarTimestamp::from(NTPTimestamp { seconds: 7, fraction: u32::MAX - 3 });
    assert_eq!(t.timestamp_subsec_nanos(), 999_999_999);
    let t = CalendarTimestamp::from(NTPTimestamp { seconds: 7, fraction: u32::MAX - 6 });
    assert_eq!(t.timestamp_subsec_nanos(), 999_999_998);
}

#[test]
fn largest_wire_timestamp_is_in_2036() {
    let t = CalendarTimestamp::from(NTPTimestamp { seconds: u32::MAX, fraction: 0 });
    assert_eq!(t, on_calendar(2036, 2, 7, 6, 28, 15));
}

#[test]
fn seconds_wrap_after_2036() {
    let last = on_calendar(2036, 2, 7, 6, 28, 15);
    assert_eq!(NTPTimestamp::from(last).seconds, u32::MAX);
    let next = on_calendar(2036, 2, 7, 6, 28, 16);
    assert_eq!(NTPTimestamp::from(next).seconds, 0);
    let later = on_calendar(2040, 1, 1, 0, 0, 0);
    assert_eq!(NTPTimestamp::from(later).seconds, 123_010_304);
    assert_ne!(CalendarTimestamp::from(NTPTimestamp::from(later)), later);
}

#[test]
fn seconds_wrap_before_1900() {
    let before = on_calendar(1899, 12, 31, 23, 59, 59);
    assert_eq!(NTPTimestamp::from(before).seconds, u32::MAX);
    assert_eq!(NTPTimestamp::from(at(MIN_UNIX_SECONDS, 0)).seconds, 4_139_281_536);
    assert_eq!(NTPTimestamp::from(at(MAX_UNIX_SECONDS, 0)).seconds, 498_395_647);
}

#[test]
fn round_trip_is_exact_between_1900_and_2036() {
    let seconds = [-2_208_988_800i64, -1, 0, 1, 1_704_067_200, 2_085_978_495];
    let nanos = [
        0u32,
        1,
        2,
        499_999_999,
        500_000_000,
        250_000_000,
        125_000_000,
        62_500_000,
        31_250_000,
        15_625_000,
        7_812_500,
        3_906_250,
        1_953_125,
        123_456_789,
        999_999_998,
        999_999_999,
    ];
    for s in seconds {
        for n in nanos {
            let t = at(s, n);
            let back = CalendarTimestamp::from(NTPTimestamp::from(t));
            assert_eq!(back.timestamp(), s);
            assert_eq!(back.timestamp_subsec_nanos(), n);
            assert_eq!(back, t);
        }
    }
}

#[test]
fn round_trip_through_into() {
    let t = at(1_704_067_200, 123_456_789);
    let ntp: NTPTimestamp = t.into();
    assert_eq!(ntp.seconds, 3_913_056_000);
    assert_eq!(ntp.fraction, 530_242_871);
    let back: CalendarTimestamp = ntp.into();
    assert_eq!(back, t);
}
