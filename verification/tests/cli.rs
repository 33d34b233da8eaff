use ntp_client::cli::{plan, Action, CliError, Request};
use ntp_client::clock::{Clock, TimeVal};
use ntp_client::text::{DatetimeError, Standard};
use ntp_client::timestamp::CalendarTimestamp;

#[test]
fn set_is_the_only_selector_that_sets() {
    assert_eq!(Action::parse("set"), Action::SetTime);
    assert_eq!(Action::parse("get"), Action::GetTime);
    assert_eq!(Action::parse(""), Action::GetTime);
    assert_eq!(Action::parse("SET"), Action::GetTime);
    assert_eq!(Action::parse("set "), Action::GetTime);
    assert_eq!(Action::parse("anything"), Action::GetTime);
}

#[test]
fn get_needs_a_standard_only() {
    assert_eq!(plan("get", "timestamp", None), Ok(Request::GetTime(Standard::Timestamp)));
    assert_eq!(plan("get", "rfc2822", None), Ok(Request::GetTime(Standard::Rfc2822)));
    assert_eq!(plan("get", "rfc3339", None), Ok(Request::GetTime(Standard::Rfc3339)));
}

#[test]
fn get_ignores_a_datetime() {
    assert_eq!(
        plan("get", "rfc3339", Some("not a date")),
        Ok(Request::GetTime(Standard::Rfc3339))
    );
}

#[test]
fn unknown_action_is_get() {
    assert_eq!(plan("fetch", "timestamp", None), Ok(Request::GetTime(Standard::Timestamp)));
}

#[test]
fn unknown_standard_is_an_error() {
    assert_eq!(plan("get", "iso8601", None), Err(CliError::UnknownStandard));
    assert_eq!(
        plan("set", "iso8601", Some("2024-01-01T00:00:00Z")),
        Err(CliError::UnknownStandard)
    );
}

#[test]
fn set_needs_a_datetime() {
    assert_eq!(plan("set", "rfc3339", None), Err(CliError::MissingDatetime));
    assert_eq!(plan("set", "timestamp", None), Err(CliError::MissingDatetime));
}

#[test]
fn missing_datetime_is_reported_before_the_standard() {
    assert_eq!(plan("set", "iso8601", None), Err(CliError::MissingDatetime));
}

#[test]
fn set_reads_the_datetime_in_the_standard() {
    let target = CalendarTimestamp::new(1_704_067_200, 0).unwrap();
    assert_eq!(
        plan("set", "rfc3339", Some("2024-01-01T00:00:00Z")),
        Ok(Request::SetTime(Standard::Rfc3339, target))
    );
    assert_eq!(
        plan("set", "rfc2822", Some("Mon, 1 Jan 2024 00:00:00 +0000")),
        Ok(Request::SetTime(Standard::Rfc2822, target))
    );
}

#[test]
fn set_refuses_a_datetime_in_the_other_standard() {
    assert_eq!(
        plan("set", "rfc2822", Some("2024-01-01T00:00:00Z")),
        Err(CliError::Datetime(DatetimeError::Unparsable))
    );
}

#[test]
fn set_cannot_read_a_timestamp() {
    assert_eq!(
        plan("set", "timestamp", Some("1704067200")),
        Err(CliError::Datetime(DatetimeError::UnsupportedStandard))
    );
}

#[test]
fn set_refuses_a_leap_second() {
    assert_eq!(
        plan("set", "rfc3339", Some("2016-12-31T23:59:60Z")),
        Err(CliError::Datetime(DatetimeError::NotRepresentable))
    );
}

#[test]
fn set_scenario_commits_the_instant_and_reports_the_time() {
    let request = plan("set", "rfc3339", Some("2024-01-01T00:00:00Z")).unwrap();
    let (std, target) = match request {
        Request::SetTime(std, target) => (std, target),
        Request::GetTime(_) => panic!("the action is set"),
    };
    assert_eq!(Clock::timeval(&target), TimeVal { tv_sec: 1_704_067_200, tv_usec: 0 });
    // The clock now reads the target; in UTC it is written as it was given.
    assert_eq!(std.render(&target, 0), Ok(String::from("2024-01-01T00:00:00+00:00")));
}

#[test]
fn get_scenario_writes_the_unix_second_count() {
    let request = plan("get", "timestamp", None).unwrap();
    let std = match request {
        Request::GetTime(std) => std,
        Request::SetTime(_, _) => panic!("the action is get"),
    };
    let now = CalendarTimestamp::new(1_704_067_200, 999_999_999).unwrap();
    let line = std.render(&now, 7_200).unwrap();
    assert_eq!(line, "1704067200");
    assert!(line.chars().all(|c| c.is_ascii_digit()));
}

#[test]
fn error_messages() {
    assert_eq!(
        CliError::MissingDatetime.message("rfc3339", ""),
        "`--datetime` is required when using `--action set`"
    );
    assert_eq!(CliError::UnknownStandard.message("iso8601", ""), "Unknown standard iso8601");
    assert_eq!(
        CliError::Datetime(DatetimeError::Unparsable).message("rfc3339", "tomorrow"),
        "Unable to parse tomorrow according to rfc3339"
    );
    assert_eq!(
        CliError::Datetime(DatetimeError::UnsupportedStandard).message("timestamp", "12"),
        "Unable to parse 12 according to timestamp"
    );
    assert_eq!(
        CliError::Datetime(DatetimeError::NotRepresentable)
            .message("rfc3339", "2016-12-31T23:59:60Z"),
        "Unable to parse 2016-12-31T23:59:60Z according to rfc3339"
    );
}
