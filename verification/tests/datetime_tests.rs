use cbzcal::datetime::{
    current_jst_date, current_jst_midnight, jst_offset, parse_timestamp, normalize_prompt_duration, normalize_prompt_time, parse_duration, parse_flexible_date,
    parse_prompt_timestamp, parse_time_of_day, strip_trailing_timezone_offset,
};
use cbzcal::formats::{current_jst_now, format_ymd, jst_reading, to_rfc3339};
use cbzcal::time::{Date, TimeDelta};

fn anchor() -> Date {
    Date::from_ymd(2026, 3, 9).expect("date")
}

#[test]
fn parses_compound_duration() {
    assert_eq!(
        parse_duration("2h30m").expect("duration"),
        TimeDelta::try_minutes(150).expect("minutes")
    );
}

#[test]
fn parses_relative_dates() {
    assert_eq!(
        parse_flexible_date("+3d", anchor()).expect("date"),
        Date::from_ymd(2026, 3, 12).expect("date")
    );
    assert_eq!(
        parse_flexible_date("-1w", anchor()).expect("date"),
        Date::from_ymd(2026, 3, 2).expect("date")
    );
}

#[test]
fn prompt_timestamp_accepts_naive_jst_datetime() {
    let timestamp = parse_prompt_timestamp("2026-03-10 17:30", anchor(), None).expect("timestamp");
    assert_eq!(to_rfc3339(&timestamp), "2026-03-10T17:30:00+09:00");
}

#[test]
fn prompt_timestamp_accepts_time_with_context_date() {
    let timestamp =
        parse_prompt_timestamp("17時半", anchor(), Some("tomorrow")).expect("timestamp");
    assert_eq!(to_rfc3339(&timestamp), "2026-03-10T17:30:00+09:00");
}

#[test]
fn prompt_duration_normalizes_japanese_units() {
    assert_eq!(normalize_prompt_duration("3時間30分"), "3h30m");
}

#[test]
fn prompt_time_normalizes_offset_suffix() {
    assert_eq!(normalize_prompt_time("17:30+09:00"), "17:30");
    assert_eq!(normalize_prompt_time("17:30:00+09:00"), "17:30");
}

#[test]
fn time_of_day_forms_and_errors() {
    assert_eq!(parse_time_of_day("9"), Ok((9, 0)));
    assert_eq!(parse_time_of_day(" 17:05 "), Ok((17, 5)));
    assert_eq!(parse_time_of_day("24").unwrap_err(), "時刻を解釈できません: 24");
    assert_eq!(
        parse_time_of_day("nine").unwrap_err(),
        "時刻は 9 または 9:30 のように指定してください: nine"
    );
}

#[test]
fn duration_errors() {
    assert!(parse_duration("").is_err());
    assert!(parse_duration("0m").is_err());
    assert!(parse_duration("5x").is_err());
    assert_eq!(parse_duration("1d").expect("day"), TimeDelta::one_day());
}

#[test]
fn flexible_dates() {
    assert_eq!(parse_flexible_date("today", anchor()).unwrap(), anchor());
    assert_eq!(
        parse_flexible_date("Tomorrow", anchor()).unwrap(),
        Date::from_ymd(2026, 3, 10).unwrap()
    );
    assert_eq!(parse_flexible_date("3/10", anchor()).unwrap(), Date::from_ymd(2026, 3, 10).unwrap());
    assert_eq!(
        parse_flexible_date("2026/04/01", anchor()).unwrap(),
        Date::from_ymd(2026, 4, 1).unwrap()
    );
    assert!(parse_flexible_date("someday", anchor()).is_err());
}

#[test]
fn offset_suffix_is_stripped_only_when_complete() {
    assert_eq!(strip_trailing_timezone_offset("17:30+09:00"), "17:30");
    assert_eq!(strip_trailing_timezone_offset("17:30"), "17:30");
    assert_eq!(strip_trailing_timezone_offset("+09:0"), "+09:0");
}

#[test]
fn jst_is_nine_hours_east() {
    assert_eq!(jst_offset(), 32_400);
}

#[test]
fn midnight_today_is_local_midnight_in_jst() {
    let midnight = current_jst_midnight().expect("midnight");
    assert_eq!(midnight.offset_seconds(), 32_400);
    assert_eq!(midnight.second_of_day_exec(), 0);
    assert_eq!(midnight.subsec_nanos_exec(), 0);
    let today = current_jst_date().expect("today");
    assert!(midnight.date() == today || midnight.date().checked_add_days(1) == Some(today));
}

#[test]
fn today_is_not_before_the_epoch() {
    let epoch = Date::from_ymd(1970, 1, 1).expect("epoch");
    let today = current_jst_date().expect("today");
    assert!(today.day_number_exec() >= epoch.day_number_exec());
    assert!(current_jst_midnight().is_ok());
}

#[test]
fn clock_readings_are_shown_in_jst() {
    let t = jst_reading(0, 0).expect("epoch");
    assert_eq!(t.offset_seconds(), 32_400);
    assert_eq!(to_rfc3339(&t), "1970-01-01T09:00:00+09:00");
    let t = jst_reading(1_773_014_400, 500).expect("reading");
    assert_eq!(t.instant_nanos(), 1_773_014_400_000_000_500);
    assert!(current_jst_now().is_some());
}

#[test]
fn canonical_timestamps_read_and_write_back_unchanged() {
    for text in [
        "2026-03-09T10:00:00+09:00",
        "1999-12-31T23:59:59-05:30",
        "0999-01-02T00:00:00+00:00",
    ] {
        let t = parse_timestamp(text).expect("timestamp");
        assert_eq!(to_rfc3339(&t), text);
    }
}

#[test]
fn dates_are_written_as_chrono_writes_percent_y() {
    assert_eq!(format_ymd(&Date::from_ymd(2026, 3, 9).expect("date")), "2026-03-09");
    assert_eq!(format_ymd(&Date::from_ymd(987, 1, 2).expect("date")), "0987-01-02");
    assert_eq!(format_ymd(&Date::from_ymd(-1, 12, 31).expect("date")), "-0001-12-31");
    assert_eq!(format_ymd(&Date::from_ymd(12345, 6, 7).expect("date")), "+12345-06-07");
}

#[test]
fn prompt_timestamps_keep_their_offset_or_take_jst() {
    let anchor = Date::from_ymd(2026, 3, 9).expect("date");
    let t = parse_prompt_timestamp("2026-03-10 17:30", anchor, None).expect("naive");
    assert_eq!(to_rfc3339(&t), "2026-03-10T17:30:00+09:00");
    let t = parse_prompt_timestamp("2026-03-10T08:30:00+00:00", anchor, None).expect("rfc3339");
    assert_eq!(to_rfc3339(&t), "2026-03-10T08:30:00+00:00");
}
