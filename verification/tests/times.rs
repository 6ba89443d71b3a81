//! Dates, instants and wall clocks.

use tui_calendar::alarm::{
    absolute_edit_buffers, resolve_absolute_alarm, AbsoluteResolution, AlarmValidationError,
};
use tui_calendar::app::prompts::date_jump_on;
use tui_calendar::app::{App, View};
use tui_calendar::config::Config;
use tui_calendar::model::{EventTimeInput, Snapshot};
use tui_calendar::recurrence::weekday_code;
use tui_calendar::search::normalized_search_text;
use tui_calendar::time::{
    clock_time_text, first_instant, instant_or_utc, iso_date_text, local_midnight, local_single, local_wall_time, only_instant, parse_clock_time,
    parse_instant, parse_iso_date, parse_wall_time, rfc3339_text, wall_time_text, Date, Timestamp,
    WallTime, MAX_DAY, MIN_DAY,
};

fn date(year: i32, month: u32, day: u32) -> Date {
    parse_iso_date(&format!("{year:04}-{month:02}-{day:02}")).unwrap()
}

fn month_view(active: Date) -> App {
    let mut app = App::starting_on(Config::default(), Snapshot::default(), active);
    app.view = View::Month;
    app
}

#[test]
fn dates_are_read_and_written() {
    assert_eq!(parse_iso_date("1970-01-01"), Some(Date { day: 719_163 }));
    assert_eq!(parse_iso_date("2026-09-10"), Some(Date { day: 739_869 }));
    assert_eq!(parse_iso_date("2026-02-29"), None);
    assert_eq!(parse_iso_date("soon"), None);
    assert_eq!(iso_date_text(Date { day: 739_869 }), "2026-09-10");
    assert_eq!(iso_date_text(date(2024, 2, 29)), "2024-02-29");
}

#[test]
fn clock_times_are_read_and_written() {
    assert_eq!(parse_clock_time("09:30"), Some(34_200));
    assert_eq!(parse_clock_time("24:00"), None);
    assert_eq!(clock_time_text(34_200), "09:30");
    let wall = WallTime { date: date(2026, 9, 10), second: 34_200 };
    assert_eq!(parse_wall_time("2026-09-10 09:30"), Some(wall));
    assert_eq!(parse_wall_time("2026-09-10"), None);
    assert_eq!(wall_time_text(wall), "2026-09-10 09:30");
}

#[test]
fn instants_are_read_and_written() {
    let half_past = Timestamp { nanos: 1_788_000_000_500_000_000 };
    assert_eq!(rfc3339_text(half_past, true), "2026-08-29T10:40:00.500Z");
    assert_eq!(rfc3339_text(half_past, false), "2026-08-29T10:40:00.500+00:00");
    assert_eq!(parse_instant("2026-08-29T10:40:00.5Z"), Some(half_past));
    assert_eq!(parse_instant("2026-08-29T12:40:00.5+02:00"), Some(half_past));
    assert_eq!(parse_instant("2026-08-29"), None);
    assert_eq!(rfc3339_text(Timestamp { nanos: -1 }, true), "1969-12-31T23:59:59.999999999Z");
    assert_eq!(rfc3339_text(Timestamp { nanos: i128::MAX }, true), rfc3339_text(
        Timestamp::from_second(Timestamp { nanos: i128::MAX }.seconds()),
        true,
    ));
}

#[test]
fn instants_have_a_date_in_utc() {
    assert_eq!(Timestamp { nanos: 0 }.utc_date(), date(1970, 1, 1));
    assert_eq!(Timestamp { nanos: -1 }.utc_date(), date(1969, 12, 31));
    assert_eq!(date(1970, 1, 2).utc_midnight(), Timestamp::from_second(86_400));
    assert_eq!(Timestamp { nanos: i128::MAX }.plus_seconds(1), Timestamp { nanos: i128::MAX });
    assert_eq!(Timestamp { nanos: 5 }.until(Timestamp { nanos: 2 }), -3);
}

#[test]
fn dates_stop_at_the_ends_of_their_range() {
    assert_eq!(Date { day: i32::MAX }.nearest(), Date { day: MAX_DAY });
    assert_eq!(Date { day: MIN_DAY }.saturating_plus(-1), Date { day: MIN_DAY });
    assert_eq!(Date { day: MAX_DAY }.plus_days(1), None);
    assert_eq!(date(2026, 9, 10).plus_days(21), Some(date(2026, 10, 1)));
    assert_eq!(date(2026, 9, 10).days_from_monday(), 3);
    assert_eq!(weekday_code(date(2026, 9, 10)), "TH");
}

#[test]
fn the_machines_clock_and_its_instants_agree() {
    let midnight = local_midnight(date(2026, 9, 10)).unwrap();
    assert_eq!(local_wall_time(midnight), WallTime { date: date(2026, 9, 10), second: 0 });
    let noon = WallTime { date: date(2026, 9, 10), second: 43_200 };
    assert_eq!(local_wall_time(local_single(noon).unwrap()), noon);
}

#[test]
fn months_are_stepped_through_by_their_days() {
    let mut app = month_view(date(2026, 1, 31));
    app.navigate_period(false);
    assert_eq!(app.active_date, date(2026, 2, 28));
    app.navigate_period(true);
    assert_eq!(app.active_date, date(2026, 1, 28));
    let app = month_view(date(2026, 9, 10));
    assert_eq!(app.view_date_range(), (date(2026, 8, 31), date(2026, 10, 12)));
    let mut app = month_view(date(2026, 9, 10));
    app.config.week_start = "Sunday".into();
    assert_eq!(app.view_date_range(), (date(2026, 8, 30), date(2026, 10, 11)));
}

#[test]
fn dates_are_named_in_several_ways() {
    let today = date(2026, 9, 10);
    assert_eq!(date_jump_on(" Today ", today), Some(today));
    assert_eq!(date_jump_on("tomorrow", today), Some(date(2026, 9, 11)));
    assert_eq!(date_jump_on("YESTERDAY", today), Some(date(2026, 9, 9)));
    assert_eq!(date_jump_on("2027-01-02", today), Some(date(2027, 1, 2)));
    assert_eq!(date_jump_on("02.01.2027", today), Some(date(2027, 1, 2)));
    assert_eq!(date_jump_on("Mar 4", today), Some(date(2026, 3, 4)));
    assert_eq!(date_jump_on("someday", today), None);
}

#[test]
fn zones_decide_what_a_wall_time_is() {
    let resolved = resolve_absolute_alarm("2026-09-10", "09:00", "Europe/Berlin");
    let seven = parse_instant("2026-09-10T07:00:00Z").unwrap();
    assert!(matches!(resolved, Ok(AbsoluteResolution::Single(at)) if at == seven));
    assert_eq!(
        absolute_edit_buffers(seven, "Asia/Tokyo").unwrap(),
        ("2026-09-10".to_string(), "16:00".to_string())
    );
    assert!(matches!(
        resolve_absolute_alarm("2026-09-10", "09:00", "Middle/Earth"),
        Err(AlarmValidationError::InvalidTimeZone)
    ));
    assert!(matches!(
        resolve_absolute_alarm("2026-09-31", "09:00", "UTC"),
        Err(AlarmValidationError::InvalidDate)
    ));
    assert!(matches!(
        resolve_absolute_alarm("2026-09-30", "9 am", "UTC"),
        Err(AlarmValidationError::InvalidTime)
    ));
}

#[test]
fn times_of_events_have_an_order() {
    let (start, end) = (Timestamp { nanos: 1 }, Timestamp { nanos: 2 });
    assert!(EventTimeInput::timed(start, end).is_ok());
    assert_eq!(EventTimeInput::timed(end, start).unwrap_err(), "End must be after start");
    assert!(EventTimeInput::all_day(date(2026, 9, 10), date(2026, 9, 10)).is_err());
    assert!(EventTimeInput::legacy_all_day_unknown(start, start).is_err());
}

#[test]
fn text_is_compared_without_regard_to_case() {
    assert_eq!(normalized_search_text("Straße ÉTÉ"), "straße été");
}

#[test]
fn a_wall_time_is_an_instant_where_a_clock_shows_it_once() {
    let second = |n: i64| Some(Timestamp { nanos: i128::from(n) * 1_000_000_000 });
    assert_eq!(only_instant(&vec![]), None);
    assert_eq!(only_instant(&vec![7]), second(7));
    assert_eq!(only_instant(&vec![7, 3_607]), None);
    assert_eq!(first_instant(&vec![]), None);
    assert_eq!(first_instant(&vec![7]), second(7));
    assert_eq!(first_instant(&vec![7, 3_607]), second(7));
    let nine = WallTime { date: Date { day: 719_163 }, second: 32_400 };
    assert_eq!(Some(instant_or_utc(None, nine)), second(32_400));
    assert_eq!(Some(instant_or_utc(second(28_800), nine)), second(28_800));
}
