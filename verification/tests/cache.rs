//! What is kept between two runs.

use tui_calendar::cache::damage::{
    backup_name, companion_move, finish_quarantine, quarantine_name, CompanionMove,
};
use tui_calendar::cache::{CACHE_SCHEMA_VERSION, Cache, Opening};
use tui_calendar::coverage::DateRange;
use tui_calendar::model::{
    AuthorizationStatus, Availability, CalendarInfo, CalendarPermissions, Event, InvitationStatus,
    RecurrenceFrequency, RecurrenceRule, TimeZoneProvenance,
};
use tui_calendar::time::{Date, Timestamp, now, parse_instant, parse_iso_date};

fn date(year: i32, month: u32, day: u32) -> Date {
    parse_iso_date(&format!("{year:04}-{month:02}-{day:02}")).unwrap()
}

fn at(text: &str) -> Timestamp {
    parse_instant(text).unwrap()
}

/// A span of time, in nanoseconds.
#[derive(Clone, Copy)]
struct Span(i128);

impl Span {
    fn minutes(n: i64) -> Span {
        Span(i128::from(n) * 60_000_000_000)
    }
    fn hours(n: i64) -> Span {
        Span::minutes(n * 60)
    }
    fn days(n: i64) -> Span {
        Span::hours(n * 24)
    }
}

impl std::ops::Add<Span> for Timestamp {
    type Output = Timestamp;
    fn add(self, span: Span) -> Timestamp {
        self.plus_nanos(span.0)
    }
}

impl std::ops::Sub<Span> for Timestamp {
    type Output = Timestamp;
    fn sub(self, span: Span) -> Timestamp {
        self.plus_nanos(-span.0)
    }
}

impl std::ops::Add<Span> for Date {
    type Output = Date;
    fn add(self, span: Span) -> Date {
        self.saturating_plus((span.0 / 86_400_000_000_000) as i32)
    }
}

impl std::ops::Sub<Span> for Date {
    type Output = Date;
    fn sub(self, span: Span) -> Date {
        self.saturating_plus(-((span.0 / 86_400_000_000_000) as i32))
    }
}

fn event(title: &str) -> Event {
    Event {
        id: "event-1".into(),
        provider_id: Some("event-1".into()),
        series_id: None,
        calendar_id: "cal-1".into(),
        title: title.into(),
        start: at("2026-08-21T09:00:00Z"),
        end: at("2026-08-21T10:00:00Z"),
        all_day: false,
        all_day_start_date: None,
        all_day_end_date_exclusive: None,
        location: "Berlin".into(),
        notes: "migration plan".into(),
        url: String::new(),
        time_zone: "Europe/Berlin".into(),
        time_zone_provenance: TimeZoneProvenance::Unknown,
        availability: Availability::Busy,
        organizer: None,
        attendees: vec![],
        alarms: vec![],
        recurrence: vec![],
        has_recurrence: false,
        is_detached: false,
        invitation_status: InvitationStatus::Unknown,
    }
}

#[test]
fn snapshot_round_trip_and_search() {
    let mut cache = Cache::empty("cache.db".into());
    let calendar = CalendarInfo {
        id: "cal-1".into(),
        source_id: "source-1".into(),
        permissions: CalendarPermissions::default(),
        title: "Work".into(),
        account: "iCloud".into(),
        provider: "iCloud".into(),
        color: "#3366FF".into(),
        is_writable: true,
        enabled: true,
    };
    cache.save_calendars(&vec![calendar]);
    let events = (0..10)
        .map(|index| {
            let mut event = event(&format!("Architecture review {index}"));
            event.id = format!("event-{index}");
            event
        })
        .collect::<Vec<_>>();
    cache
        .replace_events(
            at("2026-01-01T00:00:00Z"),
            at("2027-01-01T00:00:00Z"),
            &events, now()
        );
    let snapshot = cache.load_snapshot();
    assert_eq!(snapshot.events.len(), 10);
    assert_eq!(cache.search("migration berlin", 10).len(), 10);
}

#[test]
fn diagnostic_day_query_reads_timed_and_trusted_all_day_rows_without_guessing_dates() {
    let mut cache = Cache::empty("cache.db".into());
    let mut timed = event("Timed");
    timed.id = "timed".into();
    timed.start = at("2026-08-27T08:00:00Z");
    timed.end = at("2026-08-27T09:00:00Z");
    let mut all_day = event("All day");
    all_day.id = "all-day".into();
    all_day.all_day = true;
    all_day.all_day_start_date = Some(date(2026, 8, 27));
    all_day.all_day_end_date_exclusive = Some(date(2026, 8, 28));
    // Compatibility instants intentionally fall outside the diagnostic
    // transport day, so this proves the query uses trusted date identity.
    all_day.start = at("2026-08-26T00:00:00Z");
    all_day.end = at("2026-08-26T23:59:59Z");
    cache
        .replace_events(
            at("2026-08-01T00:00:00Z"),
            at("2026-09-01T00:00:00Z"),
            &vec![timed, all_day], now()
        );

    let events = cache
        .events_intersecting_diagnostic_day(
            at("2026-08-27T00:00:00Z"),
            at("2026-08-28T00:00:00Z"),
            date(2026, 8, 27),
            date(2026, 8, 28),
        );
    assert_eq!(
        events
            .iter()
            .map(|event| event.id.as_str())
            .collect::<Vec<_>>(),
        ["all-day", "timed"]
    );
}

#[test]
fn all_day_date_metadata_survives_cache_round_trip() {
    let mut cache = Cache::empty("cache.db".into());
    let mut all_day = event("All-day metadata");
    all_day.all_day = true;
    // These intentionally do not identify the trusted calendar dates.
    // The raw payload must preserve provider-normalized date identity
    // through cache reload without consulting compatibility instants.
    all_day.start = at("2026-09-09T00:00:00Z");
    all_day.end = at("2026-09-10T00:00:00Z");
    all_day.all_day_start_date = Some(date(2026, 9, 10));
    all_day.all_day_end_date_exclusive =
        Some(date(2026, 9, 13));
    all_day.has_recurrence = true;
    all_day.recurrence = vec![RecurrenceRule {
        frequency: RecurrenceFrequency::Daily,
        interval: 1,
        days_of_week: vec![],
        occurrence_count: None,
        end_date: None,
    }];
    cache
        .replace_events(
            at("2026-09-01T00:00:00Z"),
            at("2026-10-01T00:00:00Z"),
            &vec![all_day], now()
        );
    let event = cache.load_snapshot().events.remove(0);
    assert_eq!(
        event.all_day_date_range(),
        Some((
            date(2026, 9, 10),
            date(2026, 9, 13),
        ))
    );
    assert!(event.has_recurrence);
    assert_eq!(event.recurrence.len(), 1);
    assert_eq!(event.recurrence[0].frequency, RecurrenceFrequency::Daily);
}

#[test]
fn initializes_a_versioned_schema_and_passes_integrity_check() {
    let cache = Cache::open(Cache::empty("cache.db".into()), "ok").unwrap();
    assert_eq!(cache.schema_version(), CACHE_SCHEMA_VERSION);
    Cache::health_check("ok").unwrap();
    assert_eq!(
        Cache::health_check("row 3 missing from index").unwrap_err(),
        "SQLite integrity check: row 3 missing from index"
    );
}

#[test]
fn migrates_a_v1_cache_without_losing_the_database() {
    let mut stored = Cache::empty("cache.db".into());
    stored.version = 1;
    stored.events.push(event("of an older layout"));
    stored.authorization = AuthorizationStatus::FullAccess;

    let mut cache = Cache::open(stored, "ok").unwrap();
    assert_eq!(cache.schema_version(), CACHE_SCHEMA_VERSION);
    assert!(cache.events.is_empty());
    assert_eq!(cache.authorization, AuthorizationStatus::FullAccess);
    cache.replace_events(
        at("2026-01-01T00:00:00Z"),
        at("2026-02-01T00:00:00Z"),
        &vec![],
        now(),
    );
    assert!(cache.range_is_fetched(at("2026-01-01T00:00:00Z"), at("2026-02-01T00:00:00Z")));
}

#[test]
fn refuses_a_future_schema_without_quarantining_or_replacing_it() {
    let mut stored = Cache::empty("cache.db".into());
    stored.version = 4;
    match Cache::open_with_recovery(Ok(stored), "ok") {
        Opening::Failed(error) => {
            assert!(error.contains("newer than this tui-calendar release"));
            assert!(error.starts_with("cache schema version 4 is newer"));
            assert!(error.contains("(supports up to 3)"));
        }
        other => panic!("a later layout is neither opened nor put aside: {other:?}"),
    }
}

#[test]
fn quarantines_corrupted_database_and_companion_files_before_recreating_cache() {
    let error = "opening cache: file is not a database: Error code 26: file is not a database";
    assert!(matches!(
        Cache::open_with_recovery(Err(error.into()), "ok"),
        Opening::Corrupted(_)
    ));
    assert!(matches!(
        Cache::open_with_recovery(Err("permission denied".into()), "ok"),
        Opening::Failed(_)
    ));

    let time = "20260821T090000.000000000Z";
    let mut paths = vec![quarantine_name("cache.sqlite3", time, 0)];
    // The database removes one companion while it is probed; its copy is put aside instead.
    assert_eq!(companion_move(true, true), CompanionMove::Original);
    paths.push(quarantine_name("cache.sqlite3-wal", time, 0));
    assert_eq!(companion_move(false, true), CompanionMove::Backup);
    paths.push(quarantine_name("cache.sqlite3-shm", time, 1));
    assert_eq!(companion_move(false, false), CompanionMove::Nothing);

    let recovery = finish_quarantine(paths).expect("corruption must be reported to the caller");
    assert_eq!(
        recovery.quarantined_paths,
        vec![
            "cache.sqlite3.corrupt.20260821T090000.000000000Z".to_string(),
            "cache.sqlite3-wal.corrupt.20260821T090000.000000000Z".to_string(),
            "cache.sqlite3-shm.corrupt.20260821T090000.000000000Z.1".to_string(),
        ]
    );
    assert_eq!(
        backup_name("cache.sqlite3-wal", time, 2),
        ".cache.sqlite3-wal.recovery-probe.20260821T090000.000000000Z.2"
    );
    assert_eq!(
        finish_quarantine(vec![]).unwrap_err(),
        "corrupted cache disappeared before it could be quarantined"
    );
}

#[test]
fn prune_removes_events_outside_the_requested_window() {
    let mut cache = Cache::empty("cache.db".into());
    let mut old = event("old");
    old.id = "old".into();
    old.start = at("2020-01-01T09:00:00Z");
    old.end = at("2020-01-01T10:00:00Z");
    let mut current = event("current");
    current.id = "current".into();
    cache
        .replace_events(
            at("2019-01-01T00:00:00Z"),
            at("2027-01-01T00:00:00Z"),
            &vec![old, current], now()
        );
    let removed = cache
        .prune_outside(
            at("2026-01-01T00:00:00Z"),
            at("2027-01-01T00:00:00Z"),
        );
    assert_eq!(removed, 1);
    assert_eq!(cache.load_snapshot().events.len(), 1);
}

#[test]
fn records_successfully_fetched_empty_ranges() {
    let mut cache = Cache::empty("cache.db".into());
    let start: Timestamp = at("2028-09-01T00:00:00Z");
    let end: Timestamp = at("2028-10-01T00:00:00Z");
    cache.replace_events(start, end, &vec![], now());
    assert!(cache.range_is_fetched(start, end));
    assert_eq!(cache.stats(0).fetched_range_count, 1);
}

#[test]
fn authoritative_refresh_preserves_an_overlapping_multiday_event() {
    let mut cache = Cache::empty("cache.db".into());
    let mut overnight = event("overnight");
    overnight.start = at("2026-08-23T23:00:00Z");
    overnight.end = at("2026-08-24T02:00:00Z");
    let start = at("2026-08-24T00:00:00Z");
    let end = at("2026-08-25T00:00:00Z");

    // EventKit returns events that overlap the predicate interval, even
    // where their start falls before the interval being reconciled.
    cache
        .replace_events(start, end, &vec![overnight.clone()], now());
    let snapshot = cache.load_snapshot();
    assert_eq!(snapshot.events, vec![overnight]);
}

#[test]
fn coverage_detects_gaps_and_merges_adjacent_fetches() {
    let mut cache = Cache::empty("cache.db".into());
    let first_start: Timestamp = at("2028-09-01T00:00:00Z");
    let first_end: Timestamp = at("2028-09-10T00:00:00Z");
    let second_start: Timestamp = at("2028-09-20T00:00:00Z");
    let second_end: Timestamp = at("2028-10-01T00:00:00Z");
    cache.replace_events(first_start, first_end, &vec![], now());
    cache.replace_events(second_start, second_end, &vec![], now());
    assert!(!cache.range_is_fetched(first_start, second_end));
    cache.replace_events(first_end, second_start, &vec![], now());
    assert!(cache.range_is_fetched(first_start, second_end));
    assert_eq!(cache.stats(0).fetched_range_count, 1);
}

#[test]
fn fetched_ranges_from_clips_loaded_coverage_without_filling_gaps() {
    let mut cache = Cache::empty("cache.db".into());
    let first_start: Timestamp = at("2026-09-01T00:00:00Z");
    let first_end: Timestamp = at("2026-09-10T00:00:00Z");
    let second_start: Timestamp = at("2026-09-20T00:00:00Z");
    let second_end: Timestamp = at("2026-10-01T00:00:00Z");
    cache.replace_events(first_start, first_end, &vec![], now());
    cache.replace_events(second_start, second_end, &vec![], now());
    let affected: Timestamp = at("2026-09-05T00:00:00Z");
    assert_eq!(
        cache.fetched_ranges_from(affected),
        vec![
            DateRange {
                start: affected,
                end: first_end
            },
            DateRange {
                start: second_start,
                end: second_end
            },
        ]
    );
    assert!(!cache.range_is_fetched(first_end, second_start));
}

#[test]
fn returns_only_the_missing_gap_for_partially_covered_range() {
    let mut cache = Cache::empty("cache.db".into());
    let requested_start: Timestamp = at("2028-09-01T00:00:00Z");
    let requested_end: Timestamp = at("2028-10-01T00:00:00Z");
    cache
        .replace_events(
            requested_start,
            at("2028-09-10T00:00:00Z"),
            &vec![], now()
        );
    cache
        .replace_events(at("2028-09-20T00:00:00Z"), requested_end, &vec![], now());
    assert_eq!(
        cache
            .missing_ranges(requested_start, requested_end),
        vec![DateRange {
            start: at("2028-09-10T00:00:00Z"),
            end: at("2028-09-20T00:00:00Z"),
        }]
    );
}

#[test]
fn keeps_user_calendar_visibility_during_metadata_refresh() {
    let mut cache = Cache::empty("cache.db".into());
    let mut calendar = CalendarInfo {
        id: "cal-1".into(),
        source_id: "source-1".into(),
        permissions: CalendarPermissions::default(),
        title: "Work".into(),
        account: String::new(),
        provider: "Local".into(),
        color: "#fff".into(),
        is_writable: true,
        enabled: true,
    };
    cache.save_calendars(&vec![calendar.clone()]);
    cache.set_calendar_enabled("cal-1", false);
    calendar.title = "Renamed".into();
    cache.save_calendars(&vec![calendar]);
    let snapshot = cache.load_snapshot();
    assert!(!snapshot.calendars[0].enabled);
    assert_eq!(snapshot.calendars[0].title, "Renamed");
}

#[test]
fn metadata_refresh_prunes_deleted_calendar_visibility_and_events() {
    let mut cache = Cache::empty("cache.db".into());
    let calendar = CalendarInfo {
        id: "cal-delete".into(),
        source_id: "source-1".into(),
        permissions: CalendarPermissions::default(),
        title: "Delete Me".into(),
        account: String::new(),
        provider: "Local".into(),
        color: "#fff".into(),
        is_writable: true,
        enabled: true,
    };
    cache.save_calendars(&vec![calendar]);
    cache.set_calendar_enabled("cal-delete", false);
    let mut deleted_event = event("orphan");
    deleted_event.calendar_id = "cal-delete".into();
    cache
        .replace_events(
            at("2026-01-01T00:00:00Z"),
            at("2027-01-01T00:00:00Z"),
            &vec![deleted_event], now()
        );

    // A non-empty authoritative calendar list means the missing ID was
    // removed by EventKit, so both local visibility and orphaned events
    // are reconciled by the shared metadata refresh path.
    let replacement = CalendarInfo {
        id: "cal-remaining".into(),
        source_id: "source-1".into(),
        permissions: CalendarPermissions::default(),
        title: "Remaining".into(),
        account: String::new(),
        provider: "Local".into(),
        color: "#fff".into(),
        is_writable: true,
        enabled: true,
    };
    cache.save_calendars(&vec![replacement]);
    let snapshot = cache.load_snapshot();
    assert_eq!(snapshot.calendars.len(), 1);
    assert_eq!(snapshot.calendars[0].id, "cal-remaining");
    assert!(snapshot.events.is_empty());
}

#[test]
fn broad_refresh_keeps_each_recurring_occurrence_with_a_shared_provider_id() {
    let mut cache = Cache::empty("cache.db".into());
    let start: Timestamp = at("2026-08-20T00:00:00Z");
    let end: Timestamp = at("2026-09-11T00:00:00Z");
    let events = [0_i64, 1, 4, 5, 6, 7, 8, 11, 12, 13, 14, 15]
        .into_iter()
        .map(|offset| {
            let mut occurrence = event("Dev Stand-up");
            occurrence.provider_id = Some("dev-provider".into());
            occurrence.series_id = Some("dev-series".into());
            occurrence.has_recurrence = true;
            occurrence.start =
                start + Span::days(offset) + Span::hours(7);
            occurrence.end = occurrence.start + Span::minutes(15);
            occurrence.id = format!("occ-v1:dev-provider:{:020}", occurrence.start.seconds());
            occurrence
        })
        .collect::<Vec<_>>();
    cache.replace_events(start, end, &events, now());
    let snapshot = cache.load_snapshot();
    assert_eq!(snapshot.events.len(), events.len());
    assert_eq!(cache.stats(0).event_count as usize, events.len());
    assert!(snapshot.events.iter().any(|event| {
        event.start == at("2026-08-27T07:00:00Z")
            && event.provider_id.as_deref() == Some("dev-provider")
    }));
    // Replaying the same broad authoritative response is idempotent.
    cache.replace_events(start, end, &events, now());
    assert_eq!(cache.stats(0).event_count as usize, events.len());
}

#[test]
fn recovery_opens_an_older_layout_as_opening_does() {
    let range = DateRange { start: at("2026-08-01T00:00:00Z"), end: at("2026-09-01T00:00:00Z") };
    let stored = |version: u32| {
        let mut stored = Cache::empty("cache.db".into());
        stored.version = version;
        stored.events = vec![event("Plan")];
        stored.fetched = vec![range];
        stored.authorization = AuthorizationStatus::FullAccess;
        stored.updated_at = Some(range.start);
        stored
    };
    for version in [0, 2] {
        let Opening::Opened(cache) = Cache::open_with_recovery(Ok(stored(version)), "ok") else {
            panic!("an older layout is opened");
        };
        assert_eq!(cache.path, "cache.db");
        assert_eq!(cache.version, CACHE_SCHEMA_VERSION);
        assert!(cache.events.is_empty());
        assert!(cache.fetched.is_empty());
        assert_eq!(cache.authorization, AuthorizationStatus::FullAccess);
        assert_eq!(cache.updated_at, Some(range.start));
    }
    let Opening::Opened(cache) = Cache::open_with_recovery(Ok(stored(3)), "ok") else {
        panic!("the present layout is opened");
    };
    assert_eq!(cache.events.len(), 1);
    assert_eq!(cache.fetched, vec![range]);
}

#[test]
fn fetching_every_missing_range_leaves_nothing_missing() {
    let mut cache = Cache::empty("cache.db".into());
    let hour = |n: i128| Timestamp { nanos: n * 3_600_000_000_000 };
    cache.replace_events(hour(2), hour(4), &vec![], hour(0));
    cache.replace_events(hour(6), hour(7), &vec![], hour(0));
    let missing = cache.missing_ranges(hour(1), hour(9));
    assert_eq!(
        missing,
        vec![
            DateRange { start: hour(1), end: hour(2) },
            DateRange { start: hour(4), end: hour(6) },
            DateRange { start: hour(7), end: hour(9) },
        ]
    );
    for range in missing {
        cache.replace_events(range.start, range.end, &vec![], hour(0));
    }
    assert!(cache.missing_ranges(hour(1), hour(9)).is_empty());
    assert!(cache.range_is_fetched(hour(1), hour(9)));
    assert!(!cache.range_is_fetched(hour(0), hour(1)));
    assert!(!cache.range_is_fetched(hour(9), hour(10)));
}
