//! The worker beside the screen.

use tui_calendar::app::{MutationEffect, WorkerUpdate};
use tui_calendar::app::worker::{
    Notice, OpenOutcome, Step, Work, after_access, after_authorization, after_authorization_saved,
    after_calendar_colored, after_calendar_created, after_calendar_deleted, after_calendar_enabled,
    after_calendar_renamed, after_calendars, after_calendars_saved, after_capabilities,
    after_coverage, after_created, after_delete_lookup, after_deleted, after_notice, after_open,
    after_range, after_refreshed, after_sources, after_update_lookup, after_updated, after_window,
    refresh_mutation_effect, synchronize, window_request,
};
use tui_calendar::backend::MockBackend;
use tui_calendar::cache::Cache;
use tui_calendar::model::{RangeRequest, RecurrenceMutationScope, Snapshot};
use tui_calendar::time::{Date, Timestamp, now, parse_instant};

fn at(text: &str) -> Timestamp {
    parse_instant(text).unwrap()
}

/// A span of time, in nanoseconds.
#[derive(Clone, Copy)]
struct Span(i128);

impl Span {
    fn minutes(n: i64) -> Span {
        Span(i128::from(n) * 60_000_000_000)
    }
    fn hours(n: i64) -> Span {
        Span::minutes(n * 60)
    }
    fn days(n: i64) -> Span {
        Span::hours(n * 24)
    }
}

impl std::ops::Add<Span> for Timestamp {
    type Output = Timestamp;
    fn add(self, span: Span) -> Timestamp {
        self.plus_nanos(span.0)
    }
}

impl std::ops::Sub<Span> for Timestamp {
    type Output = Timestamp;
    fn sub(self, span: Span) -> Timestamp {
        self.plus_nanos(-span.0)
    }
}

impl std::ops::Add<Span> for Date {
    type Output = Date;
    fn add(self, span: Span) -> Date {
        self.saturating_plus((span.0 / 86_400_000_000_000) as i32)
    }
}

impl std::ops::Sub<Span> for Date {
    type Output = Date;
    fn sub(self, span: Span) -> Date {
        self.saturating_plus(-((span.0 / 86_400_000_000_000) as i32))
    }
}

/// A provider and a cache, on which work is carried out at once.
struct World {
    backend: MockBackend,
    cache: Cache,
    updates: Vec<WorkerUpdate>,
}

impl World {
    fn refresh(&mut self, start: Timestamp, end: Timestamp) -> Result<Snapshot, String> {
        let events = self.backend.events(start, end, &vec![]);
        self.cache.save_calendars(&self.backend.calendars());
        self.cache.replace_events(start, end, &events, now());
        Ok(self.cache.load_snapshot())
    }

    fn load(&mut self, request: RangeRequest, force: bool) -> Result<Snapshot, String> {
        if force {
            return self.refresh(request.start, request.end);
        }
        for gap in self.cache.missing_ranges(request.start, request.end) {
            self.refresh(gap.start, gap.end)?;
        }
        Ok(self.cache.load_snapshot())
    }

    fn carry_out(&mut self, mut step: Step) {
        loop {
            self.updates.append(&mut step.updates);
            step = match step.work {
                Work::Wait => return,
                Work::CheckAuthorization => after_authorization(Ok(self.backend.authorization_status())),
                Work::RequestAccess => after_access(Ok(self.backend.request_access())),
                Work::SaveAuthorization(status) => {
                    self.cache.save_authorization(status);
                    after_authorization_saved(status, Ok(()))
                }
                Work::ReadCapabilities => after_capabilities(Ok(self.backend.calendar_capabilities())),
                Work::ReadSources => after_sources(Ok(self.backend.calendar_sources())),
                Work::RefreshWindow => {
                    let window = window_request(now(), 1, 1);
                    after_window(self.refresh(window.start, window.end))
                }
                Work::LoadRange { request, force } => {
                    after_range(request.id, self.load(request, force))
                }
                Work::SetCalendarEnabled(id, enabled) => {
                    self.cache.set_calendar_enabled(&id, enabled);
                    after_calendar_enabled(Ok(self.cache.load_snapshot()))
                }
                Work::CreateCalendar(request) => {
                    after_calendar_created(self.backend.create_calendar(request))
                }
                Work::RenameCalendar(request) => {
                    after_calendar_renamed(self.backend.rename_calendar(request))
                }
                Work::SetCalendarColor(request) => {
                    after_calendar_colored(self.backend.set_calendar_color(request))
                }
                Work::DeleteCalendar(request) => {
                    after_calendar_deleted(self.backend.delete_calendar(request))
                }
                Work::ReadCalendars => after_calendars(Ok(self.backend.calendars())),
                Work::SaveCalendars(calendars) => {
                    self.cache.save_calendars(&calendars);
                    after_calendars_saved(Ok(self.cache.load_snapshot()))
                }
                Work::CreateEvent { session, event } => {
                    after_created(session, self.backend.create_event(event))
                }
                Work::FindUpdated(job) => after_update_lookup(job, Some(self.cache.load_snapshot())),
                Work::UpdateEvent { job, before } => {
                    let result = self.backend.update_event(
                        job.event,
                        job.span,
                        job.alarms,
                        job.time_mutation,
                    );
                    after_updated(job.session, before, job.recurrence_scope, result)
                }
                Work::FindDeleted(job) => after_delete_lookup(job, Some(self.cache.load_snapshot())),
                Work::DeleteEvent { deletion, target, interval } => {
                    let result = self.backend.delete_event(&target.provider_id, deletion.span);
                    after_deleted(deletion, interval, result)
                }
                Work::ReadCoverage { from, intervals } => {
                    after_coverage(intervals, Ok(self.cache.fetched_ranges_from(from)))
                }
                Work::RefreshRanges(requests) => {
                    let result = self.refresh(requests[0].start, requests[0].end);
                    after_refreshed(requests, result)
                }
                Work::OpenUrl(_) => after_open(OpenOutcome::Opened),
            };
        }
    }

    fn last_snapshot(&self) -> Option<&Snapshot> {
        self.updates.iter().rev().find_map(|update| match update {
            WorkerUpdate::Snapshot(snapshot) => Some(snapshot),
            _ => None,
        })
    }
}

#[test]
fn eventkit_change_refreshes_a_complete_but_stale_cache_range() {
    let mut backend = MockBackend::seeded();
    let template = backend
        .events(
            now() - Span::days(1),
            now() + Span::days(1),
            &vec![],
        )
        .into_iter()
        .find(|event| !event.all_day)
        .unwrap();
    let provider_events = (0..8)
        .map(|index| {
            let mut event = template.clone();
            event.id = format!("change-refresh-{index}");
            event.start = now() + Span::minutes(10 + i64::from(index) * 30);
            event.end = event.start + Span::minutes(20);
            event
        })
        .collect::<Vec<_>>();
    backend.set_events_for_test(provider_events[..4].to_vec());
    let mut world = World { backend, cache: Cache::empty("cache.db".into()), updates: vec![] };
    world.carry_out(synchronize());
    assert_eq!(world.last_snapshot().unwrap().events.len(), 4);
    assert!(world.cache.stats(0).fetched_range_count > 0);

    world.backend.set_events_for_test(provider_events);
    let (step, due) = after_notice(Notice::Changed, false);
    assert!(due);
    world.carry_out(step);
    assert_eq!(world.last_snapshot().unwrap().events.len(), 4);
    let (step, due) = after_notice(Notice::DelayOver, due);
    assert!(!due);
    world.carry_out(step);
    assert_eq!(world.last_snapshot().unwrap().events.len(), 8);
    assert_eq!(world.cache.load_snapshot().events.len(), 8);
}

#[test]
fn future_events_refresh_reconciles_only_loaded_suffix_segments() {
    let mut backend = MockBackend::seeded();
    let calendars = backend.calendars();
    let mut source = backend
        .events(
            now() - Span::days(1),
            now() + Span::days(1),
            &vec![],
        )
        .into_iter()
        .find(|event| event.id == "mock-standup")
        .unwrap();
    let start = source.start;
    let start_date = start.utc_date();
    source.all_day = true;
    source.all_day_start_date = Some(start_date);
    source.all_day_end_date_exclusive = Some(start_date + Span::days(1));
    let occurrence = |id: &str, day: i64| {
        let mut event = source.clone();
        event.id = id.into();
        event.start = start + Span::days(day);
        event.end = event.start + Span::days(1);
        event.all_day_start_date = Some(start_date + Span::days(day));
        event.all_day_end_date_exclusive = Some(start_date + Span::days(day + 1));
        event
    };
    let original = [0, 1, 2, 3, 5]
        .into_iter()
        .enumerate()
        .map(|(index, day)| occurrence(&format!("A{}", index + 1), day))
        .collect::<Vec<_>>();
    let authoritative = vec![
        original[0].clone(),
        original[1].clone(),
        occurrence("B3", 2),
        occurrence("B4", 3),
        occurrence("B5", 5),
    ];
    backend.set_events_for_test(authoritative);

    let mut cache = Cache::empty("cache.db".into());
    cache.save_calendars(&calendars);
    // Two loaded segments with an intentional one-day hole. The second
    // segment proves FutureEvents refreshes coverage beyond the selected
    // occurrence without loading the gap.
    cache.replace_events(start, start + Span::days(4), &original[..4].to_vec(), now());
    cache.replace_events(
        start + Span::days(5),
        start + Span::days(6),
        &original[4..].to_vec(),
        now(),
    );
    let effect = MutationEffect::Updated {
        event_id: "B3".into(),
        before_interval: (original[2].start, original[2].end),
        after_interval: (
            start + Span::days(2),
            start + Span::days(2) + Span::minutes(30),
        ),
        recurrence_scope: Some(RecurrenceMutationScope::FutureEvents),
    };
    let mut world = World { backend, cache, updates: vec![] };
    world.carry_out(Step { updates: vec![], work: refresh_mutation_effect(&effect) });
    let cache = world.cache;

    let ids = cache
        .load_snapshot()
        .events
        .into_iter()
        .map(|event| event.id)
        .collect::<Vec<_>>();
    assert_eq!(ids, vec!["A1", "A2", "B3", "B4", "B5"]);
    assert!(
        cache
            .load_snapshot()
            .events
            .iter()
            .all(|event| event.all_day_date_range().is_some()),
        "split-series reconciliation must retain trusted all-day identity"
    );
    assert!(
        !cache
            .range_is_fetched(start + Span::days(4), start + Span::days(5))
    );
}
