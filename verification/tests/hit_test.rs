//! What is under the pointer.

use tui_calendar::hit_test::{
    CalendarDayColumn, CalendarEventRegion, CalendarHitGeometry, CalendarHitTarget,
    CalendarMonthCell, MonthHitGeometry, ScreenRect, TimelineHitGeometry,
};
use tui_calendar::layout::TimelineViewport;
use tui_calendar::time::{Date, parse_iso_date};


fn date(day: u32) -> Date {
    parse_iso_date(&format!("2026-09-{day:02}")).unwrap()
}

fn timeline(columns: Vec<CalendarDayColumn>) -> TimelineHitGeometry {
    TimelineHitGeometry {
        day_columns: columns,
        all_day_area: Some(ScreenRect::new(10, 2, 20, 2)),
        timed_area: ScreenRect::new(10, 4, 20, 8),
        viewport: TimelineViewport {
            start_minute: 8 * 60,
            minutes_per_row: 30,
            rows: 8,
        },
        event_regions: Vec::new(),
    }
}

#[test]
fn maps_a_day_timeline_coordinate_to_a_local_time_slot() {
    let geometry = CalendarHitGeometry::Day(timeline(vec![CalendarDayColumn {
        date: date(10),
        rect: ScreenRect::new(10, 4, 20, 8),
    }]));

    assert_eq!(
        geometry.hit_test(12, 6),
        CalendarHitTarget::TimedSlot {
            date: date(10),
            minute: 9 * 60,
        }
    );
}

#[test]
fn maps_week_columns_without_using_elapsed_time() {
    let geometry = CalendarHitGeometry::Week(timeline(vec![
        CalendarDayColumn {
            date: date(10),
            rect: ScreenRect::new(10, 4, 10, 8),
        },
        CalendarDayColumn {
            date: date(11),
            rect: ScreenRect::new(20, 4, 10, 8),
        },
    ]));

    assert_eq!(
        geometry.hit_test(22, 5),
        CalendarHitTarget::TimedSlot {
            date: date(11),
            minute: 8 * 60 + 30,
        }
    );
}

#[test]
fn maps_all_day_rows_to_calendar_dates() {
    let geometry = CalendarHitGeometry::Week(timeline(vec![CalendarDayColumn {
        date: date(10),
        rect: ScreenRect::new(10, 2, 20, 10),
    }]));

    assert_eq!(
        geometry.hit_test(15, 3),
        CalendarHitTarget::AllDayRow { date: date(10) }
    );
}

#[test]
fn maps_month_cells_to_their_calendar_dates() {
    let geometry = CalendarHitGeometry::Month(MonthHitGeometry {
        cells: vec![
            CalendarMonthCell {
                date: date(1),
                rect: ScreenRect::new(0, 1, 10, 3),
            },
            CalendarMonthCell {
                date: date(2),
                rect: ScreenRect::new(10, 1, 10, 3),
            },
        ],
        event_regions: Vec::new(),
    });

    assert_eq!(
        geometry.hit_test(12, 2),
        CalendarHitTarget::EmptyCalendarCell { date: date(2) }
    );
}

#[test]
fn event_regions_win_over_empty_grid_targets() {
    let geometry = CalendarHitGeometry::Month(MonthHitGeometry {
        cells: vec![CalendarMonthCell {
            date: date(10),
            rect: ScreenRect::new(0, 1, 10, 3),
        }],
        event_regions: vec![CalendarEventRegion {
            event_id: "event-42".into(),
            rect: ScreenRect::new(1, 2, 8, 1),
        }],
    });

    assert_eq!(
        geometry.hit_test(3, 2),
        CalendarHitTarget::ExistingEvent {
            event_id: "event-42".into(),
        }
    );
}

#[test]
fn coordinates_outside_calendar_geometry_are_rejected() {
    let geometry = CalendarHitGeometry::Day(timeline(vec![CalendarDayColumn {
        date: date(10),
        rect: ScreenRect::new(10, 4, 20, 8),
    }]));

    assert_eq!(geometry.hit_test(1, 1), CalendarHitTarget::OutsideCalendar);
    assert_eq!(
        geometry.hit_test(12, 20),
        CalendarHitTarget::OutsideCalendar
    );
}
