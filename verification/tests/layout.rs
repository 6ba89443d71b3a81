//! Events side by side, and what is shown of them.

use tui_calendar::layout::{
    MINUTES_PER_DAY, TimelineItem, TimelineViewport, item_for_day, item_shown, layout_overlaps,
};
use tui_calendar::time::{Date, Timestamp, WallTime, local_single, local_today, parse_iso_date};

fn date(year: i32, month: u32, day: u32) -> Date {
    parse_iso_date(&format!("{year:04}-{month:02}-{day:02}")).unwrap()
}

/// A span of time, in nanoseconds.
#[derive(Clone, Copy)]
struct Span(i128);

impl Span {
    fn minutes(n: i64) -> Span {
        Span(i128::from(n) * 60_000_000_000)
    }
    fn hours(n: i64) -> Span {
        Span::minutes(n * 60)
    }
    fn days(n: i64) -> Span {
        Span::hours(n * 24)
    }
}

impl std::ops::Add<Span> for Timestamp {
    type Output = Timestamp;
    fn add(self, span: Span) -> Timestamp {
        self.plus_nanos(span.0)
    }
}

impl std::ops::Sub<Span> for Timestamp {
    type Output = Timestamp;
    fn sub(self, span: Span) -> Timestamp {
        self.plus_nanos(-span.0)
    }
}

impl std::ops::Add<Span> for Date {
    type Output = Date;
    fn add(self, span: Span) -> Date {
        self.saturating_plus((span.0 / 86_400_000_000_000) as i32)
    }
}

impl std::ops::Sub<Span> for Date {
    type Output = Date;
    fn sub(self, span: Span) -> Date {
        self.saturating_plus(-((span.0 / 86_400_000_000_000) as i32))
    }
}

fn item(index: usize, start: u16, end: u16) -> TimelineItem {
    TimelineItem {
        event_index: index,
        start_minute: start,
        end_minute: end,
    }
}

#[test]
fn lays_overlapping_events_side_by_side() {
    let layout = layout_overlaps(&vec![item(0, 9 * 60, 10 * 60), item(1, 9 * 60 + 30, 11 * 60)]);
    assert_eq!(layout.len(), 2);
    assert_eq!(layout[0].columns, 2);
    assert_eq!(layout[1].columns, 2);
    assert_ne!(layout[0].column, layout[1].column);
}

#[test]
fn lets_adjacent_events_reuse_a_column() {
    let layout = layout_overlaps(&vec![item(0, 9 * 60, 10 * 60), item(1, 10 * 60, 11 * 60)]);
    assert_eq!(layout[0].columns, 1);
    assert_eq!(layout[1].columns, 1);
    assert_eq!(layout[0].column, 0);
    assert_eq!(layout[1].column, 0);
}

#[test]
fn viewport_clips_event_to_visible_rows() {
    let viewport = TimelineViewport {
        start_minute: 8 * 60,
        minutes_per_row: 30,
        rows: 8,
    };
    assert_eq!(
        viewport.rows_for_range(7 * 60 + 30, 9 * 60 + 15),
        Some((0, 3))
    );
    assert_eq!(viewport.rows_for_range(13 * 60, 14 * 60), None);
}

#[test]
fn clips_timed_events_across_midnight_for_each_day() {
    let day = local_today();
    let start = local_single(WallTime { date: day, second: 22 * 3_600 }).unwrap();
    let end = local_single(WallTime { date: day + Span::days(1), second: 2 * 3_600 }).unwrap();
    assert_eq!(
        item_for_day(1, start, end, false, day)
            .unwrap()
            .start_minute,
        22 * 60
    );
    assert_eq!(
        item_for_day(1, start, end, false, day).unwrap().end_minute,
        MINUTES_PER_DAY
    );
    assert_eq!(
        item_for_day(1, start, end, false, day + Span::days(1))
            .unwrap()
            .start_minute,
        0
    );
    assert_eq!(
        item_for_day(1, start, end, false, day + Span::days(1))
            .unwrap()
            .end_minute,
        2 * 60
    );
}

#[test]
fn handles_nested_and_chained_overlaps() {
    let layout = layout_overlaps(&vec![
        item(0, 9 * 60, 10 * 60),
        item(1, 9 * 60 + 15, 9 * 60 + 45),
        item(2, 9 * 60 + 30, 11 * 60),
        item(3, 10 * 60, 10 * 60 + 30),
    ]);
    assert_eq!(layout.len(), 4);
    assert_eq!(layout.iter().map(|item| item.columns).max(), Some(3));
    assert_eq!(layout[3].columns, 3);
}

#[test]
fn the_layout_does_not_depend_on_the_order_of_the_items() {
    let items = vec![item(0, 540, 600), item(1, 555, 585), item(2, 570, 660), item(3, 600, 630)];
    let mut turned = items.clone();
    turned.reverse();
    turned.swap(0, 2);
    assert_eq!(layout_overlaps(&items), layout_overlaps(&turned));
}

#[test]
fn a_range_takes_the_rows_of_its_minutes() {
    for (start_minute, minutes_per_row, rows) in
        [(480, 30, 8), (0, 7, 11), (1_400, 15, 20), (0, 60_000, 60_000), (480, 0, 8), (480, 30, 0)]
    {
        let viewport = TimelineViewport { start_minute, minutes_per_row, rows };
        for (start, end) in [(0, 1_440), (450, 555), (481, 482), (700, 600), (1_390, 65_535)] {
            let shown: Vec<u16> =
                (start..end).filter_map(|minute| viewport.row_for(minute)).collect();
            match viewport.rows_for_range(start, end) {
                None => assert!(shown.is_empty()),
                Some((row, count)) => {
                    assert_eq!(shown.first(), Some(&row));
                    assert_eq!(shown.last(), Some(&(row + count - 1)));
                    assert!(row + count <= rows);
                }
            }
        }
    }
    let flat = TimelineViewport { start_minute: 480, minutes_per_row: 0, rows: 8 };
    assert_eq!(flat.row_for(480), None);
}

#[test]
fn an_event_over_midnight_has_a_part_on_each_day() {
    let hour = |n: i128| Timestamp { nanos: n * 3_600_000_000_000 };
    let wall = |day: i32, hour: u32| WallTime { date: Date { day }, second: hour * 3_600 };
    let (start, end) = (hour(22), hour(26));
    let part = |first: i128, last: i128, from: WallTime, to: WallTime| {
        item_shown(3, start, end, false, Some(hour(first)), Some(hour(last)), from, to)
    };
    let evening = part(0, 24, wall(719_163, 22), wall(719_164, 0)).unwrap();
    assert_eq!((evening.event_index, evening.start_minute, evening.end_minute), (3, 1_320, 1_440));
    let morning = part(24, 48, wall(719_164, 0), wall(719_164, 2)).unwrap();
    assert_eq!((morning.start_minute, morning.end_minute), (0, 120));
    assert_eq!(part(48, 72, wall(719_164, 2), wall(719_164, 2)), None);
    let all_day = item_shown(
        3,
        start,
        end,
        true,
        Some(hour(0)),
        Some(hour(24)),
        wall(719_163, 22),
        wall(719_164, 0),
    );
    assert_eq!(all_day, None);
    let no_midnight =
        item_shown(3, start, end, false, None, Some(hour(24)), wall(719_163, 22), wall(719_164, 0));
    assert_eq!(no_midnight, None);
}
