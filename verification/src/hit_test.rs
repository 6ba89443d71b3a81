//! What lies under a position of the screen.
//!
//! A hit test names a target and changes nothing: what the user wants with it goes through a user
//! action.

use crate::layout::{TimelineViewport, MINUTES_PER_DAY};
use crate::seqs::{first_from, first_where, lemma_first_from};
use crate::time::Date;
use vstd::prelude::*;

verus! {

/// A rectangle of the screen. Its right and bottom edges lie outside.
#[derive(Clone, Copy, Debug, PartialEq, Eq, Structural)]
pub struct ScreenRect {
    pub x: u16,
    pub y: u16,
    pub width: u16,
    pub height: u16,
}

impl ScreenRect {
    pub fn new(x: u16, y: u16, width: u16, height: u16) -> (r: Self)
        ensures
            r == (ScreenRect { x, y, width, height }),
    {
        ScreenRect { x, y, width, height }
    }

    /// Whether a position lies in the rectangle. The last column and row of the screen's numbers
    /// lie in no rectangle.
    pub open spec fn holds(self, x: u16, y: u16) -> bool {
        &&& self.x <= x < self.x + self.width
        &&& x < u16::MAX
        &&& self.y <= y < self.y + self.height
        &&& y < u16::MAX
    }

    /// Whether a position lies in the rectangle.
    pub fn contains(self, x: u16, y: u16) -> (r: bool)
        ensures
            r == self.holds(x, y),
    {
        x >= self.x && x < self.x.saturating_add(self.width) && y >= self.y && y
            < self.y.saturating_add(self.height)
    }
}

/// The column of a day.
#[derive(Clone, Copy, Debug, PartialEq, Eq, Structural)]
pub struct CalendarDayColumn {
    pub date: Date,
    pub rect: ScreenRect,
}

/// The cell of a day in a month.
#[derive(Clone, Copy, Debug, PartialEq, Eq, Structural)]
pub struct CalendarMonthCell {
    pub date: Date,
    pub rect: ScreenRect,
}

/// Where an event is drawn.
#[derive(Debug, PartialEq, Eq)]
pub struct CalendarEventRegion {
    pub event_id: String,
    pub rect: ScreenRect,
}

/// What lies under a position.
#[derive(Debug, PartialEq, Eq)]
pub enum CalendarHitTarget {
    OutsideCalendar,
    EmptyCalendarCell { date: Date },
    ExistingEvent { event_id: String },
    AllDayRow { date: Date },
    TimedSlot { date: Date, minute: u16 },
}

impl Clone for CalendarHitTarget {
    fn clone(&self) -> (r: Self)
        ensures
            r == *self,
    {
        match self {
            CalendarHitTarget::OutsideCalendar => CalendarHitTarget::OutsideCalendar,
            CalendarHitTarget::EmptyCalendarCell { date } => CalendarHitTarget::EmptyCalendarCell {
                date: *date,
            },
            CalendarHitTarget::ExistingEvent { event_id } => CalendarHitTarget::ExistingEvent {
                event_id: event_id.clone(),
            },
            CalendarHitTarget::AllDayRow { date } => CalendarHitTarget::AllDayRow { date: *date },
            CalendarHitTarget::TimedSlot { date, minute } => CalendarHitTarget::TimedSlot {
                date: *date,
                minute: *minute,
            },
        }
    }
}

/// The geometry of a day or a week.
#[derive(Debug, PartialEq, Eq)]
pub struct TimelineHitGeometry {
    pub day_columns: Vec<CalendarDayColumn>,
    /// The lanes of all-day events.
    pub all_day_area: Option<ScreenRect>,
    pub timed_area: ScreenRect,
    pub viewport: TimelineViewport,
    pub event_regions: Vec<CalendarEventRegion>,
}

/// The geometry of a month.
#[derive(Debug, PartialEq, Eq)]
pub struct MonthHitGeometry {
    pub cells: Vec<CalendarMonthCell>,
    pub event_regions: Vec<CalendarEventRegion>,
}

/// The geometry of a view.
#[derive(Debug, PartialEq, Eq)]
pub enum CalendarHitGeometry {
    Day(TimelineHitGeometry),
    Week(TimelineHitGeometry),
    Month(MonthHitGeometry),
}

/// The first event drawn at a position.
pub open spec fn event_under(regions: Seq<CalendarEventRegion>, x: u16, y: u16) -> Option<int> {
    first_where(regions, |region: CalendarEventRegion| region.rect.holds(x, y))
}

fn find_event_under(regions: &Vec<CalendarEventRegion>, x: u16, y: u16) -> (r: Option<usize>)
    ensures
        match r {
            Some(i) => event_under(regions@, x, y) == Some(i as int) && i < regions@.len(),
            None => event_under(regions@, x, y) is None,
        },
{
    let ghost hit = |region: CalendarEventRegion| region.rect.holds(x, y);
    let mut i: usize = 0;
    while i < regions.len()
        invariant
            i <= regions@.len(),
            hit == (|region: CalendarEventRegion| region.rect.holds(x, y)),
            first_where(regions@, hit) == first_from(regions@, hit, i as int),
        decreases regions@.len() - i,
    {
        if regions[i].rect.contains(x, y) {
            return Some(i);
        }
        i += 1;
    }
    None
}

impl TimelineHitGeometry {
    /// The first column at a position.
    pub open spec fn column_under(self, x: u16, y: u16) -> Option<int> {
        first_where(self.day_columns@, |column: CalendarDayColumn| column.rect.holds(x, y))
    }

    /// The minute that a row of the timed area stands for, where the row is shown and the minute is
    /// of the day.
    pub open spec fn minute_at(self, y: u16) -> Option<u16> {
        let row = y - self.timed_area.y;
        let minute = self.viewport.start_minute + row * self.viewport.minutes_per_row;
        if row < self.viewport.rows && minute < MINUTES_PER_DAY {
            Some(minute as u16)
        } else {
            None
        }
    }

    /// What lies at a position: an event drawn there; else, in the column of a day, the lane of
    /// all-day events or a minute of the day.
    pub open spec fn target(self, x: u16, y: u16, r: CalendarHitTarget) -> bool {
        match event_under(self.event_regions@, x, y) {
            Some(i) => r == (CalendarHitTarget::ExistingEvent {
                event_id: self.event_regions@[i].event_id,
            }),
            None => match self.column_under(x, y) {
                None => r == CalendarHitTarget::OutsideCalendar,
                Some(i) => {
                    let date = self.day_columns@[i].date;
                    if self.all_day_area matches Some(area) && area.holds(x, y) {
                        r == (CalendarHitTarget::AllDayRow { date })
                    } else if !self.timed_area.holds(x, y) {
                        r == CalendarHitTarget::OutsideCalendar
                    } else {
                        match self.minute_at(y) {
                            Some(minute) => r == (CalendarHitTarget::TimedSlot { date, minute }),
                            None => r == CalendarHitTarget::OutsideCalendar,
                        }
                    }
                },
            },
        }
    }

    fn find_column_under(&self, x: u16, y: u16) -> (r: Option<usize>)
        ensures
            match r {
                Some(i) => self.column_under(x, y) == Some(i as int) && i < self.day_columns@.len(),
                None => self.column_under(x, y) is None,
            },
    {
        let ghost hit = |column: CalendarDayColumn| column.rect.holds(x, y);
        let mut i: usize = 0;
        while i < self.day_columns.len()
            invariant
                i <= self.day_columns@.len(),
                hit == (|column: CalendarDayColumn| column.rect.holds(x, y)),
                first_where(self.day_columns@, hit) == first_from(self.day_columns@, hit, i as int),
            decreases self.day_columns@.len() - i,
        {
            if self.day_columns[i].rect.contains(x, y) {
                return Some(i);
            }
            i += 1;
        }
        None
    }

    /// What lies at a position.
    pub fn hit_test(&self, x: u16, y: u16) -> (r: CalendarHitTarget)
        ensures
            self.target(x, y, r),
    {
        match find_event_under(&self.event_regions, x, y) {
            Some(i) => {
                return CalendarHitTarget::ExistingEvent {
                    event_id: self.event_regions[i].event_id.clone(),
                };
            },
            None => {},
        }
        let date = match self.find_column_under(x, y) {
            Some(i) => self.day_columns[i].date,
            None => return CalendarHitTarget::OutsideCalendar,
        };
        match self.all_day_area {
            Some(area) => {
                if area.contains(x, y) {
                    return CalendarHitTarget::AllDayRow { date };
                }
            },
            None => {},
        }
        if !self.timed_area.contains(x, y) {
            return CalendarHitTarget::OutsideCalendar;
        }
        let row: u16 = y - self.timed_area.y;
        if row >= self.viewport.rows {
            return CalendarHitTarget::OutsideCalendar;
        }
        proof {
            assert(row * self.viewport.minutes_per_row <= 65_535 * 65_535) by (nonlinear_arith)
                requires
                    row <= 65_535,
                    self.viewport.minutes_per_row <= 65_535,
            ;
            assert(row * self.viewport.minutes_per_row >= 0) by (nonlinear_arith)
                requires
                    row >= 0,
                    self.viewport.minutes_per_row >= 0,
            ;
        }
        let offset: u32 = row as u32 * self.viewport.minutes_per_row as u32;
        if offset >= 1_440 {
            return CalendarHitTarget::OutsideCalendar;
        }
        let minute: u32 = self.viewport.start_minute as u32 + offset;
        if minute >= 1_440 {
            return CalendarHitTarget::OutsideCalendar;
        }
        CalendarHitTarget::TimedSlot { date, minute: minute as u16 }
    }
}

impl MonthHitGeometry {
    /// The first cell at a position.
    pub open spec fn cell_under(self, x: u16, y: u16) -> Option<int> {
        first_where(self.cells@, |cell: CalendarMonthCell| cell.rect.holds(x, y))
    }

    /// What lies at a position: an event drawn there, else the cell of a day.
    pub open spec fn target(self, x: u16, y: u16, r: CalendarHitTarget) -> bool {
        match event_under(self.event_regions@, x, y) {
            Some(i) => r == (CalendarHitTarget::ExistingEvent {
                event_id: self.event_regions@[i].event_id,
            }),
            None => match self.cell_under(x, y) {
                Some(i) => r == (CalendarHitTarget::EmptyCalendarCell { date: self.cells@[i].date }),
                None => r == CalendarHitTarget::OutsideCalendar,
            },
        }
    }

    /// What lies at a position.
    pub fn hit_test(&self, x: u16, y: u16) -> (r: CalendarHitTarget)
        ensures
            self.target(x, y, r),
    {
        match find_event_under(&self.event_regions, x, y) {
            Some(i) => {
                return CalendarHitTarget::ExistingEvent {
                    event_id: self.event_regions[i].event_id.clone(),
                };
            },
            None => {},
        }
        let ghost hit = |cell: CalendarMonthCell| cell.rect.holds(x, y);
        let mut i: usize = 0;
        while i < self.cells.len()
            invariant
                i <= self.cells@.len(),
                event_under(self.event_regions@, x, y) is None,
                hit == (|cell: CalendarMonthCell| cell.rect.holds(x, y)),
                first_where(self.cells@, hit) == first_from(self.cells@, hit, i as int),
            decreases self.cells@.len() - i,
        {
            if self.cells[i].rect.contains(x, y) {
                return CalendarHitTarget::EmptyCalendarCell { date: self.cells[i].date };
            }
            i += 1;
        }
        CalendarHitTarget::OutsideCalendar
    }
}

impl CalendarHitGeometry {
    /// What lies at a position.
    pub open spec fn target(self, x: u16, y: u16, r: CalendarHitTarget) -> bool {
        match self {
            CalendarHitGeometry::Day(geometry) => geometry.target(x, y, r),
            CalendarHitGeometry::Week(geometry) => geometry.target(x, y, r),
            CalendarHitGeometry::Month(geometry) => geometry.target(x, y, r),
        }
    }

    /// The events drawn.
    pub open spec fn regions(self) -> Seq<CalendarEventRegion> {
        match self {
            CalendarHitGeometry::Day(geometry) => geometry.event_regions@,
            CalendarHitGeometry::Week(geometry) => geometry.event_regions@,
            CalendarHitGeometry::Month(geometry) => geometry.event_regions@,
        }
    }

    /// What lies at a position. Nothing is changed.
    pub fn hit_test(&self, x: u16, y: u16) -> (r: CalendarHitTarget)
        ensures
            self.target(x, y, r),
    {
        match self {
            CalendarHitGeometry::Day(geometry) => geometry.hit_test(x, y),
            CalendarHitGeometry::Week(geometry) => geometry.hit_test(x, y),
            CalendarHitGeometry::Month(geometry) => geometry.hit_test(x, y),
        }
    }
}

/// An event wins over the empty place that it is drawn on: at a position that some event's bounds
/// hold, the target is an event whose bounds hold it.
pub proof fn law_events_win(
    geometry: CalendarHitGeometry,
    x: u16,
    y: u16,
    r: CalendarHitTarget,
    drawn: int,
)
    requires
        geometry.target(x, y, r),
        0 <= drawn < geometry.regions().len(),
        geometry.regions()[drawn].rect.holds(x, y),
    ensures
        exists|i: int|
            0 <= i <= drawn && (#[trigger] geometry.regions()[i]).rect.holds(x, y) && r == (
            CalendarHitTarget::ExistingEvent { event_id: geometry.regions()[i].event_id }),
{
    let hit = |region: CalendarEventRegion| region.rect.holds(x, y);
    lemma_first_from(geometry.regions(), hit, 0);
    let i = event_under(geometry.regions(), x, y)->0;
    assert(hit(geometry.regions()[drawn]));
    assert(geometry.regions()[i].rect.holds(x, y));
}

/// A timed slot names a minute of the day, and lies in the timed area and in the column of its day.
pub proof fn law_slots_are_minutes_of_the_day(
    geometry: TimelineHitGeometry,
    x: u16,
    y: u16,
    r: CalendarHitTarget,
)
    requires
        geometry.target(x, y, r),
        r is TimedSlot,
    ensures
        r->TimedSlot_minute < MINUTES_PER_DAY,
        geometry.timed_area.holds(x, y),
        exists|i: int|
            0 <= i < geometry.day_columns@.len() && (#[trigger] geometry.day_columns@[i]).date
                == r->TimedSlot_date && geometry.day_columns@[i].rect.holds(x, y),
{
    let hit = |column: CalendarDayColumn| column.rect.holds(x, y);
    lemma_first_from(geometry.day_columns@, hit, 0);
    let i = geometry.column_under(x, y)->0;
    assert(geometry.day_columns@[i].rect.holds(x, y));
}

} // verus!
