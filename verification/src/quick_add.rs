//! What the text of quick add stands for, once it has been read.

use crate::model::{Alarm, EventTimeInput, RecurrenceRule};
use vstd::prelude::*;

verus! {

/// How far a text of quick add says all that an event needs.
#[derive(Clone, Copy, Debug, PartialEq, Eq, Structural)]
pub enum QuickAddStatus {
    Ready,
    Incomplete,
}

/// The event that a text of quick add stands for.
#[derive(Debug, PartialEq, Eq)]
pub struct QuickAddDraft {
    pub calendar_id: String,
    pub title: String,
    pub time: EventTimeInput,
    pub location: String,
    pub notes: String,
    pub alarms: Vec<Alarm>,
    pub recurrence: Vec<RecurrenceRule>,
}

/// What was read from a text of quick add.
#[derive(Debug, PartialEq, Eq)]
pub struct QuickAddParseResult {
    pub draft: Option<QuickAddDraft>,
    pub warnings: Vec<String>,
    pub status: QuickAddStatus,
}

impl QuickAddParseResult {
    /// Nothing was read.
    pub fn nothing() -> (r: Self)
        ensures
            r.draft is None,
            r.warnings@.len() == 0,
            r.status == QuickAddStatus::Incomplete,
    {
        QuickAddParseResult {
            draft: None,
            warnings: Vec::new(),
            status: QuickAddStatus::Incomplete,
        }
    }

    /// The first warning, or what is said where there is none.
    pub open spec fn first_warning(self) -> Seq<char> {
        if self.warnings@.len() > 0 {
            self.warnings@[0]@
        } else {
            "Quick Add needs more information"@
        }
    }
}

} // verus!
