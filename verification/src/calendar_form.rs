//! The forms in which calendars are created, renamed and colored.

use crate::alarm::popped;
use crate::input::{KeyCode, KeyEvent};
use crate::model::{
    CalendarError, CalendarInfo, CalendarSource, CreateCalendarRequest, RenameCalendarRequest,
    SetCalendarColorRequest,
};
use crate::seqs::{neighbour, step_index};
use crate::text::{ascii_upper, chars_of, is_blank, to_ascii_upper, trim, trimmed};
use vstd::prelude::*;
use vstd::string::StringExecFns;

verus! {

/// Whether a character is a hexadecimal digit.
pub open spec fn is_hex(c: char) -> bool {
    '0' <= c <= '9' || 'a' <= c <= 'f' || 'A' <= c <= 'F'
}

/// Whether a text is a color: `#` and a hexadecimal number of six characters, the first of which
/// may be a plus sign.
pub open spec fn is_color(text: Seq<char>) -> bool {
    &&& text.len() == 7
    &&& text[0] == '#'
    &&& is_hex(text[1]) || text[1] == '+'
    &&& forall|i: int| 2 <= i < 7 ==> is_hex(#[trigger] text[i])
}

/// Whether a text is a color.
pub fn is_color_text(text: &str) -> (r: bool)
    ensures
        r == is_color(text@),
{
    let chars = chars_of(text);
    if chars.len() != 7 || chars[0] != '#' {
        return false;
    }
    let mut i: usize = 1;
    while i < 7
        invariant
            1 <= i <= 7,
            chars@.len() == 7,
            chars@ == text@,
            chars@[0] == '#',
            i > 1 ==> is_hex(chars@[1]) || chars@[1] == '+',
            forall|j: int| 2 <= j < i ==> is_hex(#[trigger] chars@[j]),
        decreases 7 - i,
    {
        let c = chars[i];
        let hex = ('0' <= c && c <= '9') || ('a' <= c && c <= 'f') || ('A' <= c && c <= 'F');
        if !hex && !(i == 1 && c == '+') {
            proof {
                if i >= 2 {
                    assert(!is_hex(text@[i as int]));
                }
            }
            return false;
        }
        i += 1;
    }
    true
}

#[derive(Clone, Copy, Debug, PartialEq, Eq, Structural)]
pub enum CalendarFormField {
    Title,
    Color,
    Source,
}

impl CalendarFormField {
    /// The name of the line.
    pub open spec fn text(self) -> Seq<char> {
        match self {
            CalendarFormField::Title => "Title"@,
            CalendarFormField::Color => "Color"@,
            CalendarFormField::Source => "Source"@,
        }
    }

    /// The name of the line.
    pub fn label(self) -> (r: &'static str)
        ensures
            r@ == self.text(),
    {
        match self {
            CalendarFormField::Title => "Title",
            CalendarFormField::Color => "Color",
            CalendarFormField::Source => "Source",
        }
    }
}

/// The form in which a calendar is created.
#[derive(Debug, PartialEq, Eq)]
pub struct CalendarForm {
    pub title: String,
    pub color: String,
    pub source_index: Option<usize>,
    pub selected: usize,
}

impl Clone for CalendarForm {
    fn clone(&self) -> (r: Self)
        ensures
            r == *self,
    {
        CalendarForm {
            title: self.title.clone(),
            color: self.color.clone(),
            source_index: self.source_index,
            selected: self.selected,
        }
    }
}

impl Default for CalendarForm {
    fn default() -> (r: Self)
        ensures
            r.title@ == Seq::<char>::empty(),
            r.color@ == "#5E9EFF"@,
            r.source_index is None,
            r.selected == 0,
    {
        Self::new()
    }
}

impl CalendarForm {
    /// The cursor is on a line.
    pub open spec fn wf(self) -> bool {
        self.selected < 3
    }

    /// The form of a new calendar. No source is chosen: that is left to the user.
    pub fn new() -> (r: Self)
        ensures
            r.title@ == Seq::<char>::empty(),
            r.color@ == "#5E9EFF"@,
            r.source_index is None,
            r.selected == 0,
            r.wf(),
    {
        CalendarForm {
            title: String::new(),
            color: "#5E9EFF".to_owned(),
            source_index: None,
            selected: 0,
        }
    }

    /// The line that the cursor is on.
    pub open spec fn current(self) -> CalendarFormField {
        if self.selected == 0 {
            CalendarFormField::Title
        } else if self.selected == 1 {
            CalendarFormField::Color
        } else {
            CalendarFormField::Source
        }
    }

    /// The line that the cursor is on.
    pub fn field(&self) -> (r: CalendarFormField)
        requires
            self.wf(),
        ensures
            r == self.current(),
    {
        if self.selected == 0 {
            CalendarFormField::Title
        } else if self.selected == 1 {
            CalendarFormField::Color
        } else {
            CalendarFormField::Source
        }
    }

    /// Moves the cursor to the next line, after the last to the first.
    pub fn next_field(&mut self)
        ensures
            *final(self) == (CalendarForm { selected: final(self).selected, ..*old(self) }),
            final(self).selected == (old(self).selected + 1) % 3,
            final(self).wf(),
    {
        self.selected = step_index(self.selected, false, 3);
    }

    /// Moves the cursor to the previous line, before the first to the last.
    pub fn previous_field(&mut self)
        ensures
            *final(self) == (CalendarForm { selected: final(self).selected, ..*old(self) }),
            final(self).selected == (old(self).selected + 2) % 3,
            final(self).wf(),
    {
        self.selected = step_index(self.selected, true, 3);
    }

    /// Whether the line is chosen from, not typed into.
    pub fn is_choice(&self) -> (r: bool)
        requires
            self.wf(),
        ensures
            r == (self.current() is Source),
    {
        match self.field() {
            CalendarFormField::Source => true,
            _ => false,
        }
    }

    /// What the line under the cursor shows.
    pub open spec fn shown_value(self, sources: Seq<CalendarSource>) -> Seq<char> {
        match self.current() {
            CalendarFormField::Title => self.title@,
            CalendarFormField::Color => self.color@,
            CalendarFormField::Source => match self.source_index {
                Some(i) => if i < sources.len() {
                    sources[i as int].title@ + " ("@ + sources[i as int].source_type@ + ")"@
                } else {
                    "Select a source"@
                },
                None => "Select a source"@,
            },
        }
    }

    /// What the line under the cursor shows.
    pub fn value(&self, sources: &Vec<CalendarSource>) -> (r: String)
        requires
            self.wf(),
        ensures
            r@ == self.shown_value(sources@),
    {
        match self.field() {
            CalendarFormField::Title => self.title.clone(),
            CalendarFormField::Color => self.color.clone(),
            CalendarFormField::Source => {
                match self.source_index {
                    Some(i) => {
                        if i < sources.len() {
                            let mut out = sources[i].title.clone();
                            out.append(" (");
                            out.append(sources[i].source_type.as_str());
                            out.append(")");
                            return out;
                        }
                    },
                    None => {},
                }
                "Select a source".to_owned()
            },
        }
    }

    /// Types a character into the line under the cursor.
    pub fn push(&mut self, character: char)
        requires
            old(self).wf(),
        ensures
            *final(self) == (CalendarForm {
                title: final(self).title,
                color: final(self).color,
                ..*old(self)
            }),
            final(self).title@ == (if old(self).current() is Title {
                old(self).title@.push(character)
            } else {
                old(self).title@
            }),
            final(self).color@ == (if old(self).current() is Color {
                old(self).color@.push(character)
            } else {
                old(self).color@
            }),
    {
        match self.field() {
            CalendarFormField::Title => self.title.push(character),
            CalendarFormField::Color => self.color.push(character),
            CalendarFormField::Source => {},
        }
    }

    /// Removes the last character of the line under the cursor.
    pub fn backspace(&mut self)
        requires
            old(self).wf(),
        ensures
            *final(self) == (CalendarForm {
                title: final(self).title,
                color: final(self).color,
                ..*old(self)
            }),
            final(self).title@ == (if old(self).current() is Title {
                popped(old(self).title@)
            } else {
                old(self).title@
            }),
            final(self).color@ == (if old(self).current() is Color {
                popped(old(self).color@)
            } else {
                old(self).color@
            }),
    {
        match self.field() {
            CalendarFormField::Title => {
                let _ = self.title.pop();
            },
            CalendarFormField::Color => {
                let _ = self.color.pop();
            },
            CalendarFormField::Source => {},
        }
    }

    /// The source one step from the chosen one. The first step forwards chooses the first source,
    /// the first step backwards the one before the last.
    pub open spec fn next_source(self, direction: int, count: int) -> Option<usize> {
        if !(self.current() is Source) || count == 0 {
            self.source_index
        } else {
            match self.source_index {
                None => Some(
                    (if direction < 0 {
                        neighbour(count - 1, true, count)
                    } else {
                        0
                    }) as usize,
                ),
                Some(i) => Some(neighbour(i as int, direction < 0, count) as usize),
            }
        }
    }

    /// Steps the choice under the cursor in a direction.
    pub fn adjust(&mut self, direction: i32, sources: &Vec<CalendarSource>)
        requires
            old(self).wf(),
        ensures
            *final(self) == (CalendarForm {
                source_index: old(self).next_source(direction as int, sources@.len() as int),
                ..*old(self)
            }),
    {
        let count: usize = sources.len();
        if !self.is_choice() || count == 0 {
            return;
        }
        self.source_index = match self.source_index {
            None => if direction < 0 {
                Some(step_index(count - 1, true, count))
            } else {
                Some(0)
            },
            Some(i) => Some(step_index(i, direction < 0, count)),
        };
    }

    /// The request that the form makes, or the first thing that is wrong with it.
    pub fn to_request(&self, sources: &Vec<CalendarSource>) -> (r: Result<
        CreateCalendarRequest,
        String,
    >)
        ensures
            match r {
                Ok(request) => {
                    &&& trimmed(self.title@).len() > 0
                    &&& is_color(self.color@)
                    &&& self.source_index matches Some(i) && i < sources@.len()
                        && request.source_id@ == sources@[i as int].id@
                    &&& request.title@ == trimmed(self.title@)
                    &&& request.color@ == self.color@
                },
                Err(error) => error@ == (if trimmed(self.title@).len() == 0 {
                    "Calendar title is required"@
                } else if !is_color(self.color@) {
                    "Calendar color must use #RRGGBB"@
                } else {
                    "Select a calendar source"@
                }),
            },
            r is Ok <==> trimmed(self.title@).len() > 0 && is_color(self.color@) && (
            self.source_index matches Some(i) && i < sources@.len()),
    {
        if is_blank(self.title.as_str()) {
            return Err("Calendar title is required".to_owned());
        }
        if !is_color_text(self.color.as_str()) {
            return Err("Calendar color must use #RRGGBB".to_owned());
        }
        match self.source_index {
            Some(i) => {
                if i < sources.len() {
                    return Ok(
                        CreateCalendarRequest {
                            source_id: sources[i].id.clone(),
                            title: trim(self.title.as_str()),
                            color: self.color.clone(),
                        },
                    );
                }
            },
            None => {},
        }
        Err("Select a calendar source".to_owned())
    }
}

impl CalendarForm {
    /// Whether a form is this one after a key: the cursor moves, the source is stepped through, or
    /// the line under the cursor is typed into.
    pub open spec fn is_after_key(self, key: KeyEvent, count: int, post: CalendarForm) -> bool {
        let typed = match key.code {
            KeyCode::Char(character) => !key.modifiers.control && !(character == ' '
                && self.current() is Source),
            _ => false,
        };
        let edit = |text: Seq<char>|
            match key.code {
                KeyCode::Char(character) => text.push(character),
                _ => popped(text),
            };
        let edits = typed || key.code == KeyCode::Backspace;
        let step = if key.code == KeyCode::Left {
            -1int
        } else if key.code == KeyCode::Right || key.code == KeyCode::Char(' ') {
            1
        } else {
            0
        };
        &&& post.selected == (if key.code == KeyCode::Tab || key.code == KeyCode::Down {
            (self.selected + 1) % 3
        } else if key.code == KeyCode::BackTab || key.code == KeyCode::Up {
            (self.selected + 2) % 3
        } else {
            self.selected as int
        })
        &&& post.source_index == (if step != 0 {
            self.next_source(step, count)
        } else {
            self.source_index
        })
        &&& post.title@ == (if edits && self.current() is Title {
            edit(self.title@)
        } else {
            self.title@
        })
        &&& post.color@ == (if edits && self.current() is Color {
            edit(self.color@)
        } else {
            self.color@
        })
    }

    /// Handles a key in the form.
    pub fn handle_key(&mut self, key: KeyEvent, sources: &Vec<CalendarSource>)
        requires
            old(self).wf(),
        ensures
            old(self).is_after_key(key, sources@.len() as int, *final(self)),
            final(self).wf(),
    {
        match key.code {
            KeyCode::Tab => self.next_field(),
            KeyCode::Down => self.next_field(),
            KeyCode::BackTab => self.previous_field(),
            KeyCode::Up => self.previous_field(),
            KeyCode::Left => self.adjust(-1, sources),
            KeyCode::Right => self.adjust(1, sources),
            KeyCode::Backspace => self.backspace(),
            KeyCode::Char(character) => {
                if character == ' ' && self.is_choice() {
                    self.adjust(1, sources);
                } else if !key.modifiers.control {
                    self.push(character);
                }
            },
            _ => {},
        }
    }
}

/// A text after a key: typed into, or its last character removed.
pub open spec fn text_after_key(text: Seq<char>, key: KeyEvent) -> Seq<char> {
    match key.code {
        KeyCode::Backspace => popped(text),
        KeyCode::Char(character) => if key.modifiers.control {
            text
        } else {
            text.push(character)
        },
        _ => text,
    }
}

/// Types a key into a text, or removes its last character.
pub fn type_key(text: &mut String, key: KeyEvent)
    ensures
        final(text)@ == text_after_key(old(text)@, key),
{
    match key.code {
        KeyCode::Backspace => {
            let _ = text.pop();
        },
        KeyCode::Char(character) => {
            if !key.modifiers.control {
                text.push(character);
            }
        },
        _ => {},
    }
}

/// The form in which a calendar is renamed.
#[derive(Debug, PartialEq, Eq)]
pub struct CalendarRenameForm {
    pub calendar_id: String,
    pub title: String,
}

impl Clone for CalendarRenameForm {
    fn clone(&self) -> (r: Self)
        ensures
            r == *self,
    {
        CalendarRenameForm { calendar_id: self.calendar_id.clone(), title: self.title.clone() }
    }
}

impl CalendarRenameForm {
    pub fn new(calendar: &CalendarInfo) -> (r: Self)
        ensures
            r.calendar_id == calendar.id,
            r.title == calendar.title,
    {
        CalendarRenameForm { calendar_id: calendar.id.clone(), title: calendar.title.clone() }
    }

    /// The request that the form makes; a blank title makes none.
    pub fn to_request(&self) -> (r: Result<RenameCalendarRequest, String>)
        ensures
            r is Ok <==> trimmed(self.title@).len() > 0,
            match r {
                Ok(request) => request.calendar_id == self.calendar_id && request.title@ == trimmed(
                    self.title@,
                ),
                Err(error) => error@ == "Calendar title is required"@,
            },
    {
        if is_blank(self.title.as_str()) {
            return Err("Calendar title is required".to_owned());
        }
        Ok(
            RenameCalendarRequest {
                calendar_id: self.calendar_id.clone(),
                title: trim(self.title.as_str()),
            },
        )
    }
}

/// The form in which a calendar is colored.
#[derive(Debug, PartialEq, Eq)]
pub struct CalendarColorForm {
    pub calendar_id: String,
    pub color: String,
}

impl Clone for CalendarColorForm {
    fn clone(&self) -> (r: Self)
        ensures
            r == *self,
    {
        CalendarColorForm { calendar_id: self.calendar_id.clone(), color: self.color.clone() }
    }
}

impl CalendarColorForm {
    pub fn new(calendar: &CalendarInfo) -> (r: Self)
        ensures
            r.calendar_id == calendar.id,
            r.color == calendar.color,
    {
        CalendarColorForm { calendar_id: calendar.id.clone(), color: calendar.color.clone() }
    }

    /// The request that the form makes, with the color in upper case; what is no color makes none.
    pub fn to_request(&self) -> (r: Result<SetCalendarColorRequest, String>)
        ensures
            r is Ok <==> is_color(self.color@),
            match r {
                Ok(request) => request.calendar_id == self.calendar_id && request.color@
                    == ascii_upper(self.color@),
                Err(error) => error@ == "Calendar color must use #RRGGBB"@,
            },
    {
        if !is_color_text(self.color.as_str()) {
            return Err("Calendar color must use #RRGGBB".to_owned());
        }
        Ok(
            SetCalendarColorRequest {
                calendar_id: self.calendar_id.clone(),
                color: to_ascii_upper(self.color.as_str()),
            },
        )
    }
}

/// The calendar whose deletion is to be confirmed.
#[derive(Debug, PartialEq, Eq)]
pub struct CalendarDeleteConfirmation {
    pub calendar_id: String,
    pub title: String,
}

/// What is said when a calendar could not be created.
pub open spec fn create_error_text(error: CalendarError) -> Seq<char> {
    match error {
        CalendarError::InvalidTitle => "Calendar title is required"@,
        CalendarError::InvalidColor => "Calendar color must use #RRGGBB"@,
        CalendarError::SourceNotFound => "Selected calendar source was not found"@,
        CalendarError::PermissionDenied => "Calendar access was denied"@,
        CalendarError::Unsupported => "Calendar creation is not supported"@,
        CalendarError::SourceUnavailable => "Selected calendar source is unavailable"@,
        _ => "Calendar could not be created"@,
    }
}

/// What is said when a calendar could not be created.
pub fn calendar_error_message(error: CalendarError) -> (r: &'static str)
    ensures
        r@ == create_error_text(error),
{
    match error {
        CalendarError::InvalidTitle => "Calendar title is required",
        CalendarError::InvalidColor => "Calendar color must use #RRGGBB",
        CalendarError::SourceNotFound => "Selected calendar source was not found",
        CalendarError::PermissionDenied => "Calendar access was denied",
        CalendarError::Unsupported => "Calendar creation is not supported",
        CalendarError::SourceUnavailable => "Selected calendar source is unavailable",
        _ => "Calendar could not be created",
    }
}

/// What is said when a calendar could not be renamed.
pub open spec fn rename_error_text(error: CalendarError) -> Seq<char> {
    match error {
        CalendarError::InvalidTitle => "Calendar title is required"@,
        CalendarError::NotFound => "Calendar was not found"@,
        CalendarError::PermissionDenied => "Calendar access was denied"@,
        CalendarError::CannotModifyMetadata => "This calendar's metadata cannot be modified"@,
        CalendarError::Unsupported => "Calendar renaming is not supported"@,
        _ => "Calendar could not be renamed"@,
    }
}

/// What is said when a calendar could not be renamed.
pub fn calendar_rename_error_message(error: CalendarError) -> (r: &'static str)
    ensures
        r@ == rename_error_text(error),
{
    match error {
        CalendarError::InvalidTitle => "Calendar title is required",
        CalendarError::NotFound => "Calendar was not found",
        CalendarError::PermissionDenied => "Calendar access was denied",
        CalendarError::CannotModifyMetadata => "This calendar's metadata cannot be modified",
        CalendarError::Unsupported => "Calendar renaming is not supported",
        _ => "Calendar could not be renamed",
    }
}

/// What is said when a calendar could not be colored.
pub open spec fn color_error_text(error: CalendarError) -> Seq<char> {
    match error {
        CalendarError::InvalidColor => "Calendar color must use #RRGGBB"@,
        CalendarError::NotFound => "Calendar was not found"@,
        CalendarError::PermissionDenied => "Calendar access was denied"@,
        CalendarError::CannotModifyMetadata => "Calendar metadata is read-only"@,
        CalendarError::Unsupported => "Calendar color changes are not supported"@,
        _ => "Calendar color could not be updated"@,
    }
}

/// What is said when a calendar could not be colored.
pub fn calendar_color_error_message(error: CalendarError) -> (r: &'static str)
    ensures
        r@ == color_error_text(error),
{
    match error {
        CalendarError::InvalidColor => "Calendar color must use #RRGGBB",
        CalendarError::NotFound => "Calendar was not found",
        CalendarError::PermissionDenied => "Calendar access was denied",
        CalendarError::CannotModifyMetadata => "Calendar metadata is read-only",
        CalendarError::Unsupported => "Calendar color changes are not supported",
        _ => "Calendar color could not be updated",
    }
}

/// What is said when a calendar could not be deleted.
pub open spec fn delete_error_text(error: CalendarError) -> Seq<char> {
    match error {
        CalendarError::NotFound => "Calendar no longer exists"@,
        CalendarError::PermissionDenied => "Calendar deletion is not permitted"@,
        CalendarError::CannotDelete => "Calendar deletion is not permitted"@,
        CalendarError::ReadOnly => "Calendar deletion is not permitted"@,
        CalendarError::Unsupported => "Calendar deletion is not supported"@,
        _ => "Calendar could not be deleted"@,
    }
}

/// What is said when a calendar could not be deleted.
pub fn calendar_delete_error_message(error: CalendarError) -> (r: &'static str)
    ensures
        r@ == delete_error_text(error),
{
    match error {
        CalendarError::NotFound => "Calendar no longer exists",
        CalendarError::PermissionDenied => "Calendar deletion is not permitted",
        CalendarError::CannotDelete => "Calendar deletion is not permitted",
        CalendarError::ReadOnly => "Calendar deletion is not permitted",
        CalendarError::Unsupported => "Calendar deletion is not supported",
        _ => "Calendar could not be deleted",
    }
}

} // verus!
