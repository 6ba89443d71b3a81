//! What holds of the prompts over the calendar: the date prompt, the search, the commands, quick
//! add and the details.

use crate::app::actions::{encoded_byte, encoded_bytes, EventAction};
use crate::app::calendars::next_index;
use crate::app::palette::{all_commands, finds, is_entry, PaletteCommand, PaletteEntry};
use crate::app::prompts::{jump_date, scroll_lines, scrolled_by};
use crate::app::shown::at_place;
use crate::app::{
    command_view, App, Mode, MutationState, UserAction, View, WorkerCommand, WorkerCommandView,
};
use crate::input::{KeyCode, KeyEvent};
use crate::laws::calendar::law_views_keep_the_date;
use crate::model::{Availability, Event, EventSpan, EventTimeInput};
use crate::quick_add::{QuickAddDraft, QuickAddParseResult, QuickAddStatus};
use crate::search::EventDays;
use crate::seqs::lemma_filter_all;
use crate::text::{ascii_lower, occurs_in, trimmed};
use crate::time::{
    iso_text, may_be_today, parsed_day, wall_text, Date, WallTime, MAX_DAY, MIN_DAY,
};
use vstd::prelude::*;
use vstd::view::View as _;

verus! {

/// In the date prompt the words `today`, `tomorrow` and `yesterday`, in any case and with spaces
/// around them, stand for this day, the next and the one before.
pub proof fn law_words_for_days(input: Seq<char>, today: Date)
    requires
        MIN_DAY < today.day < MAX_DAY,
    ensures
        ascii_lower(trimmed(input)) == "today"@ ==> jump_date(input, today) == Some(today),
        ascii_lower(trimmed(input)) == "tomorrow"@ ==> (jump_date(input, today) matches Some(date)
            && date.day == today.day + 1),
        ascii_lower(trimmed(input)) == "yesterday"@ ==> (jump_date(input, today) matches Some(date)
            && date.day == today.day - 1),
{
    reveal_strlit("today");
    reveal_strlit("tomorrow");
    reveal_strlit("yesterday");
    assert("today"@.len() == 5 && "tomorrow"@.len() == 8 && "yesterday"@.len() == 9);
}

/// Any other text in the date prompt stands for the day that it spells out, year first with hyphens
/// or day first with dots, whatever day it is.
pub proof fn law_written_dates(input: Seq<char>, today: Date, other: Date)
    requires
        ascii_lower(trimmed(input)) != "today"@,
        ascii_lower(trimmed(input)) != "tomorrow"@,
        ascii_lower(trimmed(input)) != "yesterday"@,
    ensures
        parsed_day(trimmed(input), "%Y-%m-%d"@) matches Some(day) ==> jump_date(input, today)
            == Some(Date { day }),
        parsed_day(trimmed(input), "%Y-%m-%d"@) is None && (parsed_day(
            trimmed(input),
            "%d.%m.%Y"@,
        ) matches Some(day) && true) ==> jump_date(input, today) == Some(
            Date { day: parsed_day(trimmed(input), "%d.%m.%Y"@)->0 },
        ),
        parsed_day(trimmed(input), "%Y-%m-%d"@) is Some || parsed_day(
            trimmed(input),
            "%d.%m.%Y"@,
        ) is Some ==> jump_date(input, today) == jump_date(input, other),
{
}

/// Enter in the date prompt shows a date that is spelled out, whatever day it is; a text that no
/// date can be read from changes nothing but what is said. Other keys only write.
pub proof fn law_date_prompt(app: App, key: KeyEvent, post: App, r: Option<WorkerCommand>)
    requires
        app.after_date_key(key, post, r),
        ascii_lower(trimmed(app.palette_query@)) != "today"@,
        ascii_lower(trimmed(app.palette_query@)) != "tomorrow"@,
        ascii_lower(trimmed(app.palette_query@)) != "yesterday"@,
    ensures
        key.code == KeyCode::Enter ==> (parsed_day(
            trimmed(app.palette_query@),
            "%Y-%m-%d"@,
        ) matches Some(day) ==> post.active_date == (Date { day }) && post.mode == Mode::Normal
            && r is Some),
        key.code != KeyCode::Enter ==> r is None && post.active_date == app.active_date,
        key.code == KeyCode::Enter && post.active_date != app.active_date ==> r is Some,
        key.code matches KeyCode::Char(c) ==> !key.modifiers.control ==> post.palette_query@
            == app.palette_query@.push(c),
        post.snapshot == app.snapshot,
        post.view == app.view,
{
    if key.code == KeyCode::Enter {
        let today = choose|today: Date|
            may_be_today(today) && match #[trigger] jump_date(app.palette_query@, today) {
                Some(date) => app.after_action(
                    UserAction::GoToDate(date),
                    post,
                    r,
                ),
                None => r is None && app.told(
                    "Use YYYY-MM-DD, DD.MM.YYYY, today, tomorrow, or yesterday"@,
                    true,
                    post,
                ),
            };
        law_written_dates(app.palette_query@, today, today);
    }
}

/// The details scroll a line with the arrows, `j` and `k`, and eight lines with the page keys,
/// never above the first line; scrolling back by as much undoes it.
pub proof fn law_details_scroll(position: u16)
    ensures
        scroll_lines(KeyCode::Down) == Some(1i32),
        scroll_lines(KeyCode::Char('j')) == Some(1i32),
        scroll_lines(KeyCode::Up) == Some(-1i32),
        scroll_lines(KeyCode::Char('k')) == Some(-1i32),
        scroll_lines(KeyCode::PageDown) == Some(8i32),
        scroll_lines(KeyCode::PageUp) == Some(-8i32),
        forall|lines: int|
            0 <= #[trigger] scrolled_by(position, lines) && (0 <= position + lines <= u16::MAX
                ==> scrolled_by(position, lines) == position + lines && scrolled_by(
                scrolled_by(position, lines),
                -lines,
            ) == position),
        forall|lines: int| position + lines < 0 ==> #[trigger] scrolled_by(position, lines) == 0,
{
}

/// The keys of the details: the scrolling keys only scroll, `e`, `D` and `d` change, copy and
/// delete the event that is shown, `o` opens its link, Escape and `q` go back to the view and the
/// date that the details were opened from.
pub proof fn law_details_keys(app: App, key: KeyEvent, post: App, r: Option<WorkerCommand>)
    requires
        app.after_details_key(key, post, r),
    ensures
        (key.code == KeyCode::Down || key.code == KeyCode::Char('j')) && app.detail_scroll
            < u16::MAX ==> post == (App {
            detail_scroll: (app.detail_scroll + 1) as u16,
            ..app
        }),
        (key.code == KeyCode::Up || key.code == KeyCode::Char('k')) && app.detail_scroll > 0 ==> post
            == (App { detail_scroll: (app.detail_scroll - 1) as u16, ..app }),
        key.code == KeyCode::PageDown && app.detail_scroll + 8 <= u16::MAX ==> post.detail_scroll
            == app.detail_scroll + 8,
        key.code == KeyCode::PageUp && app.detail_scroll >= 8 ==> post.detail_scroll
            == app.detail_scroll - 8,
        key.code == KeyCode::Char('e') ==> app.after_details_action(EventAction::Edit, post),
        key.code == KeyCode::Char('D') ==> app.after_details_action(EventAction::Duplicate, post),
        key.code == KeyCode::Char('d') ==> app.after_details_action(EventAction::Delete, post),
        key.code == KeyCode::Esc || key.code == KeyCode::Char('q') ==> post.detail_scroll == 0
            && post.interaction_context is None && (app.interaction_context matches Some(context)
            ==> post.view == context.source_view && post.active_date == context.source_active_date
            && post.has_selected(context.occurrence_id@)),
        key.code != KeyCode::Char('o') ==> r is None,
        post.snapshot == app.snapshot,
{
}

/// The link of an event is its own address where it has one, as it is written; else a map of its
/// place. An event with neither has nothing to open.
pub proof fn law_links(app: App, event: Event, post: App, r: Option<WorkerCommand>)
    requires
        app.link_opened(event, post, r),
    ensures
        trimmed(event.url@).len() > 0 ==> r == Some(WorkerCommand::OpenUrl(event.url)),
        trimmed(event.url@).len() == 0 && trimmed(event.location@).len() > 0 ==> (
        r matches Some(WorkerCommand::OpenUrl(url)) && url@ == "https://maps.apple.com/?q="@
            + encoded_bytes(vstd::utf8::encode_utf8(event.location@))),
        trimmed(event.url@).len() == 0 && trimmed(event.location@).len() == 0 <==> r is None,
        post == (App { status: post.status, ..app }),
{
}

/// In a link every byte of a text has its own place, after the bytes before it, so texts that are
/// joined are encoded one after the other; a letter, a digit and `-_.~` stand as they are, any
/// other byte as a percent sign and the two digits, in base sixteen, that make it up.
pub proof fn law_encoding_joins(a: Seq<u8>, b: Seq<u8>)
    ensures
        encoded_bytes(a + b) == encoded_bytes(a) + encoded_bytes(b),
        encoded_bytes(Seq::<u8>::empty()) == Seq::<char>::empty(),
    decreases b.len(),
{
    if b.len() == 0 {
        assert(a + b == a);
        assert(encoded_bytes(a) + encoded_bytes(b) == encoded_bytes(a));
    } else {
        law_encoding_joins(a, b.drop_last());
        assert((a + b).drop_last() == a + b.drop_last());
        assert((a + b).last() == b.last());
        assert(encoded_bytes(a + b) == encoded_bytes(a) + encoded_bytes(b));
    }
}

/// What a digit in base sixteen stands for.
pub open spec fn digit_of(c: char) -> int {
    if '0' <= c <= '9' {
        c as int - 48
    } else {
        c as int - 55
    }
}

/// A byte stands in a link as itself, where it is a letter, a digit or one of `-_.~`, or as a
/// percent sign and its two digits.
pub proof fn law_encoded_bytes(byte: u8)
    ensures
        ({
            let text = encoded_bytes(seq![byte]);
            let c = byte as char;
            if 'a' <= c <= 'z' || 'A' <= c <= 'Z' || '0' <= c <= '9' || c == '-' || c == '_' || c
                == '.' || c == '~' {
                text == seq![c]
            } else {
                &&& text.len() == 3
                &&& text[0] == '%'
                &&& '0' <= text[1] <= '9' || 'A' <= text[1] <= 'F'
                &&& '0' <= text[2] <= '9' || 'A' <= text[2] <= 'F'
                &&& digit_of(text[1]) * 16 + digit_of(text[2]) == byte
            }
        }),
{
    let one = seq![byte];
    assert(one.drop_last() == Seq::<u8>::empty());
    law_encoding_joins(Seq::<u8>::empty(), one);
    assert(encoded_bytes(Seq::<u8>::empty()) == Seq::<char>::empty());
    assert(one.last() == byte);
    assert(encoded_bytes(one) == encoded_byte(byte));
}

/// The keys of the search: the arrows and Tab move along the results by one and stop at both ends,
/// what is typed is added to the text and starts at the best result again, Backspace takes the last
/// character away, and Escape leaves with the text cleared.
pub proof fn law_search_keys(app: App, key: KeyEvent, post: App, r: Option<WorkerCommand>)
    requires
        app.after_search_key(key, post, r),
        key.code != KeyCode::Enter,
    ensures
        r is None,
        key.code == KeyCode::Up || key.code == KeyCode::BackTab ==> post.search_selected == (
        if app.search_selected > 0 {
            app.search_selected - 1
        } else {
            0
        }),
        key.code == KeyCode::Down || key.code == KeyCode::Tab ==> app.next_result(post),
        key.code matches KeyCode::Char(c) ==> !key.modifiers.control ==> post.search_query@
            == app.search_query@.push(c) && post.search_selected == 0,
        key.code == KeyCode::Backspace && app.search_query@.len() > 0 ==> post.search_query@
            == app.search_query@.drop_last() && post.search_selected == 0,
        key.code == KeyCode::Esc ==> post.search_query@.len() == 0,
        post.snapshot == app.snapshot,
        post.active_date == app.active_date,
        post.view == app.view,
{
}

/// The next result is the one after the chosen one; after the last there is none, and the last
/// stays chosen.
pub proof fn law_next_result(app: App, post: App)
    requires
        app.next_result(post),
        app.search_selected < usize::MAX,
    ensures
        post == (App { search_selected: post.search_selected, ..app }),
        exists|list: Seq<int>| #[trigger]
            app.may_find(list) && (app.search_selected + 1 < list.len() ==> post.search_selected
                == app.search_selected + 1) && (app.search_selected + 1 >= list.len() > 0
                ==> post.search_selected == list.len() - 1),
{
    let list = choose|list: Seq<int>| #[trigger]
        app.may_find(list) && post == (App {
            search_selected: next_index(app.search_selected, list.len() as int),
            ..app
        });
    assert(app.may_find(list));
    assert(app.search_selected + 1 >= list.len() > 0 ==> 0 <= list.len() - 1
        <= app.search_selected);
}

/// Enter in the search goes to the day on which the chosen result begins, in the agenda, with the
/// event selected, and asks for its events; with Shift it shows the details too. Without a result
/// nothing changes.
pub proof fn law_results_are_taken(
    app: App,
    days: Seq<EventDays>,
    details: bool,
    post: App,
    r: Option<WorkerCommand>,
)
    requires
        app.after_search_enter(days, details, post, r),
    ensures
        at_place(app.found_on(days), app.search_selected as int) matches Some(i) ==> {
            &&& post.active_date == days[i].first
            &&& post.view == View::Agenda
            &&& (details <==> post.mode == Mode::Details) || !details
            &&& details ==> post.mode == Mode::Details
            &&& r is Some
            &&& post.snapshot == app.snapshot
        },
        app.search_selected >= app.found_on(days).len() ==> post == app && r is None,
{
}

/// A command is offered where the text is in its name or in one of its other words, in any case,
/// and only there; all are offered while nothing is typed. They stand in one order.
pub proof fn law_commands_found(app: App, command: PaletteCommand)
    ensures
        app.found_commands().contains(command) <==> app.palette_query@.len() == 0 || occurs_in(
            ascii_lower(command.text()),
            ascii_lower(app.palette_query@),
        ) || occurs_in(command.other_words(), ascii_lower(app.palette_query@)),
        app.palette_query@.len() == 0 ==> app.found_commands() == all_commands(),
{
    let query = ascii_lower(app.palette_query@);
    let keep = finds(query);
    assert(query.len() == app.palette_query@.len());
    let all = all_commands();
    assert(all.contains(command)) by {
        lemma_listed(command);
    }
    broadcast use vstd::seq_lib::group_filter_ensures;

    if app.found_commands().contains(command) {
        let i = choose|i: int|
            0 <= i < app.found_commands().len() && app.found_commands()[i] == command;
        assert(keep(app.found_commands()[i]));
    }
    if keep(command) {
        let i = choose|i: int| 0 <= i < all.len() && all[i] == command;
        assert(keep(all[i]));
        assert(all.filter(keep).contains(all[i]));
    }
    if app.palette_query@.len() == 0 {
        assert forall|i: int| 0 <= i < all.len() implies keep(#[trigger] all[i]) by {}
        lemma_filter_all(all, keep);
    }
}

proof fn lemma_listed(command: PaletteCommand)
    ensures
        all_commands().contains(command),
{
    let all = all_commands();
    assert(all[0] is Today && all[1] is GoToDate && all[2] is NewEvent && all[3] is QuickAdd);
    assert(all[4] is EditEvent && all[5] is DuplicateEvent && all[6] is DeleteEvent);
    assert(all[7] is Undo && all[8] is Redo && all[9] is Search && all[10] is Refresh);
    assert(all[11] is RetryVisibleRange && all[12] is ToggleSidebar && all[13] is Day);
    assert(all[14] is Week && all[15] is Month && all[16] is Agenda);
}

/// What a command does: the view is the one it names, the calendars are read again, the prompts
/// open, the selected event is changed, copied or deleted.
pub proof fn law_commands_run(
    app: App,
    command: PaletteCommand,
    post: App,
    r: Option<WorkerCommand>,
)
    requires
        app.after_palette_command(command, post, r),
    ensures
        command is Day ==> post.view == View::Day,
        command is Week ==> post.view == View::Week,
        command is Month ==> post.view == View::Month,
        command is Agenda ==> post.view == View::Agenda,
        command is GoToDate ==> post.mode == Mode::DateJump && post.palette_query@.len() == 0,
        command is Search ==> post.mode == Mode::Search,
        command is Refresh ==> r == Some(WorkerCommand::Refresh),
        command is RetryVisibleRange ==> r matches Some(WorkerCommand::RefreshRange(_)),
        command is Today ==> post.view == app.view && (exists|today: Date|
            #![trigger may_be_today(today)]
            may_be_today(today) && post.active_date == today),
        command is EditEvent ==> app.after_selected_action(EventAction::Edit, post),
        command is DuplicateEvent ==> app.after_selected_action(EventAction::Duplicate, post),
        command is DeleteEvent ==> app.after_selected_action(EventAction::Delete, post),
{
    match command {
        PaletteCommand::Day => law_views_keep_the_date(app, View::Day, post, r),
        PaletteCommand::Week => law_views_keep_the_date(app, View::Week, post, r),
        PaletteCommand::Month => law_views_keep_the_date(app, View::Month, post, r),
        PaletteCommand::Agenda => law_views_keep_the_date(app, View::Agenda, post, r),
        _ => {},
    }
}

/// Enter runs the chosen command where it can be run; where it cannot, the reason is said and
/// nothing is done.
pub proof fn law_chosen_command(
    app: App,
    selected: Option<int>,
    entries: Seq<PaletteEntry>,
    post: App,
    r: Option<WorkerCommand>,
)
    requires
        app.are_entries(selected, entries),
        app.entry_taken(entries, post, r),
        app.palette_selected < entries.len(),
    ensures
        ({
            let command = app.found_commands()[app.palette_selected as int];
            let enabled = entries[app.palette_selected as int].enabled;
            &&& enabled ==> app.after_palette_command(command, post, r)
            &&& !enabled ==> r is None && post == (App { status: post.status, ..app })
            &&& command is Search || command is Today || command is Week ==> enabled
            &&& command is NewEvent || command is QuickAdd ==> enabled == (exists|i: int|
                0 <= i < app.snapshot.calendars@.len() && (
                #[trigger] app.snapshot.calendars@[i]).is_writable)
            &&& command is EditEvent || command is DeleteEvent ==> enabled == (
            selected matches Some(i) && app.writable(app.snapshot.events@[i].calendar_id@))
            &&& (command is EditEvent || command is DeleteEvent || command is DuplicateEvent)
                && selected is None ==> !enabled
        }),
{
    let entry = entries[app.palette_selected as int];
    assert(is_entry(
        entry,
        app.found_commands()[app.palette_selected as int],
        app.command_fault(app.found_commands()[app.palette_selected as int], selected),
    ));
}

/// The keys of the commands: the arrows and Tab move by one and stop at both ends, and what is
/// typed is added to the text and starts at the first command again.
pub proof fn law_command_keys(app: App, key: KeyEvent, post: App, r: Option<WorkerCommand>)
    requires
        app.after_palette_key(key, post, r),
        key.code != KeyCode::Enter,
    ensures
        r is None,
        key.code == KeyCode::Up || key.code == KeyCode::BackTab ==> post.palette_selected == (
        if app.palette_selected > 0 {
            app.palette_selected - 1
        } else {
            0
        }),
        (key.code == KeyCode::Down || key.code == KeyCode::Tab) && app.palette_selected + 1
            < app.found_commands().len() ==> post.palette_selected == app.palette_selected + 1,
        (key.code == KeyCode::Down || key.code == KeyCode::Tab) && app.found_commands().len() > 0
            ==> post.palette_selected < app.found_commands().len(),
        key.code matches KeyCode::Char(c) ==> !key.modifiers.control ==> post.palette_query@
            == app.palette_query@.push(c) && post.palette_selected == 0,
        key.code == KeyCode::Backspace && app.palette_query@.len() > 0 ==> post.palette_query@
            == app.palette_query@.drop_last() && post.palette_selected == 0,
        post.snapshot == app.snapshot,
        post.active_date == app.active_date,
        post.view == app.view,
{
    assert(all_commands().filter(
        finds(ascii_lower(app.palette_query@)),
    ).len() <= all_commands().len()) by {
        broadcast use vstd::seq_lib::group_filter_ensures;

    }
}

/// An event that is added quickly is created as it was read, in the calendar that was read, once:
/// with no text of another field, busy, and only where the calendar takes new events and nothing is
/// being saved.
pub proof fn law_quick_add_saves(
    app: App,
    parsed: QuickAddParseResult,
    draft: QuickAddDraft,
    zone: Seq<char>,
    post: App,
    r: Option<WorkerCommand>,
)
    requires
        app.after_quick_save(parsed, zone, post, r),
        parsed.draft == Some(draft),
    ensures
        r is Some <==> app.mutation_state != MutationState::Saving && parsed.status
            == QuickAddStatus::Ready && app.may_create_in(draft.calendar_id@),
        r is Some ==> post.mutation_state == MutationState::Saving && (command_view(r) matches Some(
            WorkerCommandView::Create(event),
        ) && event.title == draft.title@ && event.calendar_id == draft.calendar_id@ && event.time
            == draft.time && event.location == draft.location@ && event.notes == draft.notes@
            && event.alarms == draft.alarms@ && event.time_zone == zone && event.availability
            == Availability::Busy && event.url.len() == 0 && event.id is None
            && event.occurrence_id is None),
        r is None ==> post == (App { status: post.status, ..app }),
{
}

/// What was read quickly can be looked over in a form: it holds what was read, with an all-day
/// event's last day in place of the day after it.
pub proof fn law_quick_add_edits(
    app: App,
    parsed: QuickAddParseResult,
    draft: QuickAddDraft,
    start: WallTime,
    end: WallTime,
    zone: Seq<char>,
    post: App,
)
    requires
        app.after_quick_edit(parsed, start, end, zone, post),
        parsed.draft == Some(draft),
        app.calendar_index(draft.calendar_id@) is Some,
        !(draft.time is LegacyAllDayUnknown),
    ensures
        post.mode == Mode::Form,
        post.form_dirty,
        post.form matches Some(form) && {
            &&& form@.editor_mode is Create
            &&& form@.title == draft.title@
            &&& form@.location == draft.location@
            &&& form@.notes == draft.notes@
            &&& form@.time_zone == zone
            &&& form@.span == EventSpan::ThisEvent
            &&& Some(form@.calendar_index) == app.calendar_index(draft.calendar_id@)
            &&& form@.all_day == (draft.time is AllDay)
            &&& draft.time matches EventTimeInput::AllDay { start_date, end_date_exclusive } ==> {
                &&& form@.start == iso_text(start_date)
                &&& MIN_DAY < end_date_exclusive.day <= MAX_DAY ==> form@.end
                    == iso_text(Date { day: (end_date_exclusive.day - 1) as i32 })
            }
            &&& draft.time is Timed ==> form@.start == wall_text(start)
                && form@.end == wall_text(end)
        },
{
}

} // verus!
