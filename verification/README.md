# tui_calendar

The verified core of a calendar for the terminal. It shows the calendars of a
provider by day, week, month and agenda, edits and moves events, repeats and
duplicates them, undoes changes, searches, and keeps a cache of what it has
fetched.

## Layout

- `src/` is the library, verified with Verus.
  - `time`, `text`, `paths`, `seqs`, `sorting`: dates and instants as integers,
    texts as sequences of characters, and what is done with them.
  - `model`, `config`, `input`, `quick_add`: the data.
  - `alarm`, `recurrence`, `event_form`, `calendar_form`: the editors.
  - `layout`, `hit_test`, `search`, `coverage`, `cache`: rules and indexes.
  - `backend`: a provider in memory, and the protocol of the helper process that
    reaches the calendars of the system.
  - `app`: the state of the application, and what keys, the pointer and the
    worker's reports do to it.
- `app/` is ordinary Rust around the library: the helper process, the SQLite
  database, the file of the settings, and the task that does the outside work.
- `tests/` runs the library.

## Conventions

A date is a day number and an instant a number of nanoseconds, so that contracts
speak of integers. A function that asks the machine (its clock, its time zone)
says what follows from the answer, and how far the answer can be off: a clock is
less than a day away from UTC. What is decided on the answer stands, as a rule, in
a function of its own that takes it as an argument and is exact for every value
of it. Properties that span several functions are public proof functions whose
names begin with `law_`.
