//! What holds of the operations of the library, over all inputs.

pub mod alarms;
pub mod calendar;
pub mod days;
pub mod dialogs;
pub mod errors;
pub mod forms;
pub mod history;
pub mod keys;
pub mod prompts;
pub mod providers;
pub mod recurrence;
pub mod reports;
pub mod screen;
pub mod search;
pub mod storage;
pub mod texts;
pub mod timeline;
pub mod worker;
