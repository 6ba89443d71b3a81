//! The calendar library behind a terminal calendar.

pub mod alarm;
pub mod app;
pub mod backend;
pub mod cache;
pub mod calendar_form;
pub mod config;
pub mod coverage;
pub mod event_form;
pub mod hit_test;
pub mod input;
pub mod laws;
pub mod layout;
pub mod model;
pub mod paths;
pub mod quick_add;
pub mod recurrence;
pub mod search;
pub mod seqs;
pub mod sorting;
pub mod text;
pub mod time;
