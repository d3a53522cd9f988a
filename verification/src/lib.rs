//! The decisions behind a command line and a tool server for calendar events
//! and reminders.
//!
//! Everything here works on plain values. The calls into the operating
//! system's event store are made by the program around this crate, which hands
//! each reply back to the function that decides what comes next.

pub mod batch;
pub mod calendars;
pub mod cli;
pub mod clock;
pub mod dates;
pub mod dump;
pub mod edits;
pub mod error;
pub mod event;
pub mod listing;
pub mod lists;
pub mod model;
pub mod output;
pub mod prompts;
pub mod recurrence;
pub mod reminder;
pub mod request;
pub mod server;
pub mod text;
pub mod words;
