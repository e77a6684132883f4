//! A single-session focus timer: a one-hour countdown, four short tasks
//! tracked against it, and an archive of completed sessions that can be
//! browsed and exported as a markdown checklist.
mod clock;
mod strings;

pub mod app;
pub mod export;
pub mod laws;
pub mod snapshot;
pub mod types;
