//! Core of a personal reminder daemon: the binary reminder codec, the
//! mapping between reminders and table rows, overdue detection and
//! recurrence, and the request/reply protocol engine.

pub mod reminder;
pub mod calendar;
pub mod storage;
pub mod scheduler;
pub mod protocol;
pub mod session;
pub mod client;
pub mod message;
