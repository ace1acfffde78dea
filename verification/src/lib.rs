//! A month-grid calendar with day selection and a store of timed events.
//!
//! `date` and `datetime` hold the days and the points in time that the rest
//! speaks of. `calendar` holds the month on display, the selected day and the
//! six-week grid of a month. `events` holds the events and their store.
//! `state` holds what an interface shows of them and how each key changes it.

pub mod calendar;
pub mod date;
pub mod datetime;
pub mod events;
pub mod state;
