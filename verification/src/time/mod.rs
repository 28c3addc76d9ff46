//! Dates, periods, calendars and their arithmetic.
pub mod calendar;
pub mod date;
pub mod daycounter;
pub mod period;
pub mod schedule;
