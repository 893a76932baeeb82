//! Day-grouped weather forecasts.
//!
//! A forecast response is a flat, chronological list of timed samples. This
//! crate turns such a list into a forecast grouped by calendar day: every
//! sample is placed by the UTC date of its instant, samples at excluded hours
//! of the day are dropped, the days come out in calendar order, and within a
//! day the samples keep the order of the list.
//!
//! The crate is verified with Verus. [`grouping`] says what grouping means
//! and proves what follows from it; [`backend`] and [`display`] hold the
//! response, the forecast and the functions between them. The calendar is
//! chrono's and URLs are built by the url crate: [`calendar`] and [`request`]
//! mark the one place each where that happens and say what is taken on trust.

pub mod backend;
pub mod calendar;
pub mod config;
pub mod day_key;
pub mod display;
pub mod grouping;
pub mod measure;
mod ordered;
pub mod request;
pub mod text;
