//! Metrics aggregation and sliding-window history for a terminal system monitor.
//!
//! Percent values are carried as hundredths of a percent (`1234` is 12.34 %),
//! temperature readings as hundredths of a degree Celsius (classified by whole
//! degrees), and elapsed time as microseconds.

pub mod history;
pub mod text;
pub mod format;
pub mod rate;
pub mod classify;
pub mod ranking;
pub mod state;
