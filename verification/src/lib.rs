//! A rolling, hour-indexed histogram of per-tier transition statistics
//! covering the last day.
//!
//! [`LastDayTierStats`] keeps one bucket per wall-clock hour together with
//! the instant of its last advance. Buckets hold any [`Statistic`]: a value
//! with a zero and a commutative, associative combine. [`UtcInstant`] is the
//! point in time the buffer works with.

pub mod instant;
pub mod last_day;
pub mod laws;
pub mod statistic;

pub use instant::UtcInstant;
pub use last_day::{DailyAllTierStats, DayModel, LastDayTierStats};
pub use statistic::{Statistic, TierStats};
