//! Nanosecond-resolution time values: an absolute [`Time`] since the Unix
//! epoch and a signed [`Duration`], with saturating arithmetic and text
//! rendering, each operation carrying a machine-checked contract.

pub mod calendar;
pub mod clock;
pub mod display;
pub mod exact;
pub mod order;
pub mod text;
pub mod time;

pub use clock::ClockError;
pub use time::{Duration, Time};
