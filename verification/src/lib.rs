//! Interval scheduling: durations and their builder, and the state that a
//! scheduled task keeps between its runs.
use vstd::prelude::*;

pub mod context;
pub mod time;

pub use context::{Context, Signal};
pub use time::{Duration, Time, ToDuration};

