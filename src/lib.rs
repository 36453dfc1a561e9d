//! A monotonic software clock built on a narrow, wrapping hardware cycle
//! counter (the Cortex-M DWT CYCCNT register, 32 bits wide).
//!
//! The clock counts how many times the raw counter has wrapped and combines
//! that epoch count with the last raw reading into a 64-bit tick count that
//! never goes backwards, provided the clock is reconciled with the counter at
//! least once per wrap period (`SYSCLK_HZ / 2^32` times per second).
//!
//! - [`time`]: instants and durations at a fixed tick frequency.
//! - [`tracker`]: the reconciliation state machine, on plain counter values.
//! - [`clock`]: the clock that owns the DWT peripheral and reads its counter.
pub mod clock;
pub mod time;
pub mod tracker;

pub use clock::CYCCNTClock;
pub use time::{Duration, Instant};
pub use tracker::OverflowTracker;
