//! The GPU side of the engine: records, sort schedule and dispatch plan.

pub mod compute;
pub mod records;
pub mod sort;
