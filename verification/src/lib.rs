//! An in-memory directory of champion records: construction from a bulk
//! source and a set of hand-authored corrections, lookup, and per-level
//! statistics.
//!
//! Quantities are fixed-point integers, so that every formula is exact. A
//! base statistic is an `i32` counted in thousandths: `330_000` stands for a
//! move speed of 330. A statistic at a level is an `i64` in thousandths.
//! Attack speed at a level and effective health are products of two such
//! values and are `i128` values in hundred-millionths.

pub mod champion;
pub mod json;
pub mod lookup;
