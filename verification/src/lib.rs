//! Deterministic combat and animation core of a top-down action game.
//!
//! Lengths are fixed-point integers in thousandths of a world unit and time
//! is counted in whole nanoseconds, so every step is reproducible from its
//! inputs alone.

pub mod animation;
pub mod entity;
pub mod geometry;
pub mod player;
pub mod timing;
