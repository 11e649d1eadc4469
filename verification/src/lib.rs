//! Chart data structures, layout arithmetic and animation timing for small displays.

pub mod animation;
pub mod axes;
pub mod chart;
pub mod dashboard;
pub mod data;
pub mod error;
pub mod geometry;
pub mod memory;
pub mod time;
