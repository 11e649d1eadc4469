//! Data containers and the point types they hold.
pub mod aggregation;
pub mod bounds;
pub mod point;
pub mod ring_buffer;
pub mod series;
pub mod sort;
pub mod streaming;
