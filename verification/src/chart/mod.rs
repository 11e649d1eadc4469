//! Settings shared by chart types.
pub mod bar;
pub mod scatter;
pub mod stacked;
pub mod traits;
