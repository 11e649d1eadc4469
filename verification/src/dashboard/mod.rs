//! Dashboards: several charts arranged on one display.
pub mod grid;
pub mod layout;
pub mod simple;
