//! The panels of the dashboard.

pub mod chart;
pub mod current;
pub mod daily;
pub mod hourly;
pub mod icons;
pub mod render;
