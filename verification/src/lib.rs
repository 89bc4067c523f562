//! A terminal weather dashboard's presentation engine.

pub mod api;
pub mod app;
pub mod config;
pub mod frame;
pub mod layout;
pub mod models;
pub mod style;
pub mod text;
pub mod time;
pub mod ui;
