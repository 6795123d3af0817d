pub mod app;
pub mod ui;
pub mod start;
