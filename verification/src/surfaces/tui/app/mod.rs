pub mod action;
pub mod effect;
pub mod help;
pub mod reducer;
pub mod state;
pub mod laws;
pub mod input;
pub mod event;
