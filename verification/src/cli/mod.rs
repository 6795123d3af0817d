pub mod args;
pub mod help;
