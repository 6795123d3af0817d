pub mod text;
pub mod domain;
pub mod config;
pub mod cli;
pub mod sorting;
pub mod surfaces;
pub mod infra;
pub mod paths;
pub mod units;
pub mod lexing;
pub mod archive;
pub mod imagepreview;
pub mod pdfpreview;
pub mod lscolors;
pub mod analyzer;
