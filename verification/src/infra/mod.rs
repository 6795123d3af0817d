pub mod cache;
pub mod providers;
pub mod fs;
pub mod analyzer;
pub mod lscolors;
pub mod syntax;
pub mod highlight;
