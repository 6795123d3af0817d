pub mod bookmarks;
pub mod entry;
pub mod keymap;
pub mod notes;
pub mod preview;
