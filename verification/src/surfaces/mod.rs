pub mod tui;
pub mod detail_card;
pub mod plain_list;
