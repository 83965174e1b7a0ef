//! The interaction building blocks that the screens compose.

pub mod entry_list;
pub mod filter;
pub mod fuzzy;
pub mod output;
pub mod readline;
pub mod select_menu;
