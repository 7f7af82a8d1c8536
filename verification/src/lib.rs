//! Clipboard history manager core: settings, clip records, search and ranking,
//! hotkey handling and the clipboard watcher's decisions.

pub mod text;
pub mod config;
pub mod store;
pub mod search;
pub mod hotkey;
pub mod clipboard;
pub mod win;
pub mod palette;
