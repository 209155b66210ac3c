//! A tree of todo items: the data model, the save-file formats and their
//! migrations, the settings, and the key handling of the terminal front end.

pub mod app;
pub mod config;
pub mod control;
pub mod editor;
pub mod help;
mod keymap;
pub mod laws;
pub mod notifications;
pub mod save;
pub mod text;
pub mod todo;
pub mod ui;

pub use keymap::{entries_model, KeyMap, MapKey, NumMap, StrMap};
