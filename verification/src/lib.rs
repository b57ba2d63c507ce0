use vstd::prelude::*;

pub mod input;
pub mod clip_records;
pub mod text;
pub mod discord;
pub mod level_stats;
pub mod context_menu;
pub mod editor_settings;
pub mod undo;
pub mod editor;
pub mod publish_menu;
pub mod session;
pub mod command;
pub mod sound;
pub mod main_menu;
pub mod setup_menu;
pub mod play;
pub mod menu;
pub mod level_cells;
pub mod tools;
pub mod controls;
pub mod server;
pub mod clipboard;
pub mod move_tool;
pub mod paste;

verus! {
}
