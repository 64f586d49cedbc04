//! Core of a terminal hex editor: a byte-addressable navigation and editing
//! engine over the contents of one open file.

pub mod app;
pub mod commands;
pub mod config;
pub mod database;
pub mod editor;
pub mod events;
pub mod global;
pub mod hex;
pub mod reader;
pub mod text;
pub mod util;
pub mod widgets;
