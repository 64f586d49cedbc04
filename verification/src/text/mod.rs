//! The text view.

pub mod dialog_encoding;
pub mod draw;
pub mod events;
