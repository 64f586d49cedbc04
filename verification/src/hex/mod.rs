//! The hex view.

pub mod comment;
pub mod draw;
pub mod edit;
pub mod events;
pub mod hex_view;
pub mod names;
pub mod search;
pub mod selection;
pub mod strings;
