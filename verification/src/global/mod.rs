//! What the views have in common.

pub mod calculator;
pub mod events;
pub mod goto;
pub mod log;
pub mod ruler;
pub mod status_bar;
