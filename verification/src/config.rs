//! The settings of a session.

use vstd::prelude::*;

verus! {

/// Most bytes that one line of the hex view may show.
pub const MAX_BYTES_PER_LINE: usize = 48;

/// Most bookmarks that can be live at once.
pub const MAX_BOOKMARKS: usize = 8;

/// The colour scheme that the screen is drawn in.
#[derive(Clone, Copy, Debug, PartialEq, Eq, Structural)]
pub enum Theme {
    Dark,
    Light,
}

/// What the user can set while the editor runs.
#[derive(Clone, Copy, Debug)]
pub struct Config {
    /// Keep bookmarks and comments in a file beside the open one.
    pub database: bool,
    pub dim_control_chars: bool,
    pub dim_zeroes: bool,
    pub hex_mode_bytes_per_line: usize,
    pub hex_mode_non_graphic_char: char,
    pub maximum_strings_to_show: usize,
    pub minimum_string_length: usize,
    /// Go on from the start of the file when a search finds nothing after
    /// the cursor.
    pub search_wrap: bool,
    pub theme: Theme,
}

impl Config {
    /// The settings that a session starts with.
    pub fn new() -> (c: Self)
        ensures
            c == Self::initial(),
    {
        Config {
            database: true,
            dim_control_chars: false,
            dim_zeroes: true,
            hex_mode_bytes_per_line: 16,
            hex_mode_non_graphic_char: '.',
            maximum_strings_to_show: 3000,
            minimum_string_length: 4,
            search_wrap: false,
            theme: Theme::Dark,
        }
    }

    /// The settings that a session starts with.
    pub open spec fn initial() -> Config {
        Config {
            database: true,
            dim_control_chars: false,
            dim_zeroes: true,
            hex_mode_bytes_per_line: 16,
            hex_mode_non_graphic_char: '.',
            maximum_strings_to_show: 3000,
            minimum_string_length: 4,
            search_wrap: false,
            theme: Theme::Dark,
        }
    }
}

} // verus!
