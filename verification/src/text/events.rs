//! The keys of the text view in normal mode.

use crate::app::{App, AppModel, TextView};
use crate::editor::{Dialog, UIState};
use crate::events::{KeyCode, KeyEvent};
use vstd::prelude::*;

verus! {

/// The number of rows that text of `lines` lines is scrolled by when its
/// last lines fill an area of `height` rows. Only the lower sixteen bits of
/// the number count.
pub open spec fn last_page_row(lines: usize, height: u16) -> u16 {
    ((lines - height) % 0x1_0000) as u16
}

impl TextView {
    /// The text view after a key that scrolls it.
    pub open spec fn scrolled(self, key: KeyEvent) -> TextView {
        let (row, column) = self.scroll_offset;
        match key.code {
            KeyCode::Up => TextView {
                scroll_offset: (
                    if row > 0 {
                        (row - 1) as u16
                    } else {
                        row
                    },
                    column,
                ),
                ..self
            },
            KeyCode::Down => if row + self.area_height < self.lines_to_show && row < u16::MAX
                && self.lines_to_show < usize::MAX {
                TextView {
                    scroll_offset: ((row + 1) as u16, column),
                    lines_to_show: (self.lines_to_show + 1) as usize,
                    ..self
                }
            } else {
                self
            },
            KeyCode::Left => TextView {
                scroll_offset: (
                    row,
                    if column > 0 {
                        (column - 1) as u16
                    } else {
                        column
                    },
                ),
                ..self
            },
            KeyCode::Right => TextView {
                scroll_offset: (
                    row,
                    if column < u16::MAX {
                        (column + 1) as u16
                    } else {
                        column
                    },
                ),
                ..self
            },
            KeyCode::Home => TextView {
                scroll_offset: if key.modifiers.control {
                    (0u16, 0u16)
                } else {
                    (row, 0u16)
                },
                ..self
            },
            KeyCode::End => if key.modifiers.control && self.lines_to_show > self.area_height {
                TextView {
                    scroll_offset: (last_page_row(self.lines_to_show, self.area_height), 0u16),
                    ..self
                }
            } else {
                self
            },
            _ => self,
        }
    }

    /// Scrolls the text view as the key asks.
    pub fn scroll(&mut self, key: KeyEvent)
        ensures
            *final(self) == old(self).scrolled(key),
    {
        match key.code {
            KeyCode::Up => {
                if self.scroll_offset.0 > 0 {
                    self.scroll_offset.0 = self.scroll_offset.0 - 1;
                }
            },
            KeyCode::Down => {
                let last_line_shown: usize = self.scroll_offset.0 as usize
                    + self.area_height as usize;
                if last_line_shown < self.lines_to_show && self.scroll_offset.0 < u16::MAX
                    && self.lines_to_show < usize::MAX {
                    self.scroll_offset.0 = self.scroll_offset.0 + 1;
                    self.lines_to_show = self.lines_to_show + 1;
                }
            },
            KeyCode::Left => {
                if self.scroll_offset.1 > 0 {
                    self.scroll_offset.1 = self.scroll_offset.1 - 1;
                }
            },
            KeyCode::Right => {
                if self.scroll_offset.1 < u16::MAX {
                    self.scroll_offset.1 = self.scroll_offset.1 + 1;
                }
            },
            KeyCode::Home => {
                if key.modifiers.control {
                    self.scroll_offset = (0, 0);
                } else {
                    self.scroll_offset.1 = 0;
                }
            },
            KeyCode::End => {
                if key.modifiers.control && self.lines_to_show > self.area_height as usize {
                    let delta = self.lines_to_show - self.area_height as usize;
                    self.scroll_offset = ((delta % 0x1_0000) as u16, 0);
                }
            },
            _ => {},
        }
    }
}

impl AppModel {
    /// The session after a key is pressed in the text view in normal mode:
    /// the arrows, Home and End scroll the text, the page keys move the
    /// cursor by a page, and `e` asks for the encoding.
    pub open spec fn text_mode_events(self, key: KeyEvent) -> AppModel {
        match key.code {
            KeyCode::PageUp => if self.hex_view.offset < self.reader.page_current_size {
                self.goto(0)
            } else {
                self.goto((self.hex_view.offset - self.reader.page_current_size) as usize)
            },
            KeyCode::PageDown => self.goto_to(
                self.hex_view.offset + self.reader.page_current_size,
            ),
            KeyCode::Char(c) => if c == 'e' {
                self.showing(UIState::DialogEncoding, Dialog::Encoding)
            } else {
                self
            },
            _ => AppModel { text_view: self.text_view.scrolled(key), ..self },
        }
    }
}

/// Handles a key pressed in the text view in normal mode.
pub fn text_mode_events(app: &mut App, key: KeyEvent) -> (refused: bool)
    requires
        old(app)@.wf(),
    ensures
        final(app)@ == old(app)@.text_mode_events(key),
        !refused,
        final(app)@.wf(),
{
    match key.code {
        KeyCode::PageUp => {
            if app.hex_view.offset < app.reader.page_current_size {
                app.goto(0);
            } else {
                app.goto(app.hex_view.offset - app.reader.page_current_size);
            }
        },
        KeyCode::PageDown => {
            app.go_forward(app.reader.page_current_size);
        },
        KeyCode::Char(c) => {
            if c == 'e' {
                app.show(UIState::DialogEncoding, Dialog::Encoding);
            }
        },
        _ => {
            app.text_view.scroll(key);
        },
    }
    false
}

} // verus!
