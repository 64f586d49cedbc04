//! The list of encodings of the text view.

use crate::app::{App, AppModel, Encoding, TextView};
use crate::events::{KeyCode, KeyEvent};
use crate::widgets::ListState;
use vstd::prelude::*;

verus! {

/// The number of encodings that the dialog lists.
pub const ENCODINGS: usize = 5;

/// The encoding on row `row` of the dialog; the first where there is no
/// such row.
pub open spec fn encoding_at(row: usize) -> Encoding {
    if row == 1 {
        Encoding::Windows1252
    } else if row == 2 {
        Encoding::Iso8859_2
    } else if row == 3 {
        Encoding::Utf16Le
    } else if row == 4 {
        Encoding::Utf16Be
    } else {
        Encoding::Utf8
    }
}

/// The name that the dialog shows for the encoding on row `row`.
pub open spec fn encoding_text(row: usize) -> Seq<char> {
    if row == 1 {
        "ISO-8859-1"@
    } else if row == 2 {
        "ISO-8859-2"@
    } else if row == 3 {
        "UTF-16-LE"@
    } else if row == 4 {
        "UTF-16-BE"@
    } else {
        "UTF-8"@
    }
}

/// The name that the dialog shows for the encoding on row `row`.
pub fn encoding_name(row: usize) -> (name: &'static str)
    ensures
        name@ == encoding_text(row),
{
    if row == 1 {
        "ISO-8859-1"
    } else if row == 2 {
        "ISO-8859-2"
    } else if row == 3 {
        "UTF-16-LE"
    } else if row == 4 {
        "UTF-16-BE"
    } else {
        "UTF-8"
    }
}

impl AppModel {
    /// The session after a key is pressed in the list of encodings: Escape
    /// closes it, Enter takes the encoding picked, and the other keys move
    /// through the list, round from its last row to its first and back.
    pub open spec fn encoding_events(self, key: KeyEvent) -> AppModel {
        let list = self.list_state;
        let down = AppModel {
            list_state: if list.selected == Some((ENCODINGS - 1) as usize) {
                ListState { selected: Some(0usize) }
            } else {
                list.next()
            },
            ..self
        };
        let up = AppModel {
            list_state: if list.selected == Some(0usize) {
                ListState { selected: Some(usize::MAX) }
            } else {
                list.previous()
            },
            ..self
        };
        match key.code {
            KeyCode::Esc => self.closed(),
            KeyCode::Enter => AppModel {
                text_view: TextView {
                    table: encoding_at(
                        match list.selected {
                            Some(row) => row,
                            None => 0,
                        },
                    ),
                    ..self.text_view
                },
                ..self.closed()
            },
            KeyCode::Down => down,
            KeyCode::Up => up,
            KeyCode::Char(c) => if c == 'j' {
                down
            } else if c == 'k' {
                up
            } else {
                self
            },
            KeyCode::PageUp | KeyCode::Home => AppModel {
                list_state: ListState { selected: Some(0usize) },
                ..self
            },
            KeyCode::PageDown | KeyCode::End => AppModel {
                list_state: ListState { selected: Some(usize::MAX) },
                ..self
            },
            _ => self,
        }
    }
}

/// Handles a key pressed in the list of encodings.
pub fn dialog_encoding_events(app: &mut App, key: KeyEvent) -> (refused: bool)
    ensures
        final(app)@ == old(app)@.encoding_events(key),
        !refused,
        old(app)@.wf() ==> final(app)@.wf(),
{
    let down = match key.code {
        KeyCode::Down => true,
        KeyCode::Char(c) => c == 'j',
        _ => false,
    };
    let up = match key.code {
        KeyCode::Up => true,
        KeyCode::Char(c) => c == 'k',
        _ => false,
    };
    if down {
        match app.list_state.selected {
            Some(4) => app.list_state.select_first(),
            _ => app.list_state.select_next(),
        }
    } else if up {
        match app.list_state.selected {
            Some(0) => app.list_state.select_last(),
            _ => app.list_state.select_previous(),
        }
    } else {
        match key.code {
            KeyCode::Esc => {
                app.close_dialog();
            },
            KeyCode::Enter => {
                let row = match app.list_state.selected {
                    Some(row) => row,
                    None => 0,
                };
                app.text_view.table = if row == 1 {
                    Encoding::Windows1252
                } else if row == 2 {
                    Encoding::Iso8859_2
                } else if row == 3 {
                    Encoding::Utf16Le
                } else if row == 4 {
                    Encoding::Utf16Be
                } else {
                    Encoding::Utf8
                };
                app.close_dialog();
            },
            KeyCode::PageUp | KeyCode::Home => {
                app.list_state.select_first();
            },
            KeyCode::PageDown | KeyCode::End => {
                app.list_state.select_last();
            },
            _ => {},
        }
    }
    false
}

} // verus!
