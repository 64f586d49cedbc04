//! The log of the session and the dialog that shows it.

use crate::app::{text_views, App, AppModel};
use crate::editor::UIState;
use crate::events::{KeyCode, KeyEvent};
use vstd::prelude::*;

verus! {

impl App {
    /// Appends a line to the session's log.
    pub fn log(&mut self, text: String)
        ensures
            final(self)@ == old(self)@.logged(text@),
    {
        let ghost before = self.logs@;
        self.logs.push(text);
        proof {
            assert(text_views(self.logs@) =~= text_views(before).push(text@));
        }
    }
}

impl AppModel {
    /// The session with the dialog closed and the keyboard bound as in
    /// normal mode.
    pub open spec fn closed(self) -> AppModel {
        AppModel { dialog_renderer: None, state: UIState::Normal, ..self }
    }

    /// The session after a key is pressed in the log: Escape closes it, the
    /// arrows scroll it by a row.
    pub open spec fn log_events(self, key: KeyEvent) -> AppModel {
        match key.code {
            KeyCode::Esc => self.closed(),
            KeyCode::Down => AppModel {
                log_scroll_offset: (
                    if self.log_scroll_offset.0 < u16::MAX {
                        (self.log_scroll_offset.0 + 1) as u16
                    } else {
                        u16::MAX
                    },
                    self.log_scroll_offset.1,
                ),
                ..self
            },
            KeyCode::Up => AppModel {
                log_scroll_offset: (
                    if self.log_scroll_offset.0 > 0 {
                        (self.log_scroll_offset.0 - 1) as u16
                    } else {
                        0
                    },
                    self.log_scroll_offset.1,
                ),
                ..self
            },
            _ => self,
        }
    }
}

impl App {
    /// Closes the dialog and binds the keyboard as in normal mode.
    pub fn close_dialog(&mut self)
        ensures
            final(self)@ == old(self)@.closed(),
            old(self)@.wf() ==> final(self)@.wf(),
    {
        self.dialog_renderer = None;
        self.state = UIState::Normal;
    }
}

/// Handles a key pressed in the log.
pub fn dialog_log_events(app: &mut App, key: KeyEvent) -> (refused: bool)
    ensures
        final(app)@ == old(app)@.log_events(key),
        !refused,
        old(app)@.wf() ==> final(app)@.wf(),
{
    match key.code {
        KeyCode::Esc => {
            app.close_dialog();
        },
        KeyCode::Down => {
            app.log_scroll_offset.0 = app.log_scroll_offset.0.saturating_add(1);
        },
        KeyCode::Up => {
            app.log_scroll_offset.0 = app.log_scroll_offset.0.saturating_sub(1);
        },
        _ => {},
    }
    false
}

} // verus!
