//! The keys that every view answers in normal mode.

use crate::app::{App, AppModel};
use crate::editor::{Dialog, UIState};
use crate::events::{KeyCode, KeyEvent};
use vstd::prelude::*;

verus! {

impl AppModel {
    /// The session after a key that every view answers is pressed in normal
    /// mode: Escape quits, Enter changes the view, Alt-`l` shows the log and
    /// `?` the calculator.
    pub open spec fn global_events(self, key: KeyEvent) -> AppModel {
        match key.code {
            KeyCode::Esc => AppModel { running: false, ..self },
            KeyCode::Enter => AppModel { editor_view: self.editor_view.other(), ..self },
            KeyCode::Char(c) => if c == 'l' && key.modifiers.alt {
                self.showing(UIState::DialogLog, Dialog::Log)
            } else if c == '?' {
                self.showing(UIState::DialogCalculator, Dialog::Calculator)
            } else {
                self
            },
            _ => self,
        }
    }
}

impl App {
    /// Changes from the hex view to the text view and back.
    pub fn switch_editor_mode(&mut self)
        ensures
            final(self)@ == (AppModel {
                editor_view: old(self)@.editor_view.other(),
                ..old(self)@
            }),
            old(self)@.wf() ==> final(self)@.wf(),
    {
        self.editor_view.next();
    }
}

/// Handles a key that every view answers in normal mode.
pub fn handle_global_events(app: &mut App, key: KeyEvent) -> (refused: bool)
    ensures
        final(app)@ == old(app)@.global_events(key),
        !refused,
        old(app)@.wf() ==> final(app)@.wf(),
{
    match key.code {
        KeyCode::Esc => {
            app.running = false;
        },
        KeyCode::Enter => {
            app.switch_editor_mode();
        },
        KeyCode::Char(c) => {
            if c == 'l' && key.modifiers.alt {
                app.show(UIState::DialogLog, Dialog::Log);
            } else if c == '?' {
                app.show(UIState::DialogCalculator, Dialog::Calculator);
            }
        },
        _ => {},
    }
    false
}

} // verus!
