//! Key presses, the answers to them, and the handler that every key goes
//! through.

use crate::app::{App, AppModel};
use crate::commands::command_events;
use crate::editor::{AppView, UIState};
use crate::global::calculator::dialog_calculator_events;
use crate::global::events::handle_global_events;
use crate::global::goto::dialog_goto_events;
use crate::global::log::dialog_log_events;
use crate::hex::comment::{dialog_comment_events, entry_input};
use crate::hex::edit::edit_events;
use crate::hex::events::hex_mode_events;
use crate::hex::names::{dialog_names_events, dialog_names_regex_events};
use crate::hex::search::{dialog_search_events, SearchMode};
use crate::hex::selection::select_events;
use crate::hex::strings::{dialog_strings_events, dialog_strings_regex_events};
use crate::text::dialog_encoding::dialog_encoding_events;
use crate::text::events::text_mode_events;
use vstd::prelude::*;

verus! {

/// The key that was pressed.
#[derive(Clone, Copy, Debug, PartialEq, Eq, Structural)]
pub enum KeyCode {
    Backspace,
    Enter,
    Left,
    Right,
    Up,
    Down,
    Home,
    End,
    PageUp,
    PageDown,
    Tab,
    Esc,
    F(u8),
    Char(char),
    /// Any key that nothing is bound to.
    Other,
}

/// The modifier keys that were held down with a key.
#[derive(Clone, Copy, Debug, PartialEq, Eq, Structural)]
pub struct KeyModifiers {
    pub control: bool,
    pub alt: bool,
}

/// One key press.
#[derive(Clone, Copy, Debug, PartialEq, Eq, Structural)]
pub struct KeyEvent {
    pub code: KeyCode,
    pub modifiers: KeyModifiers,
}

impl KeyEvent {
    /// A key pressed with no modifier held.
    pub fn new(code: KeyCode) -> (k: Self)
        ensures
            k == (KeyEvent { code, modifiers: KeyModifiers { control: false, alt: false } }),
    {
        KeyEvent { code, modifiers: KeyModifiers { control: false, alt: false } }
    }
}

/// What a key press asks of the world outside the session.
#[derive(Debug)]
pub enum Effect {
    Nothing,
    /// Ring the terminal's bell.
    Beep,
    /// Put the text on the clipboard.
    Yank(String),
    /// Cut the file down to this many bytes and load it again.
    Truncate(usize),
    /// Write the unsaved edits into the file and, where the session is set
    /// to keep them, the bookmarks and comments beside it.
    Save,
}

/// An `Effect`, with its text as a plain value.
pub enum EffectModel {
    Nothing,
    Beep,
    Yank(Seq<char>),
    Truncate(usize),
    Save,
}

impl View for Effect {
    type V = EffectModel;

    open spec fn view(&self) -> EffectModel {
        match self {
            Effect::Nothing => EffectModel::Nothing,
            Effect::Beep => EffectModel::Beep,
            Effect::Yank(text) => EffectModel::Yank(text@),
            Effect::Truncate(len) => EffectModel::Truncate(*len),
            Effect::Save => EffectModel::Save,
        }
    }
}

/// What is to become of the text input of a dialog after a key press.
#[derive(Debug)]
pub enum InputAction {
    /// Leave the text as it is.
    Keep,
    /// Let the input take the key.
    Forward,
    /// Empty the input.
    Reset,
    /// Put this text into the input.
    Replace(String),
}

/// An `InputAction`, with its text as a plain value.
pub enum InputActionModel {
    Keep,
    Forward,
    Reset,
    Replace(Seq<char>),
}

impl View for InputAction {
    type V = InputActionModel;

    open spec fn view(&self) -> InputActionModel {
        match self {
            InputAction::Keep => InputActionModel::Keep,
            InputAction::Forward => InputActionModel::Forward,
            InputAction::Reset => InputActionModel::Reset,
            InputAction::Replace(text) => InputActionModel::Replace(text@),
        }
    }
}

/// The text inputs of the dialogs.
#[derive(Clone, Copy, Debug, PartialEq, Eq, Structural)]
pub enum InputField {
    Calculator,
    Command,
    Comment,
    Goto,
    NamesRegex,
    SearchHex,
    SearchText,
    StringsRegex,
}

/// The answer to a key press: whether the key was turned down, what is
/// asked of the outside, and what is to become of the dialog's text input.
#[derive(Debug)]
pub struct Response {
    pub refused: bool,
    pub effect: Effect,
    pub input: InputAction,
}

/// A `Response`, as plain values.
pub struct ResponseModel {
    pub refused: bool,
    pub effect: EffectModel,
    pub input: InputActionModel,
}

impl View for Response {
    type V = ResponseModel;

    open spec fn view(&self) -> ResponseModel {
        ResponseModel { refused: self.refused, effect: self.effect@, input: self.input@ }
    }
}

impl ResponseModel {
    /// The answer to a key that asks nothing of the outside and leaves the
    /// text input alone.
    pub open spec fn plain() -> ResponseModel {
        ResponseModel {
            refused: false,
            effect: EffectModel::Nothing,
            input: InputActionModel::Keep,
        }
    }

    /// The answer to a key that the text input is to take.
    pub open spec fn forward() -> ResponseModel {
        ResponseModel {
            refused: false,
            effect: EffectModel::Nothing,
            input: InputActionModel::Forward,
        }
    }
}

impl Response {
    /// The answer to a key that asks nothing of the outside and leaves the
    /// text input alone.
    pub fn plain() -> (r: Self)
        ensures
            r@ == ResponseModel::plain(),
    {
        Response { refused: false, effect: Effect::Nothing, input: InputAction::Keep }
    }

    /// The answer to a key that the text input is to take.
    pub fn forward() -> (r: Self)
        ensures
            r@ == ResponseModel::forward(),
    {
        Response { refused: false, effect: Effect::Nothing, input: InputAction::Forward }
    }

    /// The answer that a handler without a text input gives.
    pub fn of(outcome: (bool, Effect)) -> (r: Self)
        ensures
            r@ == (ResponseModel {
                refused: outcome.0,
                effect: outcome.1@,
                input: InputActionModel::Keep,
            }),
    {
        Response { refused: outcome.0, effect: outcome.1, input: InputAction::Keep }
    }
}

impl AppModel {
    /// The session after a key is pressed while a message is on show: Escape
    /// and Enter close it.
    pub open spec fn dialog_error_events(self, key: KeyEvent) -> AppModel {
        match key.code {
            KeyCode::Esc | KeyCode::Enter => self.closed(),
            _ => self,
        }
    }
}

/// Handles a key pressed while a message is on show.
pub fn handle_dialog_error_events(app: &mut App, key: KeyEvent) -> (refused: bool)
    ensures
        final(app)@ == old(app)@.dialog_error_events(key),
        !refused,
        old(app)@.wf() ==> final(app)@.wf(),
{
    match key.code {
        KeyCode::Esc | KeyCode::Enter => {
            app.close_dialog();
        },
        _ => {},
    }
    false
}

/// The answer to a key that the text input is to take, or not.
pub open spec fn forwarding(forward: bool) -> ResponseModel {
    if forward {
        ResponseModel::forward()
    } else {
        ResponseModel::plain()
    }
}

/// The answer of a handler that only tells whether the key was turned
/// down.
pub open spec fn refusing(refused: bool) -> ResponseModel {
    ResponseModel { refused, ..ResponseModel::plain() }
}

impl AppModel {
    /// The text input whose text a key handler is to be given, where the
    /// keyboard is bound to a dialog with one.
    pub open spec fn active_input(self) -> Option<InputField> {
        match self.state {
            UIState::Command => Some(InputField::Command),
            UIState::DialogCalculator => Some(InputField::Calculator),
            UIState::DialogComment => Some(InputField::Comment),
            UIState::DialogGoto => Some(InputField::Goto),
            UIState::DialogNamesRegex => Some(InputField::NamesRegex),
            UIState::DialogSearch => Some(
                match self.hex_view.search.mode {
                    SearchMode::Utf8 => InputField::SearchText,
                    SearchMode::Hex => InputField::SearchHex,
                },
            ),
            UIState::DialogStringsRegex => Some(InputField::StringsRegex),
            _ => None,
        }
    }

    /// `after` and `response` are the session and the answer after a key
    /// is pressed in normal mode: first the keys that every view answers,
    /// then those of the view on show.
    pub open spec fn normal_handled(
        self,
        key: KeyEvent,
        after: AppModel,
        response: ResponseModel,
    ) -> bool {
        let first = self.global_events(key);
        match first.editor_view {
            AppView::Hex => {
                &&& first.hex_mode_handled(key, after)
                &&& response == (ResponseModel {
                    effect: first.hex_mode_events_effect(key),
                    ..ResponseModel::plain()
                })
            },
            AppView::Text => {
                &&& after == first.text_mode_events(key)
                &&& response == ResponseModel::plain()
            },
        }
    }

    /// `after` and `response` are the session and the answer after a key
    /// is pressed: the key goes to the handler of the mode or dialog that
    /// the keyboard is bound to. `value` is the text of the active input.
    pub open spec fn handled(
        self,
        key: KeyEvent,
        value: Seq<char>,
        after: AppModel,
        response: ResponseModel,
    ) -> bool {
        match self.state {
            UIState::Normal => self.normal_handled(key, after, response),
            UIState::DialogError | UIState::DialogHelp => {
                &&& after == self.dialog_error_events(key)
                &&& response == ResponseModel::plain()
            },
            UIState::DialogEncoding => {
                &&& after == self.encoding_events(key)
                &&& response == ResponseModel::plain()
            },
            UIState::DialogSearch => {
                &&& after == self.search_events(key, value)
                &&& response == forwarding(self.search_events_forward(key, value))
            },
            UIState::DialogGoto => {
                &&& after == self.goto_events(key, value)
                &&& response == (ResponseModel {
                    input: entry_input(key),
                    ..ResponseModel::plain()
                })
            },
            UIState::HexEditing => {
                &&& after == self.edit_events(key)
                &&& response == (ResponseModel {
                    effect: self.edit_events_effect(key),
                    ..ResponseModel::plain()
                })
            },
            UIState::HexSelection => {
                &&& after == self.select_events(key)
                &&& response == (ResponseModel {
                    refused: self.select_events_refused(key),
                    effect: self.select_events_effect(key),
                    ..ResponseModel::plain()
                })
            },
            UIState::DialogStrings => {
                &&& self.strings_events(key, after)
                &&& response == refusing(key.code == KeyCode::Enter && self.string_row_missing())
            },
            UIState::DialogStringsRegex => {
                &&& self.strings_regex_events(key, value, after)
                &&& response == forwarding(
                    key.code != KeyCode::Esc && key.code != KeyCode::Enter,
                )
            },
            UIState::DialogLog => {
                &&& after == self.log_events(key)
                &&& response == ResponseModel::plain()
            },
            UIState::DialogComment => {
                &&& after == self.comment_events(key, value)
                &&& response == (ResponseModel {
                    input: entry_input(key),
                    ..ResponseModel::plain()
                })
            },
            UIState::DialogNames => {
                &&& self.names_events(key, after)
                &&& response == refusing(key.code == KeyCode::Enter && self.name_row_missing())
            },
            UIState::DialogNamesRegex => {
                &&& self.names_regex_events(key, value, after)
                &&& response == ResponseModel::plain()
            },
            UIState::DialogCalculator => {
                &&& self.calculator_events(key, value, after)
                &&& response == (ResponseModel {
                    input: self.calculator_input(key),
                    ..ResponseModel::plain()
                })
            },
            UIState::Command => {
                &&& after == self.command_events(key, value)
                &&& response == (ResponseModel {
                    refused: false,
                    effect: self.command_events_effect(key, value),
                    input: entry_input(key),
                })
            },
        }
    }
}

/// The text input whose text `handle_events` is to be given.
pub fn active_input(app: &App) -> (field: Option<InputField>)
    ensures
        field == app@.active_input(),
{
    match app.state {
        UIState::Command => Some(InputField::Command),
        UIState::DialogCalculator => Some(InputField::Calculator),
        UIState::DialogComment => Some(InputField::Comment),
        UIState::DialogGoto => Some(InputField::Goto),
        UIState::DialogNamesRegex => Some(InputField::NamesRegex),
        UIState::DialogSearch => Some(
            match app.hex_view.search.mode {
                SearchMode::Utf8 => InputField::SearchText,
                SearchMode::Hex => InputField::SearchHex,
            },
        ),
        UIState::DialogStringsRegex => Some(InputField::StringsRegex),
        _ => None,
    }
}

/// The answer to a key that the text input is to take, or not.
fn forward_if(forward: bool) -> (r: Response)
    ensures
        r@ == forwarding(forward),
{
    if forward {
        Response::forward()
    } else {
        Response::plain()
    }
}

/// Handles a key pressed in normal mode.
fn handle_normal_events(app: &mut App, key: KeyEvent) -> (r: Response)
    requires
        old(app)@.wf(),
    ensures
        old(app)@.normal_handled(key, final(app)@, r@),
        final(app)@.wf(),
{
    let _ = handle_global_events(app, key);
    match app.editor_view {
        AppView::Hex => Response::of(hex_mode_events(app, key)),
        AppView::Text => {
            let _ = text_mode_events(app, key);
            Response::plain()
        },
    }
}

/// Handles a key press: hands it to the handler of the mode or dialog that
/// the keyboard is bound to. `value` is the text that the active input
/// holds, or an empty text where there is none.
pub fn handle_events(app: &mut App, key: KeyEvent, value: String) -> (r: Response)
    requires
        old(app)@.wf(),
    ensures
        old(app)@.handled(key, value@, final(app)@, r@),
        final(app)@.wf(),
{
    match app.state {
        UIState::Normal => handle_normal_events(app, key),
        UIState::DialogError | UIState::DialogHelp => {
            let _ = handle_dialog_error_events(app, key);
            Response::plain()
        },
        UIState::DialogEncoding => {
            let _ = dialog_encoding_events(app, key);
            Response::plain()
        },
        UIState::DialogSearch => forward_if(dialog_search_events(app, key, value)),
        UIState::DialogGoto => {
            let input = dialog_goto_events(app, key, value.as_str());
            Response { refused: false, effect: Effect::Nothing, input }
        },
        UIState::HexEditing => Response::of(edit_events(app, key)),
        UIState::HexSelection => Response::of(select_events(app, key)),
        UIState::DialogStrings => {
            let refused = dialog_strings_events(app, key);
            Response { refused, effect: Effect::Nothing, input: InputAction::Keep }
        },
        UIState::DialogStringsRegex => forward_if(dialog_strings_regex_events(app, key, value)),
        UIState::DialogLog => {
            let _ = dialog_log_events(app, key);
            Response::plain()
        },
        UIState::DialogComment => {
            let input = dialog_comment_events(app, key, value);
            Response { refused: false, effect: Effect::Nothing, input }
        },
        UIState::DialogNames => {
            let refused = dialog_names_events(app, key);
            Response { refused, effect: Effect::Nothing, input: InputAction::Keep }
        },
        UIState::DialogNamesRegex => {
            let _ = dialog_names_regex_events(app, key, value);
            Response::plain()
        },
        UIState::DialogCalculator => {
            let input = dialog_calculator_events(app, key, value);
            Response { refused: false, effect: Effect::Nothing, input }
        },
        UIState::Command => command_events(app, key, value.as_str()),
    }
}

} // verus!
