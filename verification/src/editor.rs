//! The views, modes and dialogs that a session can be in.

use vstd::prelude::*;

verus! {

/// Which of the two views of the file is shown.
#[derive(Clone, Copy, Debug, PartialEq, Eq, Structural)]
pub enum AppView {
    Text,
    Hex,
}

impl AppView {
    /// Switches to the other view.
    pub fn next(&mut self)
        ensures
            *final(self) == old(self).other(),
    {
        match self {
            AppView::Text => *self = AppView::Hex,
            AppView::Hex => *self = AppView::Text,
        }
    }

    /// The view that this one is not.
    pub open spec fn other(self) -> AppView {
        match self {
            AppView::Text => AppView::Hex,
            AppView::Hex => AppView::Text,
        }
    }
}

/// What the keyboard is bound to at the moment.
#[derive(Clone, Copy, Debug, PartialEq, Eq, Structural)]
pub enum UIState {
    Command,
    DialogCalculator,
    DialogComment,
    DialogEncoding,
    DialogError,
    DialogGoto,
    DialogHelp,
    DialogLog,
    DialogNames,
    DialogNamesRegex,
    DialogSearch,
    DialogStrings,
    DialogStringsRegex,
    HexEditing,
    HexSelection,
    Normal,
}

/// A dialog or message that is drawn over the main view.
#[derive(Clone, Copy, Debug, PartialEq, Eq, Structural)]
pub enum Dialog {
    Calculator,
    Command,
    Comment,
    Encoding,
    Help,
    /// The message that a command was not understood.
    InvalidCommand,
    /// The message that an offset lies outside the file.
    InvalidOffset,
    /// The message that a search pattern is no pattern.
    InvalidPattern,
    Log,
    Names,
    NamesRegex,
    /// The message that a search found nothing.
    PatternNotFound,
    Search,
    Strings,
    StringsRegex,
}

} // verus!
