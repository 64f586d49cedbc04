//! The texts of the status bar.

use crate::app::{App, AppModel};
use crate::config::MAX_BOOKMARKS;
use crate::editor::UIState;
use crate::hex::draw::OFFSET_WIDTH;
use crate::hex::search::SearchMode;
use crate::util::{decimal_text, hex_padded, push_char, to_decimal, to_hex_padded};
use vstd::prelude::*;
use vstd::string::StringExecFns;

verus! {

/// The sign that stands for the newest bookmark.
pub const STAR: char = '\u{2605}';

/// The numbers from 1 up to, not including, `count`, written one after
/// another.
pub open spec fn numbered(count: nat) -> Seq<char>
    decreases count,
{
    if count <= 1 {
        Seq::empty()
    } else {
        numbered((count - 1) as nat) + decimal_text((count - 1) as nat)
    }
}

/// What the status bar shows of `count` bookmarks: a number for each but
/// the newest, a star for the newest, and a dash for each bookmark that can
/// still be set.
pub open spec fn bookmarks_text(count: nat) -> Seq<char> {
    numbered(count) + (if count > 0 {
        seq![STAR]
    } else {
        Seq::empty()
    }) + Seq::new(
        if count < MAX_BOOKMARKS {
            (MAX_BOOKMARKS - count) as nat
        } else {
            0
        },
        |i: int| '-',
    )
}

/// The name that the status bar shows for what the keyboard is bound to.
pub open spec fn mode_text(state: UIState, mode: SearchMode) -> Seq<char> {
    match state {
        UIState::Normal => "NORMAL"@,
        UIState::HexEditing => "REPLACE"@,
        UIState::HexSelection => "SELECT"@,
        UIState::DialogSearch => match mode {
            SearchMode::Hex => "SEARCH/HEX"@,
            SearchMode::Utf8 => "SEARCH/UTF-8"@,
        },
        UIState::Command => "COMMAND"@,
        _ => ""@,
    }
}

impl AppModel {
    /// The left half of the status bar: the name of the file, and a mark
    /// where it may only be read.
    pub open spec fn status_left(self) -> Seq<char> {
        self.file_info.name + " "@ + (if self.file_info.is_read_only {
            "[RO]"@
        } else {
            ""@
        })
    }

    /// The right half of the status bar: the mode, the bookmarks, the kind
    /// of file, the offset of the cursor and how far into the file that is,
    /// which is given as `percent`.
    pub open spec fn status_right(self, percent: Seq<char>) -> Seq<char> {
        mode_text(self.state, self.hex_view.search.mode) + " "@ + bookmarks_text(
            self.hex_view.bookmarks.len(),
        ) + " "@ + self.file_info.kind.text() + " "@ + hex_padded(
            self.hex_view.offset as nat,
            OFFSET_WIDTH as nat,
        ) + " "@ + percent + "%"@
    }
}

/// What the status bar shows of `count` bookmarks.
pub fn bookmarks_string(count: usize) -> (text: String)
    ensures
        text@ == bookmarks_text(count as nat),
{
    let mut text = String::new();
    let mut i: usize = 1;
    proof {
        assert(text@ =~= numbered(1));
    }
    while i < count
        invariant
            1 <= i,
            i <= count || count == 0,
            count == 0 ==> i == 1,
            text@ == numbered(i as nat),
        decreases count - i,
    {
        text.append(to_decimal(i).as_str());
        i += 1;
    }
    let ghost head = text@;
    proof {
        if count == 0 {
            assert(numbered(0) =~= numbered(1));
        }
        assert(head == numbered(count as nat));
    }
    if count > 0 {
        push_char(&mut text, STAR);
    }
    let ghost middle = text@;
    let dashes: usize = if count < MAX_BOOKMARKS {
        MAX_BOOKMARKS - count
    } else {
        0
    };
    let mut k: usize = 0;
    while k < dashes
        invariant
            k <= dashes,
            text@ == middle + Seq::new(k as nat, |i: int| '-'),
        decreases dashes - k,
    {
        push_char(&mut text, '-');
        k += 1;
        proof {
            assert(text@ =~= middle + Seq::new(k as nat, |i: int| '-'));
        }
    }
    proof {
        assert(text@ =~= bookmarks_text(count as nat));
    }
    text
}

/// The name that the status bar shows for what the keyboard is bound to.
pub fn mode_name(state: UIState, mode: SearchMode) -> (name: &'static str)
    ensures
        name@ == mode_text(state, mode),
{
    match state {
        UIState::Normal => "NORMAL",
        UIState::HexEditing => "REPLACE",
        UIState::HexSelection => "SELECT",
        UIState::DialogSearch => match mode {
            SearchMode::Hex => "SEARCH/HEX",
            SearchMode::Utf8 => "SEARCH/UTF-8",
        },
        UIState::Command => "COMMAND",
        _ => "",
    }
}

/// The left half of the status bar.
pub fn status_bar_left(app: &App) -> (text: String)
    ensures
        text@ == app@.status_left(),
{
    let mut text = app.file_info.name.clone();
    text.append(" ");
    text.append(
        if app.file_info.is_read_only {
            "[RO]"
        } else {
            ""
        },
    );
    text
}

/// The right half of the status bar. `percent` tells how far into the file
/// the cursor is.
pub fn status_bar_right(app: &App, percent: &str) -> (text: String)
    ensures
        text@ == app@.status_right(percent@),
{
    let mut text = String::from_str(mode_name(app.state, app.hex_view.search.mode));
    text.append(" ");
    text.append(bookmarks_string(app.hex_view.bookmarks.len()).as_str());
    text.append(" ");
    text.append(app.file_info.kind.name());
    text.append(" ");
    text.append(to_hex_padded(app.hex_view.offset, OFFSET_WIDTH).as_str());
    text.append(" ");
    text.append(percent);
    text.append("%");
    text
}

} // verus!
