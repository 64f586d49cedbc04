//! Searching the file for bytes.

use crate::app::{App, AppModel};
use crate::events::{KeyCode, KeyEvent};
use crate::util::{all_digits, ascii_bytes, byte_digit, digit_value};
use vstd::prelude::*;

verus! {

/// How the text typed into the search dialog is read.
#[derive(Clone, Copy, Debug, PartialEq, Eq, Structural)]
pub enum SearchMode {
    Utf8,
    Hex,
}

impl SearchMode {
    /// Switches to the other mode.
    pub fn next(&mut self)
        ensures
            *final(self) == old(self).other(),
    {
        match self {
            SearchMode::Utf8 => *self = SearchMode::Hex,
            SearchMode::Hex => *self = SearchMode::Utf8,
        }
    }

    /// The mode that this one is not.
    pub open spec fn other(self) -> SearchMode {
        match self {
            SearchMode::Utf8 => SearchMode::Hex,
            SearchMode::Hex => SearchMode::Utf8,
        }
    }
}

impl Default for SearchMode {
    fn default() -> (m: Self)
        ensures
            m == SearchMode::Utf8,
    {
        SearchMode::Utf8
    }
}

/// What the search dialog holds: the pattern typed in each mode and the
/// mode that is active.
#[derive(Debug)]
pub struct Search {
    pub input_text: String,
    pub mode: SearchMode,
    pub input_hex: String,
}

/// What a `Search` holds, as plain values.
pub struct SearchModel {
    pub input_text: Seq<char>,
    pub mode: SearchMode,
    pub input_hex: Seq<char>,
}

impl View for Search {
    type V = SearchModel;

    open spec fn view(&self) -> SearchModel {
        SearchModel { input_text: self.input_text@, mode: self.mode, input_hex: self.input_hex@ }
    }
}

impl Search {
    /// A search dialog with no pattern, set to search for text.
    pub fn new() -> (s: Self)
        ensures
            s@ == (SearchModel {
                input_text: Seq::empty(),
                mode: SearchMode::Utf8,
                input_hex: Seq::empty(),
            }),
    {
        Search { input_text: String::new(), mode: SearchMode::Utf8, input_hex: String::new() }
    }
}

/// The byte that the two hexadecimal digits `hi` and `lo` write.
pub open spec fn hex_pair(hi: char, lo: char) -> u8 {
    (digit_value(hi as int, 16).unwrap() * 16 + digit_value(lo as int, 16).unwrap()) as u8
}

/// The bytes that a text of hexadecimal digits writes, two digits a byte.
/// An empty text, one of odd length and one with any other character in it
/// write nothing.
pub open spec fn hex_decode(s: Seq<char>) -> Option<Seq<u8>> {
    if s.len() == 0 || s.len() % 2 != 0 || !all_digits(s, 16) {
        None
    } else {
        Some(Seq::new((s.len() / 2) as nat, |i: int| hex_pair(s[2 * i], s[2 * i + 1])))
    }
}

/// Turns a search pattern written in hexadecimal into the bytes to look for.
pub fn hex_string_to_u8(hex_string: &str) -> (r: Option<Vec<u8>>)
    ensures
        match r {
            Some(bytes) => hex_decode(hex_string@) == Some(bytes@),
            None => hex_decode(hex_string@) is None,
        },
{
    let text = match ascii_bytes(hex_string) {
        Some(text) => text,
        None => {
            proof {
                let i = choose|i: int|
                    0 <= i < hex_string@.len() && !('\0' <= #[trigger] hex_string@[i] <= '\u{7f}');
                assert(!crate::util::is_digit(hex_string@[i], 16));
            }
            return None;
        },
    };
    let n = text.len();
    if n == 0 || n % 2 != 0 {
        return None;
    }
    let mut bytes: Vec<u8> = Vec::new();
    let mut i: usize = 0;
    while i < n
        invariant
            crate::util::ascii_of(text@, hex_string@),
            n == text.len(),
            n % 2 == 0,
            i % 2 == 0,
            i <= n,
            all_digits(hex_string@.take(i as int), 16),
            bytes@ == Seq::new(
                (i / 2) as nat,
                |k: int| hex_pair(hex_string@[2 * k], hex_string@[2 * k + 1]),
            ),
        decreases n - i,
    {
        let hi = byte_digit(text[i], 16);
        let lo = byte_digit(text[i + 1], 16);
        match (hi, lo) {
            (Some(h), Some(l)) => {
                let ghost before = bytes@;
                bytes.push(h * 16 + l);
                proof {
                    let s = hex_string@;
                    assert(bytes@ =~= Seq::new(
                        ((i + 2) / 2) as nat,
                        |k: int| hex_pair(s[2 * k], s[2 * k + 1]),
                    ));
                    assert forall|k: int| 0 <= k < i + 2 implies crate::util::is_digit(
                        #[trigger] s.take(i + 2)[k],
                        16,
                    ) by {
                        if k < i {
                            assert(s.take(i as int)[k] == s[k]);
                        }
                    }
                }
            },
            _ => {
                proof {
                    let s = hex_string@;
                    assert(!crate::util::is_digit(s[i as int], 16) || !crate::util::is_digit(
                        s[i + 1],
                        16,
                    ));
                }
                return None;
            },
        }
        i += 2;
    }
    proof {
        assert(hex_string@.take(n as int) =~= hex_string@);
    }
    Some(bytes)
}

/// `needle` stands in `buffer` at offset `at`.
pub open spec fn matches_at(buffer: Seq<u8>, needle: Seq<u8>, at: int) -> bool {
    &&& 0 <= at
    &&& at + needle.len() <= buffer.len()
    &&& buffer.subrange(at, at + needle.len()) == needle
}

/// `found` is the smallest offset from `from` up to, not including, `to` at
/// which `needle` stands in `buffer`, or nothing where there is none.
pub open spec fn first_match_in(
    buffer: Seq<u8>,
    needle: Seq<u8>,
    from: int,
    to: int,
    found: Option<usize>,
) -> bool {
    match found {
        Some(at) => {
            &&& from <= at < to
            &&& matches_at(buffer, needle, at as int)
            &&& forall|k: int| from <= k < at ==> !matches_at(buffer, needle, k)
        },
        None => forall|k: int| from <= k < to ==> !matches_at(buffer, needle, k),
    }
}

/// `found` is what a search from the cursor gives: the first match strictly
/// after the cursor; with `wrap`, where there is none, the first match
/// before the cursor.
pub open spec fn search_result(
    buffer: Seq<u8>,
    needle: Seq<u8>,
    cursor: int,
    wrap: bool,
    found: Option<usize>,
) -> bool {
    let end = buffer.len() as int;
    if exists|k: int| cursor < k < end && matches_at(buffer, needle, k) {
        found is Some && first_match_in(buffer, needle, cursor + 1, end, found)
    } else if wrap {
        first_match_in(buffer, needle, 0, cursor, found)
    } else {
        found is None
    }
}

/// A search has one result only.
pub proof fn lemma_search_result_unique(
    buffer: Seq<u8>,
    needle: Seq<u8>,
    cursor: int,
    wrap: bool,
    a: Option<usize>,
    b: Option<usize>,
)
    requires
        search_result(buffer, needle, cursor, wrap, a),
        search_result(buffer, needle, cursor, wrap, b),
    ensures
        a == b,
{
}

/// What a search from the cursor finds.
pub open spec fn search_found(buffer: Seq<u8>, needle: Seq<u8>, cursor: int, wrap: bool) -> Option<
    usize,
> {
    choose|found: Option<usize>| search_result(buffer, needle, cursor, wrap, found)
}

/// Tells whether `needle` stands in `buffer` at offset `at`.
pub fn is_match_at(buffer: &[u8], needle: &[u8], at: usize) -> (r: bool)
    ensures
        r == matches_at(buffer@, needle@, at as int),
{
    let n = needle.len();
    if at > buffer.len() || n > buffer.len() - at {
        return false;
    }
    let mut i: usize = 0;
    while i < n
        invariant
            n == needle.len(),
            at + n <= buffer.len(),
            i <= n,
            forall|k: int| 0 <= k < i ==> buffer[at + k] == needle[k],
        decreases n - i,
    {
        if buffer[at + i] != needle[i] {
            proof {
                assert(buffer@.subrange(at as int, at + n)[i as int] != needle@[i as int]);
            }
            return false;
        }
        i += 1;
    }
    proof {
        assert(buffer@.subrange(at as int, at + n) =~= needle@);
    }
    true
}

/// Looks for `needle` in `buffer` at the offsets from `from` up to, not
/// including, `to`.
pub fn find(buffer: &[u8], needle: &[u8], from: usize, to: usize) -> (found: Option<usize>)
    ensures
        first_match_in(buffer@, needle@, from as int, to as int, found),
{
    let mut at: usize = from;
    while at < to
        invariant
            from <= at,
            forall|k: int| from <= k < at ==> !matches_at(buffer@, needle@, k),
        decreases to - at,
    {
        if is_match_at(buffer, needle, at) {
            return Some(at);
        }
        at += 1;
    }
    None
}

/// Searches `buffer` for `needle` from a cursor: forward from the offset
/// after the cursor and, with `wrap`, where that finds nothing, from the
/// start of the buffer up to the cursor.
pub fn search_from(buffer: &[u8], needle: &[u8], cursor: usize, wrap: bool) -> (found: Option<
    usize,
>)
    ensures
        search_result(buffer@, needle@, cursor as int, wrap, found),
        found == search_found(buffer@, needle@, cursor as int, wrap),
        found != Some(cursor),
        !wrap ==> first_match_in(buffer@, needle@, cursor + 1, buffer@.len() as int, found),
{
    let end = buffer.len();
    let forward = if cursor < end {
        find(buffer, needle, cursor + 1, end)
    } else {
        None
    };
    let found = match forward {
        Some(at) => Some(at),
        None => {
            if wrap {
                find(buffer, needle, 0, cursor)
            } else {
                None
            }
        },
    };
    proof {
        assert(search_result(buffer@, needle@, cursor as int, wrap, found));
        assert(exists|f: Option<usize>| search_result(buffer@, needle@, cursor as int, wrap, f));
        lemma_search_result_unique(
            buffer@,
            needle@,
            cursor as int,
            wrap,
            found,
            search_found(buffer@, needle@, cursor as int, wrap),
        );
    }
    found
}

impl AppModel {
    /// What a search for `needle` from the cursor finds in the file.
    pub open spec fn search(self, needle: Seq<u8>) -> Option<usize> {
        search_found(
            self.file_info.buffer,
            needle,
            self.hex_view.offset as int,
            self.config.search_wrap,
        )
    }

    /// The bytes that the pattern of the search dialog stands for, where it
    /// stands for any: a text that is not empty stands for its bytes in
    /// UTF-8, a hexadecimal pattern for the bytes that it writes.
    pub open spec fn search_needle(self) -> Option<Seq<u8>> {
        match self.hex_view.search.mode {
            SearchMode::Utf8 => if self.hex_view.search.input_text.len() > 0 {
                Some(vstd::utf8::encode_utf8(self.hex_view.search.input_text))
            } else {
                None
            },
            SearchMode::Hex => hex_decode(self.hex_view.search.input_hex),
        }
    }

    /// The session after the search of the dialog is made once more: the
    /// cursor goes to what it finds.
    pub open spec fn searched_next(self) -> AppModel {
        match self.search_needle() {
            Some(needle) => match self.search(needle) {
                Some(at) => self.goto(at),
                None => self,
            },
            None => self,
        }
    }
}

/// Searches the file for `needle`, from the byte after the cursor on. The
/// result is the first offset after the cursor at which the needle stands;
/// where the session is set to wrap and there is none, the first such
/// offset before the cursor.
pub fn search(app: &App, needle: &[u8]) -> (found: Option<usize>)
    ensures
        found == app@.search(needle@),
        search_result(
            app@.file_info.buffer,
            needle@,
            app.hex_view.offset as int,
            app.config.search_wrap,
            found,
        ),
        found != Some(app.hex_view.offset),
{
    search_from(
        app.file_info.buffer.as_slice(),
        needle,
        app.hex_view.offset,
        app.config.search_wrap,
    )
}

/// The bytes that the pattern of the search dialog stands for.
pub fn search_needle(app: &App) -> (needle: Option<Vec<u8>>)
    ensures
        match needle {
            Some(bytes) => app@.search_needle() == Some(bytes@),
            None => app@.search_needle() is None,
        },
{
    match app.hex_view.search.mode {
        SearchMode::Utf8 => {
            let text = app.hex_view.search.input_text.as_str();
            if text.is_empty() {
                None
            } else {
                Some(vstd::slice::slice_to_vec(text.as_bytes()))
            }
        },
        SearchMode::Hex => hex_string_to_u8(app.hex_view.search.input_hex.as_str()),
    }
}

/// Makes the search of the dialog once more and goes to what it finds.
pub fn search_next(app: &mut App)
    requires
        old(app)@.wf(),
    ensures
        final(app)@ == old(app)@.searched_next(),
        final(app)@.wf(),
{
    match search_needle(app) {
        Some(needle) => match search(app, needle.as_slice()) {
            Some(at) => app.goto(at),
            None => {},
        },
        None => {},
    }
}

impl AppModel {
    /// The session with `value` as the pattern of the search dialog, in the
    /// mode that is active.
    pub open spec fn with_search_input(self, value: Seq<char>) -> AppModel {
        AppModel {
            hex_view: crate::hex::hex_view::HexViewModel {
                search: match self.hex_view.search.mode {
                    SearchMode::Utf8 => SearchModel { input_text: value, ..self.hex_view.search },
                    SearchMode::Hex => SearchModel { input_hex: value, ..self.hex_view.search },
                },
                ..self.hex_view
            },
            ..self
        }
    }

    /// The session after the search of the dialog is entered. The cursor
    /// goes to what the search finds and the dialog is closed; a message
    /// tells where it finds nothing, and where a hexadecimal pattern writes
    /// no bytes. An empty text closes the dialog.
    pub open spec fn search_entered(self) -> AppModel {
        let normal = AppModel { state: crate::editor::UIState::Normal, ..self };
        match self.search_needle() {
            Some(needle) => match self.search(needle) {
                Some(at) => normal.without_dialog().goto(at),
                None => normal.with_message(crate::editor::Dialog::PatternNotFound),
            },
            None => match self.hex_view.search.mode {
                SearchMode::Utf8 => normal.without_dialog(),
                SearchMode::Hex => normal.with_message(crate::editor::Dialog::InvalidPattern),
            },
        }
    }

    /// The session with the search dialog in its other mode.
    pub open spec fn search_mode_switched(self) -> AppModel {
        AppModel {
            hex_view: crate::hex::hex_view::HexViewModel {
                search: SearchModel {
                    mode: self.hex_view.search.mode.other(),
                    ..self.hex_view.search
                },
                ..self.hex_view
            },
            ..self
        }
    }

    /// The session after a key is pressed in the search dialog, whose
    /// active input holds `value`. Escape closes the dialog, and so does
    /// Backspace on an empty pattern; Enter makes the search; Tab changes
    /// the mode.
    pub open spec fn search_events(self, key: KeyEvent, value: Seq<char>) -> AppModel {
        let held = self.with_search_input(value);
        match key.code {
            KeyCode::Esc => held.closed(),
            KeyCode::Backspace => if value.len() == 0 {
                held.closed()
            } else {
                held
            },
            KeyCode::Enter => held.search_entered(),
            KeyCode::Tab => held.search_mode_switched(),
            _ => held,
        }
    }

    /// Whether the text input of the search dialog is to take the key: it
    /// takes every key that the dialog does not answer itself, and in
    /// hexadecimal mode no character but a hexadecimal digit.
    pub open spec fn search_events_forward(self, key: KeyEvent, value: Seq<char>) -> bool {
        match key.code {
            KeyCode::Esc | KeyCode::Enter | KeyCode::Tab => false,
            KeyCode::Backspace => value.len() > 0,
            KeyCode::Char(c) => self.hex_view.search.mode == SearchMode::Utf8
                || crate::util::is_digit(c, 16),
            _ => true,
        }
    }
}

impl App {
    /// Takes `value` as the pattern of the search dialog.
    fn set_search_input(&mut self, value: String)
        ensures
            final(self)@ == old(self)@.with_search_input(value@),
            old(self)@.wf() ==> final(self)@.wf(),
    {
        match self.hex_view.search.mode {
            SearchMode::Utf8 => {
                self.hex_view.search.input_text = value;
            },
            SearchMode::Hex => {
                self.hex_view.search.input_hex = value;
            },
        }
    }

    /// Makes the search of the dialog.
    fn enter_search(&mut self)
        requires
            old(self)@.wf(),
        ensures
            final(self)@ == old(self)@.search_entered(),
            final(self)@.wf(),
    {
        self.state = crate::editor::UIState::Normal;
        match search_needle(self) {
            Some(needle) => match search(self, needle.as_slice()) {
                Some(at) => {
                    self.dialog_renderer = None;
                    self.goto(at);
                },
                None => {
                    self.dialog_renderer = Some(crate::editor::Dialog::PatternNotFound);
                },
            },
            None => match self.hex_view.search.mode {
                SearchMode::Utf8 => {
                    self.dialog_renderer = None;
                },
                SearchMode::Hex => {
                    self.dialog_renderer = Some(crate::editor::Dialog::InvalidPattern);
                },
            },
        }
    }
}

/// Handles a key pressed in the search dialog. `value` is the text that the
/// active input of the dialog holds. The answer tells whether that input is
/// to take the key.
pub fn dialog_search_events(app: &mut App, key: KeyEvent, value: String) -> (forward: bool)
    requires
        old(app)@.wf(),
    ensures
        final(app)@ == old(app)@.search_events(key, value@),
        forward == old(app)@.search_events_forward(key, value@),
        final(app)@.wf(),
{
    let empty = value.as_str().is_empty();
    let hex = app.hex_view.search.mode == SearchMode::Hex;
    app.set_search_input(value);
    match key.code {
        KeyCode::Esc => {
            app.close_dialog();
            false
        },
        KeyCode::Backspace => {
            if empty {
                app.close_dialog();
                false
            } else {
                true
            }
        },
        KeyCode::Enter => {
            app.enter_search();
            false
        },
        KeyCode::Tab => {
            app.hex_view.search.mode.next();
            false
        },
        KeyCode::Char(c) => {
            if hex {
                crate::util::char_digit(c, 16).is_some()
            } else {
                true
            }
        },
        _ => true,
    }
}

/// The message that a search found nothing.
pub fn dialog_search_error_draw() -> (m: crate::widgets::Message)
    ensures
        m.buffer@ == "Pattern not found"@,
        m.kind == crate::widgets::MessageType::Error,
{
    crate::widgets::Message {
        buffer: "Pattern not found".to_owned(),
        kind: crate::widgets::MessageType::Error,
    }
}

} // verus!
