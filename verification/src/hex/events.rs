//! The keys of the hex view in normal mode.

use crate::app::{App, AppModel};
use crate::commands::Commands;
use crate::config::MAX_BOOKMARKS;
use crate::editor::{Dialog, UIState};
use crate::events::{Effect, EffectModel, KeyCode, KeyEvent};
use crate::hex::edit::fill_with;
use crate::hex::hex_view::HexViewModel;
use crate::hex::search::search_next;
use crate::widgets::ListState;
use vstd::prelude::*;

verus! {

broadcast use vstd::std_specs::hash::group_hash_axioms;

/// The first offset from `from` on at which `bytes` does not hold `value`.
pub open spec fn first_other(bytes: Seq<u8>, value: u8, from: int) -> Option<int>
    decreases bytes.len() - from,
{
    if from < 0 || from >= bytes.len() {
        None
    } else if bytes[from] != value {
        Some(from)
    } else {
        first_other(bytes, value, from + 1)
    }
}

/// The last offset below `below`, and above 0, at which `bytes` does not
/// hold `value`; 0 where there is none.
pub open spec fn last_other(bytes: Seq<u8>, value: u8, below: int) -> int
    decreases below,
{
    if below <= 1 || below > bytes.len() {
        0
    } else if bytes[below - 1] != value {
        below - 1
    } else {
        last_other(bytes, value, below - 1)
    }
}

/// The bookmark that the digit key `c` stands for: `1` is the first.
pub open spec fn bookmark_index(c: char) -> int {
    c as int - '1' as int
}

/// The bookmarks after one is asked for at `offset`: it is added behind the
/// others, unless there are as many as there may be.
pub open spec fn bookmark_pushed(bookmarks: Seq<usize>, offset: usize) -> Seq<usize> {
    if bookmarks.len() < MAX_BOOKMARKS {
        bookmarks.push(offset)
    } else {
        bookmarks
    }
}

/// The bookmarks after one is asked for at each of `offsets`, first to last.
pub open spec fn bookmarks_pushed(bookmarks: Seq<usize>, offsets: Seq<usize>) -> Seq<usize>
    decreases offsets.len(),
{
    if offsets.len() == 0 {
        bookmarks
    } else {
        bookmark_pushed(bookmarks_pushed(bookmarks, offsets.drop_last()), offsets.last())
    }
}

/// However many bookmarks are asked for, there are never more than there
/// may be.
pub proof fn lemma_bookmarks_stay_bounded(bookmarks: Seq<usize>, offsets: Seq<usize>)
    requires
        bookmarks.len() <= MAX_BOOKMARKS,
    ensures
        bookmarks_pushed(bookmarks, offsets).len() <= MAX_BOOKMARKS,
    decreases offsets.len(),
{
    if offsets.len() > 0 {
        lemma_bookmarks_stay_bounded(bookmarks, offsets.drop_last());
    }
}

impl AppModel {
    /// The session with the bookmarks `bookmarks`.
    pub open spec fn with_bookmarks(self, bookmarks: Seq<usize>) -> AppModel {
        AppModel { hex_view: HexViewModel { bookmarks, ..self.hex_view }, ..self }
    }

    /// The session after a bookmark is asked for at the cursor: it is added
    /// behind the others, unless there are as many as there may be.
    pub open spec fn bookmark_added(self) -> AppModel {
        self.with_bookmarks(bookmark_pushed(self.hex_view.bookmarks, self.hex_view.offset))
    }

    /// The session without the bookmark that was added last.
    pub open spec fn last_bookmark_removed(self) -> AppModel {
        if self.hex_view.bookmarks.len() > 0 {
            self.with_bookmarks(self.hex_view.bookmarks.drop_last())
        } else {
            self
        }
    }

    /// The session after the bookmark at the cursor is taken away: that is
    /// the bookmark added last, and only where the cursor stands on it.
    pub open spec fn bookmark_at_cursor_removed(self) -> AppModel {
        if self.hex_view.bookmarks.len() > 0 && self.hex_view.bookmarks.last()
            == self.hex_view.offset {
            self.last_bookmark_removed()
        } else {
            self
        }
    }

    /// The session after the cursor has gone to the bookmark added last.
    pub open spec fn at_last_bookmark(self) -> AppModel {
        if self.hex_view.bookmarks.len() > 0 {
            self.goto(self.hex_view.bookmarks.last())
        } else {
            self
        }
    }

    /// The session after the cursor has gone to bookmark number `index`,
    /// counted from 0.
    pub open spec fn at_bookmark(self, index: int) -> AppModel {
        if 0 <= index < self.hex_view.bookmarks.len() {
            self.goto(self.hex_view.bookmarks[index])
        } else {
            self
        }
    }

    /// The session after the value of the byte under the cursor is marked
    /// for highlighting, or is no longer marked where it was.
    pub open spec fn highlight_toggled(self) -> AppModel {
        let offset = self.hex_view.offset;
        if offset < self.file_info.buffer.len() {
            let byte = self.byte_at(offset as int);
            AppModel {
                hex_view: HexViewModel {
                    highlights: if self.hex_view.highlights.contains(byte) {
                        self.hex_view.highlights.remove(byte)
                    } else {
                        self.hex_view.highlights.insert(byte)
                    },
                    ..self.hex_view
                },
                ..self
            }
        } else {
            self
        }
    }

    /// The session after the cursor has gone to the end of its line, or to
    /// the end of the file where the line runs past it or `to_file_end`
    /// asks for that.
    pub open spec fn at_line_end(self, to_file_end: bool) -> AppModel {
        let offset = self.hex_view.offset;
        let line = self.config.hex_mode_bytes_per_line;
        let size = self.file_info.buffer.len();
        if to_file_end || offset + line > size {
            self.goto_to(size - 1)
        } else {
            self.goto_to(offset + line - self.hex_view.cursor.x - 1)
        }
    }

    /// The session after the cursor has gone up a page, or to the start of
    /// the file where there is no page above.
    pub open spec fn at_page_up(self) -> AppModel {
        let offset = self.hex_view.offset;
        let page = self.reader.page_current_size;
        if offset > page {
            self.goto((offset - page) as usize)
        } else {
            self.goto(0)
        }
    }

    /// The session after the cursor has gone `by` bytes back, or to the
    /// start of the file where that is nearer.
    pub open spec fn at_back(self, by: usize) -> AppModel {
        if self.hex_view.offset >= by {
            self.goto((self.hex_view.offset - by) as usize)
        } else {
            self.goto(0)
        }
    }

    /// The session after the cursor has gone on to the next byte that
    /// differs from the one under it, as the user sees them. The cursor
    /// stays where no byte after it differs.
    pub open spec fn at_next_other_byte(self) -> AppModel {
        let offset = self.hex_view.offset;
        if offset < self.file_info.buffer.len() {
            match first_other(self.edited_bytes(), self.byte_at(offset as int), offset + 1) {
                Some(at) => self.goto(at as usize),
                None => self,
            }
        } else {
            self
        }
    }

    /// The session after the cursor has gone back to the nearest byte that
    /// differs from the one under it, as the user sees them, or to the
    /// start of the file where none before it does.
    pub open spec fn at_previous_other_byte(self) -> AppModel {
        let offset = self.hex_view.offset;
        if offset < self.file_info.buffer.len() {
            self.goto(
                last_other(self.edited_bytes(), self.byte_at(offset as int), offset as int) as usize,
            )
        } else {
            self
        }
    }

    /// The file may be written and the cursor stands on a byte of it.
    pub open spec fn can_edit(self) -> bool {
        !self.file_info.is_read_only && self.hex_view.offset < self.file_info.buffer.len()
    }

    /// The session with bytes left to be edited.
    pub open spec fn editing(self) -> AppModel {
        AppModel { state: UIState::HexEditing, ..self }
    }

    /// The session after the byte under the cursor is set to zero from
    /// normal mode: the byte is overwritten and the bytes after it are left
    /// to be edited. The edits that were left unsaved stay.
    pub open spec fn zeroed(self) -> AppModel {
        if self.can_edit() {
            self.editing().filled_with(0, true)
        } else {
            self
        }
    }

    /// The session after the byte under the cursor is raised or lowered by
    /// one from normal mode: the byte as it is shown, with an unsaved edit
    /// where it has one. The other unsaved edits stay.
    pub open spec fn stepped(self, delta: int) -> AppModel {
        if self.can_edit() {
            self.editing().stepped_byte(delta)
        } else {
            self
        }
    }

    /// The session after the user asks to overwrite bytes.
    pub open spec fn replacing(self) -> AppModel {
        if self.can_edit() {
            self.editing()
        } else {
            self
        }
    }

    /// The session with `dialog` on show and the keyboard bound to it.
    pub open spec fn showing(self, state: UIState, dialog: Dialog) -> AppModel {
        AppModel { state, dialog_renderer: Some(dialog), ..self }
    }

    /// The session with the list of comments on show. Where no row of the
    /// list is picked, the first is.
    pub open spec fn names_shown(self) -> AppModel {
        AppModel {
            hex_view: HexViewModel {
                names_list_state: if self.hex_view.names_list_state.selected is None {
                    ListState { selected: Some(0usize) }
                } else {
                    self.hex_view.names_list_state
                },
                ..self.hex_view
            },
            ..self.showing(UIState::DialogNames, Dialog::Names)
        }
    }

    /// The session after the user asks for a comment at the cursor.
    pub open spec fn comment_asked(self) -> AppModel {
        if self.file_info.buffer.len() > 0 {
            self.showing(UIState::DialogComment, Dialog::Comment)
        } else {
            self
        }
    }

    /// The session after selection mode is entered: the byte under the
    /// cursor is selected.
    pub open spec fn selecting(self) -> AppModel {
        if self.file_info.buffer.len() > 0 {
            AppModel { state: UIState::HexSelection, ..self.with_selection_collapsed() }
        } else {
            self
        }
    }

    /// The session after a key that moves the cursor, marks bytes or keeps
    /// bookmarks is pressed in normal mode.
    #[verifier::opaque]
    pub open spec fn hex_mode_moved(self, c: char, control: bool, alt: bool) -> AppModel {
        let offset = self.hex_view.offset as int;
        let line = self.config.hex_mode_bytes_per_line as int;
        if c == 'h' {
            if alt {
                self.highlight_toggled()
            } else {
                self.goto_to(offset - 1)
            }
        } else if c == 'l' {
            if alt {
                self
            } else {
                self.goto_to(offset + 1)
            }
        } else if c == 'k' {
            self.goto_to(offset - line)
        } else if c == 'j' {
            self.goto_to(offset + line)
        } else if c == 'g' {
            self.goto(0)
        } else if c == 'G' {
            self.goto_to(self.file_info.buffer.len() - 1)
        } else if c == '$' {
            self.at_line_end(control)
        } else if c == '+' {
            self.bookmark_added()
        } else if c == '-' {
            if alt {
                self.bookmark_at_cursor_removed()
            } else {
                self.at_last_bookmark()
            }
        } else if '1' <= c <= '8' {
            if alt {
                self.at_bookmark(bookmark_index(c))
            } else {
                self
            }
        } else if c == '0' {
            if alt {
                self.with_bookmarks(Seq::empty())
            } else {
                self.goto_to(offset - self.hex_view.cursor.x)
            }
        } else if c == 'w' {
            self.goto_to(offset + 2)
        } else if c == 'W' {
            self.at_back(2)
        } else if c == 'd' {
            self.goto_to(offset + 4)
        } else if c == 'D' {
            self.at_back(4)
        } else if c == 'q' {
            self.goto_to(offset + 8)
        } else if c == 'Q' {
            self.at_back(8)
        } else if c == 'o' {
            self.at_next_other_byte()
        } else if c == 'O' {
            self.at_previous_other_byte()
        } else {
            self
        }
    }

    /// `c` is one of the keys that move the cursor, mark bytes or keep
    /// bookmarks.
    pub open spec fn moves(c: char) -> bool {
        ||| c == 'h' || c == 'l' || c == 'k' || c == 'j' || c == 'g' || c == 'G' || c == '$'
        ||| c == '+' || c == '-' || '0' <= c <= '8'
        ||| c == 'w' || c == 'W' || c == 'd' || c == 'D' || c == 'q' || c == 'Q'
        ||| c == 'o' || c == 'O'
    }

    /// The session after a key that edits, searches or opens a dialog is
    /// pressed in normal mode. What `s` does to the list of strings is not
    /// told here.
    pub open spec fn hex_mode_acted(self, c: char, control: bool, alt: bool) -> AppModel {
        if c == 'z' {
            self.zeroed()
        } else if c == 'a' {
            if control {
                self.stepped(1)
            } else {
                self
            }
        } else if c == 'x' {
            if control {
                self.stepped(-1)
            } else {
                self
            }
        } else if c == 'r' {
            self.replacing()
        } else if c == 's' {
            self.strings_shown()
        } else if c == '/' {
            self.showing(UIState::DialogSearch, Dialog::Search)
        } else if c == 'n' {
            if alt {
                self.names_shown()
            } else if self.state == UIState::Normal {
                self.searched_next()
            } else {
                self
            }
        } else if c == ';' {
            self.comment_asked()
        } else if c == 'v' {
            self.selecting()
        } else {
            self
        }
    }

    /// The session after a key is pressed in the hex view in normal mode.
    /// What `s` does to the list of strings is not told here.
    pub open spec fn hex_mode_events(self, key: KeyEvent) -> AppModel {
        let offset = self.hex_view.offset as int;
        let line = self.config.hex_mode_bytes_per_line as int;
        let page = self.reader.page_current_size as int;
        let control = key.modifiers.control;
        let alt = key.modifiers.alt;
        match key.code {
            KeyCode::Left => self.goto_to(offset - 1),
            KeyCode::Right => if alt {
                self
            } else {
                self.goto_to(offset + 1)
            },
            KeyCode::Up => self.goto_to(offset - line),
            KeyCode::Down => self.goto_to(offset + line),
            KeyCode::Home => if control {
                self.goto(0)
            } else {
                self.goto_to(offset - self.hex_view.cursor.x)
            },
            KeyCode::End => self.at_line_end(control),
            KeyCode::PageDown => self.goto_to(offset + page),
            KeyCode::PageUp => self.at_page_up(),
            KeyCode::Backspace => self.goto(self.hex_view.last_visited_offset),
            KeyCode::F(n) => if n == 1 {
                self.showing(UIState::DialogHelp, Dialog::Help)
            } else {
                self
            },
            KeyCode::Char(c) => if Self::moves(c) {
                self.hex_mode_moved(c, control, alt)
            } else {
                self.hex_mode_acted(c, control, alt)
            },
            _ => self,
        }
    }

    /// `after` is the session after a key is pressed in the hex view in
    /// normal mode. The key `s` has the strings of the file listed; every
    /// other key leaves the list of strings alone.
    pub open spec fn hex_mode_handled(self, key: KeyEvent, after: AppModel) -> bool {
        if key.code == KeyCode::Char('s') {
            &&& after == (AppModel { strings: after.strings, ..self.hex_mode_events(key) })
            &&& self.strings_loaded(false, after.strings)
        } else {
            after == self.hex_mode_events(key)
        }
    }

    /// What a key pressed in the hex view in normal mode asks of the
    /// outside: the bell, where the user asks to overwrite bytes of a file
    /// that may not be written.
    pub open spec fn hex_mode_events_effect(self, key: KeyEvent) -> EffectModel {
        if key.code == KeyCode::Char('r') && self.file_info.is_read_only {
            EffectModel::Beep
        } else {
            EffectModel::Nothing
        }
    }
}

impl App {
    /// Moves the cursor `by` bytes on.
    pub(crate) fn go_forward(&mut self, by: usize)
        requires
            old(self)@.wf(),
        ensures
            final(self)@ == old(self)@.goto_to(old(self).hex_view.offset + by),
            final(self)@.wf(),
    {
        self.goto_checked(self.hex_view.offset.checked_add(by));
    }

    /// Moves the cursor `by` bytes back, where there are as many before it.
    pub(crate) fn go_back(&mut self, by: usize)
        requires
            old(self)@.wf(),
        ensures
            final(self)@ == old(self)@.goto_to(old(self).hex_view.offset - by),
            final(self)@.wf(),
    {
        self.goto_checked(self.hex_view.offset.checked_sub(by));
    }

    /// Moves the cursor `by` bytes back, or to the start of the file where
    /// that is nearer.
    fn go_back_or_home(&mut self, by: usize)
        requires
            old(self)@.wf(),
        ensures
            final(self)@ == old(self)@.at_back(by),
            final(self)@.wf(),
    {
        if self.hex_view.offset >= by {
            self.goto(self.hex_view.offset - by);
        } else {
            self.goto(0);
        }
    }

    /// Moves the cursor to the last byte of the file.
    fn go_to_file_end(&mut self)
        requires
            old(self)@.wf(),
        ensures
            final(self)@ == old(self)@.goto_to(old(self).file_info.buffer@.len() - 1),
            final(self)@.wf(),
    {
        self.goto_checked(self.file_info.buffer.len().checked_sub(1));
    }

    /// Moves the cursor to the end of its line.
    fn go_to_line_end(&mut self, to_file_end: bool)
        requires
            old(self)@.wf(),
        ensures
            final(self)@ == old(self)@.at_line_end(to_file_end),
            final(self)@.wf(),
    {
        let offset = self.hex_view.offset;
        let line = self.config.hex_mode_bytes_per_line;
        let size = self.file_info.buffer.len();
        let past = match offset.checked_add(line) {
            Some(end) => end > size,
            None => true,
        };
        if to_file_end || past {
            self.go_to_file_end();
        } else {
            let end = offset + line;
            let x = self.hex_view.cursor.x;
            if x < end {
                self.goto(end - x - 1);
            }
        }
    }

    /// Moves the cursor up a page.
    fn go_page_up(&mut self)
        requires
            old(self)@.wf(),
        ensures
            final(self)@ == old(self)@.at_page_up(),
            final(self)@.wf(),
    {
        if self.hex_view.offset > self.reader.page_current_size {
            self.goto(self.hex_view.offset - self.reader.page_current_size);
        } else {
            self.goto(0);
        }
    }

    /// Adds a bookmark at the cursor, unless there are as many as there may
    /// be.
    pub fn add_bookmark(&mut self)
        ensures
            final(self)@ == old(self)@.bookmark_added(),
            old(self).hex_view.bookmarks@.len() <= MAX_BOOKMARKS
                ==> final(self).hex_view.bookmarks@.len() <= MAX_BOOKMARKS,
            old(self)@.wf() ==> final(self)@.wf(),
    {
        if self.hex_view.bookmarks.len() < MAX_BOOKMARKS {
            self.hex_view.bookmarks.push(self.hex_view.offset);
        }
    }

    /// Takes away the bookmark that was added last.
    pub fn remove_last_bookmark(&mut self)
        ensures
            final(self)@ == old(self)@.last_bookmark_removed(),
            old(self)@.wf() ==> final(self)@.wf(),
    {
        let _ = self.hex_view.bookmarks.pop();
    }

    /// Takes away the bookmark that was added last, where the cursor stands
    /// on it.
    pub fn remove_bookmark_at_cursor(&mut self)
        ensures
            final(self)@ == old(self)@.bookmark_at_cursor_removed(),
            old(self)@.wf() ==> final(self)@.wf(),
    {
        let n = self.hex_view.bookmarks.len();
        if n > 0 && self.hex_view.bookmarks[n - 1] == self.hex_view.offset {
            self.remove_last_bookmark();
        }
    }

    /// Takes every bookmark away.
    pub fn clear_bookmarks(&mut self)
        ensures
            final(self)@ == old(self)@.with_bookmarks(Seq::empty()),
            old(self)@.wf() ==> final(self)@.wf(),
    {
        self.hex_view.bookmarks.clear();
    }

    /// Moves the cursor to the bookmark that was added last.
    fn go_to_last_bookmark(&mut self)
        requires
            old(self)@.wf(),
        ensures
            final(self)@ == old(self)@.at_last_bookmark(),
            final(self)@.wf(),
    {
        let n = self.hex_view.bookmarks.len();
        if n > 0 {
            self.goto(self.hex_view.bookmarks[n - 1]);
        }
    }

    /// Moves the cursor to bookmark number `index`, counted from 0.
    pub fn go_to_bookmark(&mut self, index: usize)
        requires
            old(self)@.wf(),
        ensures
            final(self)@ == old(self)@.at_bookmark(index as int),
            final(self)@.wf(),
    {
        if index < self.hex_view.bookmarks.len() {
            self.goto(self.hex_view.bookmarks[index]);
        }
    }

    /// Marks the value of the byte under the cursor for highlighting, or
    /// takes the mark away.
    fn toggle_highlight(&mut self)
        ensures
            final(self)@ == old(self)@.highlight_toggled(),
            old(self)@.wf() ==> final(self)@.wf(),
    {
        match self.read_u8(self.hex_view.offset) {
            Some(byte) => {
                if self.hex_view.highlights.contains(&byte) {
                    self.hex_view.highlights.remove(&byte);
                } else {
                    self.hex_view.highlights.insert(byte);
                }
            },
            None => {},
        }
    }

    /// Moves the cursor on to the next byte that differs from the one under
    /// it.
    fn go_to_next_other_byte(&mut self)
        requires
            old(self)@.wf(),
        ensures
            final(self)@ == old(self)@.at_next_other_byte(),
            final(self)@.wf(),
    {
        let size = self.file_info.buffer.len();
        let offset = self.hex_view.offset;
        if offset >= size {
            return ;
        }
        let current = self.effective_byte(offset);
        let ghost bytes = self@.edited_bytes();
        let mut at: usize = offset + 1;
        while at < size
            invariant
                offset < at <= size,
                size == self.file_info.buffer@.len(),
                bytes == self@.edited_bytes(),
                self@ == old(self)@,
                self@.wf(),
                offset == self.hex_view.offset,
                current == self@.byte_at(offset as int),
                first_other(bytes, current, offset + 1) == first_other(bytes, current, at as int),
            decreases size - at,
        {
            if self.effective_byte(at) != current {
                proof {
                    assert(bytes[at as int] == self@.byte_at(at as int));
                }
                self.goto(at);
                return ;
            }
            proof {
                assert(bytes[at as int] == self@.byte_at(at as int));
            }
            at += 1;
        }
    }

    /// Moves the cursor back to the nearest byte that differs from the one
    /// under it, or to the start of the file.
    fn go_to_previous_other_byte(&mut self)
        requires
            old(self)@.wf(),
        ensures
            final(self)@ == old(self)@.at_previous_other_byte(),
            final(self)@.wf(),
    {
        let size = self.file_info.buffer.len();
        let offset = self.hex_view.offset;
        if offset >= size {
            return ;
        }
        let current = self.effective_byte(offset);
        let ghost bytes = self@.edited_bytes();
        let mut below: usize = offset;
        while below > 1
            invariant
                below <= offset < size,
                size == self.file_info.buffer@.len(),
                bytes == self@.edited_bytes(),
                self@ == old(self)@,
                self@.wf(),
                offset == self.hex_view.offset,
                current == self@.byte_at(offset as int),
                last_other(bytes, current, offset as int) == last_other(
                    bytes,
                    current,
                    below as int,
                ),
            decreases below,
        {
            proof {
                assert(bytes[below - 1] == self@.byte_at(below - 1));
            }
            if self.effective_byte(below - 1) != current {
                self.goto(below - 1);
                return ;
            }
            below -= 1;
        }
        self.goto(0);
    }

    /// Sets the byte under the cursor to zero and leaves the bytes after it
    /// to be edited.
    fn zero_byte(&mut self)
        requires
            old(self)@.wf(),
        ensures
            final(self)@ == old(self)@.zeroed(),
            final(self)@.wf(),
    {
        if !self.file_info.is_read_only && self.hex_view.offset < self.file_info.buffer.len() {
            self.state = UIState::HexEditing;
            fill_with(self, 0, true);
        }
    }

    /// Raises or lowers the byte under the cursor by one and leaves it to be
    /// edited.
    fn step_from_normal(&mut self, up: bool)
        requires
            old(self)@.wf(),
        ensures
            final(self)@ == old(self)@.stepped(
                if up {
                    1
                } else {
                    -1
                },
            ),
            final(self)@.wf(),
    {
        if !self.file_info.is_read_only && self.hex_view.offset < self.file_info.buffer.len() {
            self.state = UIState::HexEditing;
            self.step_byte(up);
        }
    }

    /// Answers the key that asks to overwrite bytes.
    fn start_replacing(&mut self) -> (effect: Effect)
        ensures
            final(self)@ == old(self)@.replacing(),
            effect@ == (if old(self).file_info.is_read_only {
                EffectModel::Beep
            } else {
                EffectModel::Nothing
            }),
            old(self)@.wf() ==> final(self)@.wf(),
    {
        if self.file_info.is_read_only {
            Effect::Beep
        } else {
            if self.hex_view.offset < self.file_info.buffer.len() {
                self.state = UIState::HexEditing;
            }
            Effect::Nothing
        }
    }

    /// Puts `dialog` on show and binds the keyboard to it.
    pub(crate) fn show(&mut self, state: UIState, dialog: Dialog)
        ensures
            final(self)@ == old(self)@.showing(state, dialog),
            old(self)@.wf() ==> final(self)@.wf(),
    {
        self.state = state;
        self.dialog_renderer = Some(dialog);
    }

    /// Puts the list of comments on show.
    fn show_names(&mut self)
        ensures
            final(self)@ == old(self)@.names_shown(),
            old(self)@.wf() ==> final(self)@.wf(),
    {
        self.show(UIState::DialogNames, Dialog::Names);
        if self.hex_view.names_list_state.selected.is_none() {
            self.hex_view.names_list_state.select_first();
        }
    }

    /// Answers the key that asks for a comment at the cursor.
    fn ask_comment(&mut self)
        ensures
            final(self)@ == old(self)@.comment_asked(),
            old(self)@.wf() ==> final(self)@.wf(),
    {
        if self.file_info.buffer.len() > 0 {
            self.show(UIState::DialogComment, Dialog::Comment);
        }
    }

    /// Enters selection mode with the byte under the cursor selected.
    fn start_selecting(&mut self)
        ensures
            final(self)@ == old(self)@.selecting(),
            old(self)@.wf() ==> final(self)@.wf(),
    {
        if self.file_info.buffer.len() > 0 {
            self.state = UIState::HexSelection;
            self.collapse_selection();
        }
    }

    /// Handles a key that moves the cursor, marks bytes or keeps bookmarks.
    #[verifier::rlimit(50)]
    fn hex_mode_move(&mut self, c: char, control: bool, alt: bool)
        requires
            old(self)@.wf(),
        ensures
            final(self)@ == old(self)@.hex_mode_moved(c, control, alt),
            final(self)@.wf(),
    {
        proof {
            reveal(AppModel::hex_mode_moved);
        }
        if c == 'h' {
            if alt {
                self.toggle_highlight();
            } else {
                self.go_back(1);
            }
        } else if c == 'l' {
            if !alt {
                self.go_forward(1);
            }
        } else if c == 'k' {
            self.go_back(self.config.hex_mode_bytes_per_line);
        } else if c == 'j' {
            self.go_forward(self.config.hex_mode_bytes_per_line);
        } else if c == 'g' {
            self.goto(0);
        } else if c == 'G' {
            self.go_to_file_end();
        } else if c == '$' {
            self.go_to_line_end(control);
        } else if c == '+' {
            self.add_bookmark();
        } else if c == '-' {
            if alt {
                self.remove_bookmark_at_cursor();
            } else {
                self.go_to_last_bookmark();
            }
        } else if '1' <= c && c <= '8' {
            if alt {
                self.go_to_bookmark((c as u8 - 0x31) as usize);
            }
        } else if c == '0' {
            if alt {
                self.clear_bookmarks();
            } else {
                self.go_back(self.hex_view.cursor.x);
            }
        } else if c == 'w' {
            self.go_forward(2);
        } else if c == 'W' {
            self.go_back_or_home(2);
        } else if c == 'd' {
            self.go_forward(4);
        } else if c == 'D' {
            self.go_back_or_home(4);
        } else if c == 'q' {
            self.go_forward(8);
        } else if c == 'Q' {
            self.go_back_or_home(8);
        } else if c == 'o' {
            self.go_to_next_other_byte();
        } else if c == 'O' {
            self.go_to_previous_other_byte();
        }
    }

    /// Handles a key that edits, searches or opens a dialog.
    #[verifier::rlimit(50)]
    fn hex_mode_act(&mut self, c: char, control: bool, alt: bool) -> (effect: Effect)
        requires
            old(self)@.wf(),
        ensures
            if c == 's' {
                &&& final(self)@ == (AppModel {
                    strings: final(self)@.strings,
                    ..old(self)@.hex_mode_acted(c, control, alt)
                })
                &&& old(self)@.strings_loaded(false, final(self)@.strings)
            } else {
                final(self)@ == old(self)@.hex_mode_acted(c, control, alt)
            },
            effect@ == (if c == 'r' && old(self).file_info.is_read_only {
                EffectModel::Beep
            } else {
                EffectModel::Nothing
            }),
            final(self)@.wf(),
    {
        proof {
            reveal(AppModel::hex_mode_acted);
        }
        if c == 'z' {
            self.zero_byte();
        } else if c == 'a' {
            if control {
                self.step_from_normal(true);
            }
        } else if c == 'x' {
            if control {
                self.step_from_normal(false);
            }
        } else if c == 'r' {
            return self.start_replacing();
        } else if c == 's' {
            Commands::strings(self);
        } else if c == '/' {
            self.show(UIState::DialogSearch, Dialog::Search);
        } else if c == 'n' {
            if alt {
                self.show_names();
            } else if self.state == UIState::Normal {
                search_next(self);
            }
        } else if c == ';' {
            self.ask_comment();
        } else if c == 'v' {
            self.start_selecting();
        }
        Effect::Nothing
    }
}

/// Tells whether `c` is one of the keys that move the cursor, mark bytes or
/// keep bookmarks.
fn is_move_key(c: char) -> (r: bool)
    ensures
        r == AppModel::moves(c),
{
    c == 'h' || c == 'l' || c == 'k' || c == 'j' || c == 'g' || c == 'G' || c == '$' || c == '+'
        || c == '-' || ('0' <= c && c <= '8') || c == 'w' || c == 'W' || c == 'd' || c == 'D' || c
        == 'q' || c == 'Q' || c == 'o' || c == 'O'
}

/// Handles a key pressed in the hex view in normal mode: the keys that move
/// the cursor, keep bookmarks, overwrite single bytes, and open the dialogs
/// and modes of the hex view.
#[verifier::rlimit(50)]
pub fn hex_mode_events(app: &mut App, key: KeyEvent) -> (r: (bool, Effect))
    requires
        old(app)@.wf(),
    ensures
        old(app)@.hex_mode_handled(key, final(app)@),
        r.0 == false,
        r.1@ == old(app)@.hex_mode_events_effect(key),
        final(app)@.wf(),
{
    let control = key.modifiers.control;
    let alt = key.modifiers.alt;
    match key.code {
        KeyCode::Left => {
            app.go_back(1);
        },
        KeyCode::Right => {
            if !alt {
                app.go_forward(1);
            }
        },
        KeyCode::Up => {
            app.go_back(app.config.hex_mode_bytes_per_line);
        },
        KeyCode::Down => {
            app.go_forward(app.config.hex_mode_bytes_per_line);
        },
        KeyCode::Home => {
            if control {
                app.goto(0);
            } else {
                app.go_back(app.hex_view.cursor.x);
            }
        },
        KeyCode::End => {
            app.go_to_line_end(control);
        },
        KeyCode::PageDown => {
            app.go_forward(app.reader.page_current_size);
        },
        KeyCode::PageUp => {
            app.go_page_up();
        },
        KeyCode::Backspace => {
            app.goto(app.hex_view.last_visited_offset);
        },
        KeyCode::F(n) => {
            if n == 1 {
                app.show(UIState::DialogHelp, Dialog::Help);
            }
        },
        KeyCode::Char(c) => {
            if is_move_key(c) {
                app.hex_mode_move(c, control, alt);
            } else {
                let effect = app.hex_mode_act(c, control, alt);
                return (false, effect);
            }
        },
        _ => {},
    }
    (false, Effect::Nothing)
}

} // verus!
