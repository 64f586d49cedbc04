//! Moving the cursor and turning the page.

use crate::app::{App, AppModel};
use crate::events::{InputAction, KeyCode, KeyEvent};
use crate::hex::hex_view::{HexViewModel, Point};
use crate::reader::Reader;
use crate::util::{hex_text, to_hex};
use vstd::prelude::*;
use vstd::string::StringExecFns;

verus! {

/// `offset` lies on the page that `reader` shows.
pub open spec fn in_window(reader: Reader, offset: int) -> bool {
    &&& reader.page_start <= offset <= reader.page_end
    &&& offset - reader.page_start < reader.page_current_size
}

/// Where the last page of a file of `size` bytes starts: the first line
/// boundary from which a page of `page` bytes reaches the end of the file.
pub open spec fn last_page_start(size: int, page: int, line: int) -> int {
    if size <= page {
        0
    } else if (size - page) % line == 0 {
        size - page
    } else {
        size - page - (size - page) % line + line
    }
}

/// Where the page starts once the cursor has gone to `offset`. A page that
/// shows the offset stays; otherwise the page is the one that the offset
/// falls in when the file is cut into pages from its start. A page that
/// would run past the end of the file is pulled back to the last page.
pub open spec fn page_start_for(reader: Reader, line: int, size: int, offset: int) -> int {
    let page = reader.page_current_size as int;
    let base = if in_window(reader, offset) {
        reader.page_start as int
    } else {
        offset / page * page
    };
    if base + page <= size || base <= last_page_start(size, page, line) {
        base
    } else {
        last_page_start(size, page, line)
    }
}

/// The last offset of a page of `page` bytes that starts at `start` in a
/// file of `size` bytes: the page ends where the file ends, if not before.
pub open spec fn page_end_for(start: int, page: int, size: int) -> int {
    if start + page <= size {
        start + page - 1
    } else if start < size {
        size - 1
    } else {
        start
    }
}

/// The line that a move of the cursor leaves in the log.
pub open spec fn goto_message(offset: usize) -> Seq<char> {
    "goto: "@ + hex_text(offset as nat, false)
}

impl AppModel {
    /// The session after the cursor has gone to `offset`. An offset outside
    /// the file changes nothing.
    #[verifier::opaque]
    pub open spec fn goto(self, offset: usize) -> AppModel {
        if offset >= self.file_info.buffer.len() {
            self
        } else {
            let line = self.config.hex_mode_bytes_per_line as int;
            let page = self.reader.page_current_size as int;
            let size = self.file_info.buffer.len() as int;
            let start = page_start_for(self.reader, line, size, offset as int);
            AppModel {
                reader: Reader {
                    page_start: start as usize,
                    page_end: page_end_for(start, page, size) as usize,
                    ..self.reader
                },
                hex_view: HexViewModel {
                    cursor: Point {
                        x: ((offset - start) % line) as usize,
                        y: ((offset - start) / line) as usize,
                    },
                    last_visited_offset: self.hex_view.offset,
                    offset,
                    ..self.hex_view
                },
                logs: self.logs.push(goto_message(offset)),
                ..self
            }
        }
    }

    /// The cursor is on the page, and its column and row are those of its
    /// offset on that page.
    pub open spec fn cursor_on_page(self) -> bool {
        let line = self.config.hex_mode_bytes_per_line;
        &&& self.reader.page_start <= self.hex_view.offset <= self.reader.page_end
        &&& self.hex_view.offset == self.reader.page_start + self.hex_view.cursor.y * line
            + self.hex_view.cursor.x
        &&& self.hex_view.cursor.x < line
    }

    /// The page lies inside the file and is no longer than a page may be.
    pub open spec fn page_in_file(self) -> bool {
        &&& self.reader.page_end < self.file_info.buffer.len()
        &&& self.reader.page_end - self.reader.page_start < self.reader.page_current_size
    }
}

/// After the cursor has gone to an offset inside the file, the page shows
/// that offset, the cursor's column and row are those of the offset on the
/// page, and the page ends inside the file.
pub proof fn lemma_goto_shows_offset(app: AppModel, offset: usize)
    requires
        app.config.hex_mode_bytes_per_line > 0,
        app.reader.page_current_size > 0,
        offset < app.file_info.buffer.len() <= usize::MAX,
    ensures
        app.goto(offset).hex_view.offset == offset,
        app.goto(offset).cursor_on_page(),
        app.goto(offset).page_in_file(),
        0 <= page_start_for(
            app.reader,
            app.config.hex_mode_bytes_per_line as int,
            app.file_info.buffer.len() as int,
            offset as int,
        ) <= offset,
{
    reveal(AppModel::goto);
    let line = app.config.hex_mode_bytes_per_line as int;
    let page = app.reader.page_current_size as int;
    let size = app.file_info.buffer.len() as int;
    let o = offset as int;
    let snapped = o / page * page;
    assert(0 <= snapped <= o && o - snapped < page) by (nonlinear_arith)
        requires
            snapped == o / page * page,
            page > 0,
            o >= 0,
    ;
    let last = last_page_start(size, page, line);
    assert(0 <= (size - page) % line < line) by (nonlinear_arith)
        requires
            line > 0,
    ;
    assert(0 <= last && size - page <= last);
    let start = page_start_for(app.reader, line, size, o);
    assert(0 <= start <= o);
    let rel = o - start;
    assert(rel == (rel / line) * line + rel % line && 0 <= rel % line < line && 0 <= rel / line
        <= rel) by (nonlinear_arith)
        requires
            line > 0,
            rel >= 0,
    ;
}

/// A move of the cursor changes the page, the cursor and the log, and
/// nothing else.
pub proof fn lemma_goto_moves_only_the_cursor(app: AppModel, offset: usize)
    ensures
        app.goto(offset) == (AppModel {
            reader: Reader {
                page_start: app.goto(offset).reader.page_start,
                page_end: app.goto(offset).reader.page_end,
                ..app.reader
            },
            hex_view: HexViewModel {
                cursor: app.goto(offset).hex_view.cursor,
                last_visited_offset: app.goto(offset).hex_view.last_visited_offset,
                offset: app.goto(offset).hex_view.offset,
                ..app.hex_view
            },
            logs: app.goto(offset).logs,
            ..app
        }),
{
    reveal(AppModel::goto);
}

/// A move to the start of the file puts the page at the start of the file.
pub proof fn lemma_goto_start(app: AppModel)
    requires
        app.config.hex_mode_bytes_per_line > 0,
        app.reader.page_current_size > 0,
        0 < app.file_info.buffer.len() <= usize::MAX,
    ensures
        app.goto(0).reader.page_start == 0,
        app.goto(0).hex_view.cursor == (Point { x: 0, y: 0 }),
{
    reveal(AppModel::goto);
    lemma_goto_shows_offset(app, 0);
}

/// A move by exactly one page, from a cursor on a page that starts on a
/// page boundary, shifts the page by exactly one page, where the file has
/// a whole page there: forward as well as back.
pub proof fn lemma_goto_by_one_page(app: AppModel, offset: usize)
    requires
        app.config.hex_mode_bytes_per_line > 0,
        app.reader.page_current_size > 0,
        app.file_info.buffer.len() <= usize::MAX,
        app.reader.page_start % app.reader.page_current_size == 0,
        app.reader.page_start <= app.hex_view.offset <= app.reader.page_end,
        app.reader.page_end == app.reader.page_start + app.reader.page_current_size - 1,
        offset == app.hex_view.offset + app.reader.page_current_size || offset
            == app.hex_view.offset - app.reader.page_current_size,
        offset - (app.hex_view.offset - app.reader.page_start) + app.reader.page_current_size
            <= app.file_info.buffer.len(),
    ensures
        offset > app.hex_view.offset ==> app.goto(offset).reader.page_start
            == app.reader.page_start + app.reader.page_current_size,
        offset < app.hex_view.offset ==> app.goto(offset).reader.page_start
            == app.reader.page_start - app.reader.page_current_size,
{
    reveal(AppModel::goto);
    let page = app.reader.page_current_size as int;
    let start = app.reader.page_start as int;
    let o = offset as int;
    let target = if o > app.hex_view.offset {
        start + page
    } else {
        start - page
    };
    assert(target % page == 0 && target <= o < target + page ==> o / page * page == target)
        by (nonlinear_arith)
        requires
            page > 0,
    ;
    assert(target % page == 0) by (nonlinear_arith)
        requires
            page > 0,
            start % page == 0,
            target == start + page || target == start - page,
    ;
}

impl App {
    /// Moves the cursor to `offset` and turns the page to it. The offset
    /// that the cursor leaves is kept, so that the user can go back.
    pub fn goto(&mut self, offset: usize)
        requires
            old(self).config.hex_mode_bytes_per_line > 0,
            old(self).reader.page_current_size > 0,
        ensures
            final(self)@ == old(self)@.goto(offset),
            offset >= old(self).file_info.buffer@.len() ==> final(self)@ == old(self)@,
            offset < old(self).file_info.buffer@.len() ==> final(self)@.cursor_on_page()
                && final(self)@.page_in_file() && final(self).hex_view.offset == offset,
            old(self)@.wf() ==> final(self)@.wf(),
    {
        proof {
            reveal(AppModel::goto);
        }
        let size = self.file_info.buffer.len();
        if offset >= size {
            return ;
        }
        proof {
            lemma_goto_shows_offset(self@, offset);
        }
        let line = self.config.hex_mode_bytes_per_line;
        let page = self.reader.page_current_size;
        let inside = self.reader.page_start <= offset && offset <= self.reader.page_end && offset
            - self.reader.page_start < page;
        assert(0 <= (offset as int) / (page as int) * (page as int) <= offset) by (nonlinear_arith)
            requires
                page > 0,
        ;
        let base = if inside {
            self.reader.page_start
        } else {
            offset / page * page
        };
        let start = if page <= size - base {
            base
        } else if size <= page {
            0
        } else {
            let over = (size - page) % line;
            assert(0 <= over <= size - page && over < line) by (nonlinear_arith)
                requires
                    over == (size - page) % (line as int),
                    size - page > 0,
                    line > 0,
            ;
            let floor = size - page - over;
            if over == 0 {
                floor
            } else if base - floor <= line {
                base
            } else {
                floor + line
            }
        };
        let end = if page <= size - start {
            start + (page - 1)
        } else {
            size - 1
        };
        self.reader.page_start = start;
        self.reader.page_end = end;
        self.hex_view.cursor.y = (offset - start) / line;
        self.hex_view.cursor.x = (offset - start) % line;
        self.hex_view.last_visited_offset = self.hex_view.offset;
        self.hex_view.offset = offset;
        let mut message = String::from_str("goto: ");
        message.append(to_hex(offset, false).as_str());
        self.log(message);
    }
}

impl AppModel {
    /// The session after a key is pressed in the dialog that asks for an
    /// offset, which holds `value`: Escape closes it, Enter goes to the
    /// offset.
    pub open spec fn goto_events(self, key: KeyEvent, value: Seq<char>) -> AppModel {
        match key.code {
            KeyCode::Esc => self.closed(),
            KeyCode::Enter => AppModel {
                state: crate::editor::UIState::Normal,
                ..self.gone_to(value)
            },
            _ => self,
        }
    }
}

/// Handles a key pressed in the dialog that asks for an offset. `value` is
/// the text that the dialog holds.
pub fn dialog_goto_events(app: &mut App, key: KeyEvent, value: &str) -> (input: InputAction)
    requires
        old(app)@.wf(),
    ensures
        final(app)@ == old(app)@.goto_events(key, value@),
        input@ == crate::hex::comment::entry_input(key),
        final(app)@.wf(),
{
    match key.code {
        KeyCode::Esc => {
            app.close_dialog();
            InputAction::Keep
        },
        KeyCode::Enter => {
            crate::commands::try_goto(app, value);
            app.state = crate::editor::UIState::Normal;
            InputAction::Reset
        },
        _ => InputAction::Forward,
    }
}

} // verus!
