//! What the hex view shows of the page: offsets, bytes and characters.

use crate::app::{App, AppModel};
use crate::editor::UIState;
use crate::util::{byte_hex, byte_to_hex, hex_padded, push_char, to_hex_padded};
use vstd::prelude::*;
use vstd::string::StringExecFns;

verus! {

broadcast use vstd::std_specs::hash::group_hash_axioms;

/// The number of digits that an offset is shown with at the least.
pub const OFFSET_WIDTH: usize = 8;

/// The look of a cell of the hex view, by its name in the theme.
#[derive(Clone, Copy, Debug, PartialEq, Eq, Structural)]
pub enum CellStyle {
    Main,
    Highlight,
    ByteHighlight,
    Dimmed,
    ChangedBytes,
    Editing,
}

/// One byte as the hex view shows it.
#[derive(Debug)]
pub struct Cell {
    pub content: String,
    pub style: CellStyle,
}

/// A `Cell`, with its text as a plain value.
pub struct CellModel {
    pub content: Seq<char>,
    pub style: CellStyle,
}

impl View for Cell {
    type V = CellModel;

    open spec fn view(&self) -> CellModel {
        CellModel { content: self.content@, style: self.style }
    }
}

/// The cells of a list, each as what it shows.
pub open spec fn cell_views(list: Seq<Cell>) -> Seq<CellModel> {
    Seq::new(list.len(), |i: int| list[i]@)
}

/// The texts of a list, each as its characters.
pub open spec fn label_views(list: Seq<String>) -> Seq<Seq<char>> {
    Seq::new(list.len(), |i: int| list[i]@)
}

/// A byte that is shown as the character it stands for: printable ASCII
/// but for the space.
pub open spec fn is_graphic(b: u8) -> bool {
    0x21 <= b <= 0x7e
}

impl AppModel {
    /// How many bytes of the file the page shows.
    pub open spec fn page_len(self) -> nat {
        let start = self.reader.page_start as int;
        let size = self.file_info.buffer.len() as int;
        if start >= size {
            0
        } else if size - start < self.reader.page_current_size {
            (size - start) as nat
        } else {
            self.reader.page_current_size as nat
        }
    }

    /// The look of the byte at `offset`. An unsaved edit shows as changed;
    /// otherwise a selected byte is highlighted, then a byte whose value is
    /// marked, and zeros and control bytes are dimmed where they are set to
    /// be.
    pub open spec fn byte_style(self, offset: int) -> CellStyle {
        let byte = self.file_info.buffer[offset];
        let sel = self.hex_view.selection;
        if self.hex_view.changed_bytes.contains_key(offset as usize) {
            CellStyle::ChangedBytes
        } else if self.state == UIState::HexSelection && sel.start <= offset <= sel.end {
            CellStyle::Highlight
        } else if self.hex_view.highlights.contains(byte) {
            CellStyle::ByteHighlight
        } else if byte == 0 && self.config.dim_zeroes {
            CellStyle::Dimmed
        } else if !is_graphic(byte) && self.config.dim_control_chars {
            CellStyle::Dimmed
        } else {
            CellStyle::Main
        }
    }

    /// The byte at `offset` as the hex dump shows it: the digits typed over
    /// it, or else the two digits of the byte in the file.
    pub open spec fn hex_cell(self, offset: int) -> CellModel {
        CellModel {
            content: if self.hex_view.changed_bytes.contains_key(offset as usize) {
                self.hex_view.changed_bytes[offset as usize].text()
            } else {
                byte_hex(self.file_info.buffer[offset])
            },
            style: self.byte_style(offset),
        }
    }

    /// The byte at `offset` as the text beside the hex dump shows it: the
    /// character of the byte typed over it, or the character of the byte in
    /// the file where it is a graphic one, or else the stand-in character.
    pub open spec fn ascii_cell(self, offset: int) -> CellModel {
        let byte = self.file_info.buffer[offset];
        if self.hex_view.changed_bytes.contains_key(offset as usize) {
            CellModel {
                content: seq![self.hex_view.changed_bytes[offset as usize].byte() as char],
                style: CellStyle::ChangedBytes,
            }
        } else {
            CellModel {
                content: seq![
                    if is_graphic(byte) {
                        byte as char
                    } else {
                        self.config.hex_mode_non_graphic_char
                    },
                ],
                style: CellStyle::Main,
            }
        }
    }

    /// The bytes of the page as the hex dump shows them, in order.
    pub open spec fn hex_cells(self) -> Seq<CellModel> {
        Seq::new(self.page_len(), |i: int| self.hex_cell(self.reader.page_start + i))
    }

    /// The bytes of the page as the text beside the hex dump shows them.
    pub open spec fn ascii_cells(self) -> Seq<CellModel> {
        Seq::new(self.page_len(), |i: int| self.ascii_cell(self.reader.page_start + i))
    }

    /// How many of `rows` rows get a label: those whose offset is a number.
    pub open spec fn labelled_rows(self, rows: u16) -> nat {
        let start = self.reader.page_start as int;
        let line = self.config.hex_mode_bytes_per_line as int;
        if line == 0 || start + (rows - 1) * line <= usize::MAX {
            rows as nat
        } else {
            ((usize::MAX - start) / line + 1) as nat
        }
    }

    /// The labels of the rows of the page: the offset at which each row
    /// starts.
    pub open spec fn offset_labels(self, rows: u16) -> Seq<Seq<char>> {
        Seq::new(
            self.labelled_rows(rows),
            |i: int|
                hex_padded(
                    (self.reader.page_start + i * self.config.hex_mode_bytes_per_line) as nat,
                    OFFSET_WIDTH as nat,
                ),
        )
    }

    /// The look of the cell under the cursor in the hex dump.
    pub open spec fn hex_cursor_style(self) -> CellStyle {
        if self.state == UIState::HexEditing && self.hex_view.editing_hex {
            CellStyle::Editing
        } else {
            CellStyle::Highlight
        }
    }

    /// How wide a column of the hex dump is: two digits, and one cell more
    /// while bytes are selected, so that a selection has no gaps.
    pub open spec fn hex_column_width(self) -> u16 {
        if self.state == UIState::HexSelection {
            3
        } else {
            2
        }
    }

    /// The look of the cell under the cursor in the text beside the dump.
    pub open spec fn ascii_cursor_style(self) -> CellStyle {
        if self.state == UIState::HexEditing && !self.hex_view.editing_hex {
            CellStyle::Editing
        } else {
            CellStyle::Highlight
        }
    }
}

/// Tells whether a byte is printable ASCII other than the space.
pub fn graphic(b: u8) -> (r: bool)
    ensures
        r == is_graphic(b),
{
    0x21 <= b && b <= 0x7e
}

impl App {
    /// How many bytes of the file the page shows.
    pub fn page_len(&self) -> (n: usize)
        ensures
            n == self@.page_len(),
            n > 0 ==> self.reader.page_start + n <= self.file_info.buffer@.len(),
    {
        let start = self.reader.page_start;
        let size = self.file_info.buffer.len();
        if start >= size {
            0
        } else if size - start < self.reader.page_current_size {
            size - start
        } else {
            self.reader.page_current_size
        }
    }

    /// The look of the byte at `offset`.
    pub fn byte_style(&self, offset: usize) -> (style: CellStyle)
        requires
            offset < self.file_info.buffer@.len(),
        ensures
            style == self@.byte_style(offset as int),
    {
        let byte = self.file_info.buffer[offset];
        if self.hex_view.changed_bytes.contains_key(&offset) {
            CellStyle::ChangedBytes
        } else if self.state == UIState::HexSelection && self.hex_view.selection.contains(offset) {
            CellStyle::Highlight
        } else if self.hex_view.highlights.contains(&byte) {
            CellStyle::ByteHighlight
        } else if byte == 0 && self.config.dim_zeroes {
            CellStyle::Dimmed
        } else if !graphic(byte) && self.config.dim_control_chars {
            CellStyle::Dimmed
        } else {
            CellStyle::Main
        }
    }

    /// The byte at `offset` as the hex dump shows it.
    pub fn hex_cell(&self, offset: usize) -> (cell: Cell)
        requires
            offset < self.file_info.buffer@.len(),
            self@.wf(),
        ensures
            cell@ == self@.hex_cell(offset as int),
    {
        let content = match self.hex_view.changed_bytes.get(&offset) {
            Some(edit) => edit.to_text(),
            None => byte_to_hex(self.file_info.buffer[offset]),
        };
        Cell { content, style: self.byte_style(offset) }
    }

    /// The byte at `offset` as the text beside the hex dump shows it.
    pub fn ascii_cell(&self, offset: usize) -> (cell: Cell)
        requires
            offset < self.file_info.buffer@.len(),
        ensures
            cell@ == self@.ascii_cell(offset as int),
    {
        let byte = self.file_info.buffer[offset];
        let mut content = String::new();
        match self.hex_view.changed_bytes.get(&offset) {
            Some(edit) => {
                push_char(&mut content, edit.value() as char);
                Cell { content, style: CellStyle::ChangedBytes }
            },
            None => {
                push_char(
                    &mut content,
                    if graphic(byte) {
                        byte as char
                    } else {
                        self.config.hex_mode_non_graphic_char
                    },
                );
                Cell { content, style: CellStyle::Main }
            },
        }
    }

    /// The look of the cell under the cursor in the hex dump.
    pub fn hex_cursor_style(&self) -> (style: CellStyle)
        ensures
            style == self@.hex_cursor_style(),
    {
        if self.state == UIState::HexEditing && self.hex_view.editing_hex {
            CellStyle::Editing
        } else {
            CellStyle::Highlight
        }
    }

    /// How wide a column of the hex dump is.
    pub fn hex_column_width(&self) -> (width: u16)
        ensures
            width == self@.hex_column_width(),
    {
        if self.state == UIState::HexSelection {
            3
        } else {
            2
        }
    }

    /// The look of the cell under the cursor in the text beside the dump.
    pub fn ascii_cursor_style(&self) -> (style: CellStyle)
        ensures
            style == self@.ascii_cursor_style(),
    {
        if self.state == UIState::HexEditing && !self.hex_view.editing_hex {
            CellStyle::Editing
        } else {
            CellStyle::Highlight
        }
    }
}

/// The labels of `rows` rows of the page: the offset at which each row
/// starts, in hexadecimal.
pub fn draw_hex_offsets(app: &App, rows: u16) -> (labels: Vec<String>)
    ensures
        label_views(labels@) == app@.offset_labels(rows),
{
    let line = app.config.hex_mode_bytes_per_line;
    let start = app.reader.page_start;
    let mut labels: Vec<String> = Vec::new();
    let mut offset: usize = start;
    let mut i: u16 = 0;
    while i < rows
        invariant
            i <= rows,
            line == app.config.hex_mode_bytes_per_line,
            start == app.reader.page_start,
            i < rows ==> offset == start + i * line,
            i > 0 ==> start + (i - 1) * line <= usize::MAX,
            labels@.len() == i,
            forall|k: int|
                0 <= k < i ==> (#[trigger] labels@[k])@ == hex_padded(
                    (start + k * line) as nat,
                    OFFSET_WIDTH as nat,
                ),
        decreases rows - i,
    {
        labels.push(to_hex_padded(offset, OFFSET_WIDTH));
        i += 1;
        assert(start + i * line == offset + line) by (nonlinear_arith)
            requires
                offset == start + (i - 1) * line,
        ;
        if i < rows {
            match offset.checked_add(line) {
                Some(next) => {
                    offset = next;
                },
                None => {
                    proof {
                        let m = usize::MAX as int;
                        let s = start as int;
                        let l = line as int;
                        assert(l > 0);
                        assert(s + (i - 1) * l <= m < s + i * l);
                        assert((m - s) / l == i - 1) by (nonlinear_arith)
                            requires
                                l > 0,
                                s + (i - 1) * l <= m < s + i * l,
                        ;
                        assert(s + (rows - 1) * l >= s + i * l) by (nonlinear_arith)
                            requires
                                l > 0,
                                rows - 1 >= i,
                        ;
                        assert(label_views(labels@) =~= app@.offset_labels(rows));
                    }
                    return labels;
                },
            }
        }
    }
    proof {
        let s = start as int;
        let l = line as int;
        if rows > 0 {
            assert(s + (rows - 1) * l == s + (i - 1) * l) by (nonlinear_arith)
                requires
                    i == rows,
            ;
        } else {
            assert(s + (rows - 1) * l <= s) by (nonlinear_arith)
                requires
                    rows == 0,
                    l >= 0,
            ;
        }
        assert(app@.labelled_rows(rows) == rows);
        assert(label_views(labels@) =~= app@.offset_labels(rows));
    }
    labels
}

/// The bytes of the page as the hex dump shows them, in order: unsaved
/// edits are laid over the bytes of the file.
pub fn draw_hex_contents(app: &App) -> (cells: Vec<Cell>)
    requires
        app@.wf(),
    ensures
        cell_views(cells@) == app@.hex_cells(),
{
    let n = app.page_len();
    let start = app.reader.page_start;
    let size = app.file_info.buffer.len();
    let mut cells: Vec<Cell> = Vec::new();
    let mut i: usize = 0;
    while i < n
        invariant
            app@.wf(),
            size == app.file_info.buffer@.len(),
            n == app@.page_len(),
            start == app.reader.page_start,
            n > 0 ==> start + n <= app.file_info.buffer@.len(),
            i <= n,
            cells@.len() == i,
            forall|k: int| 0 <= k < i ==> (#[trigger] cells@[k])@ == app@.hex_cell(start + k),
        decreases n - i,
    {
        cells.push(app.hex_cell(start + i));
        i += 1;
    }
    proof {
        assert(cell_views(cells@) =~= app@.hex_cells());
    }
    cells
}

/// The bytes of the page as the text beside the hex dump shows them.
pub fn draw_hex_ascii(app: &App) -> (cells: Vec<Cell>)
    ensures
        cell_views(cells@) == app@.ascii_cells(),
{
    let n = app.page_len();
    let start = app.reader.page_start;
    let size = app.file_info.buffer.len();
    let mut cells: Vec<Cell> = Vec::new();
    let mut i: usize = 0;
    while i < n
        invariant
            size == app.file_info.buffer@.len(),
            n == app@.page_len(),
            start == app.reader.page_start,
            n > 0 ==> start + n <= app.file_info.buffer@.len(),
            i <= n,
            cells@.len() == i,
            forall|k: int| 0 <= k < i ==> (#[trigger] cells@[k])@ == app@.ascii_cell(start + k),
        decreases n - i,
    {
        cells.push(app.ascii_cell(start + i));
        i += 1;
    }
    proof {
        assert(cell_views(cells@) =~= app@.ascii_cells());
    }
    cells
}

/// A row of a list of places in the file: the offset, then the text.
pub open spec fn list_row(offset: usize, text: Seq<char>) -> Seq<char> {
    hex_padded(offset as nat, OFFSET_WIDTH as nat) + "  "@ + text
}

/// A row of a list of places in the file.
pub fn list_item(offset: usize, text: &str) -> (row: String)
    ensures
        row@ == list_row(offset, text@),
{
    let mut row = to_hex_padded(offset, OFFSET_WIDTH);
    row.append("  ");
    row.append(text);
    row
}

} // verus!
