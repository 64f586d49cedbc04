//! The session: the open file, the state of the views, and the reads and
//! writes that go through both.

use crate::config::Config;
use crate::editor::{AppView, Dialog, UIState};
use crate::global::calculator::{Calculator, CalculatorModel};
use crate::hex::hex_view::{HexView, HexViewModel, PendingEdit};
use crate::hex::strings::{found_views, FoundString, FoundStringModel};
use crate::reader::Reader;
use crate::util::{decimal_text, hex_text, to_decimal, to_hex};
use crate::widgets::ListState;
use vstd::prelude::*;
use vstd::std_specs::iter::IteratorSpec;
use vstd::string::StringExecFns;

verus! {

broadcast use vstd::std_specs::hash::group_hash_axioms;

/// The kind of program file that the first byte of a file points to.
#[derive(Clone, Copy, Debug, PartialEq, Eq, Structural)]
pub enum FileType {
    Unknown,
    Elf,
    MachO,
    Pe,
}

/// The kind of file that starts with the bytes `buffer`.
pub open spec fn file_type_of(buffer: Seq<u8>) -> FileType {
    if buffer.len() == 0 {
        FileType::Unknown
    } else if buffer[0] == 0x7f {
        FileType::Elf
    } else if buffer[0] == 0xca || buffer[0] == 0xcf {
        FileType::MachO
    } else if buffer[0] == 0x4d {
        FileType::Pe
    } else {
        FileType::Unknown
    }
}

impl FileType {
    /// The name that the status bar shows for the kind of file.
    pub open spec fn text(self) -> Seq<char> {
        match self {
            FileType::Unknown => ""@,
            FileType::Elf => "ELF"@,
            FileType::MachO => "Mach-O"@,
            FileType::Pe => "PE"@,
        }
    }

    /// The name that the status bar shows for the kind of file.
    pub fn name(&self) -> (name: &'static str)
        ensures
            name@ == self.text(),
    {
        match self {
            FileType::Unknown => "",
            FileType::Elf => "ELF",
            FileType::MachO => "Mach-O",
            FileType::Pe => "PE",
        }
    }
}

/// The open file: where it lives, whether it may be written, and its bytes
/// as they were when it was opened.
#[derive(Debug)]
pub struct FileInfo {
    pub path: String,
    /// Whether a file was loaded. Before the first one is, nothing is open.
    pub is_open: bool,
    pub is_read_only: bool,
    pub name: String,
    pub kind: FileType,
    pub buffer: Vec<u8>,
}

/// What a `FileInfo` holds, as plain values.
pub struct FileInfoModel {
    pub path: Seq<char>,
    pub is_open: bool,
    pub is_read_only: bool,
    pub name: Seq<char>,
    pub kind: FileType,
    pub buffer: Seq<u8>,
}

impl FileInfoModel {
    /// The number of bytes in the file.
    pub open spec fn size(self) -> usize {
        self.buffer.len() as usize
    }
}

impl View for FileInfo {
    type V = FileInfoModel;

    open spec fn view(&self) -> FileInfoModel {
        FileInfoModel {
            path: self.path@,
            is_open: self.is_open,
            is_read_only: self.is_read_only,
            name: self.name@,
            kind: self.kind,
            buffer: self.buffer@,
        }
    }
}

impl FileInfo {
    /// No file.
    pub fn new() -> (f: Self)
        ensures
            f@ == (FileInfoModel {
                path: Seq::empty(),
                is_open: false,
                is_read_only: false,
                name: Seq::empty(),
                kind: FileType::Unknown,
                buffer: Seq::empty(),
            }),
    {
        FileInfo {
            path: String::new(),
            is_open: false,
            is_read_only: false,
            name: String::new(),
            kind: FileType::Unknown,
            buffer: Vec::new(),
        }
    }

    /// The number of bytes in the file.
    pub fn size(&self) -> (n: usize)
        ensures
            n == self@.size(),
            n == self.buffer@.len(),
    {
        self.buffer.len()
    }

    /// The bytes of the file.
    pub fn get_buffer(&self) -> (b: &[u8])
        ensures
            b@ == self.buffer@,
    {
        self.buffer.as_slice()
    }
}

/// The value of two bytes, least significant first.
pub open spec fn le_u16(b: Seq<u8>) -> u16 {
    (b[0] + b[1] * 0x100) as u16
}

/// The value of four bytes, least significant first.
pub open spec fn le_u32(b: Seq<u8>) -> u32 {
    (b[0] + b[1] * 0x100 + b[2] * 0x1_0000 + b[3] * 0x100_0000) as u32
}

/// The value of eight bytes, least significant first.
pub open spec fn le_u64(b: Seq<u8>) -> u64 {
    (b[0] + b[1] * 0x100 + b[2] * 0x1_0000 + b[3] * 0x100_0000 + b[4] * 0x1_0000_0000 + b[5]
        * 0x100_0000_0000 + b[6] * 0x1_0000_0000_0000 + b[7] * 0x100_0000_0000_0000) as u64
}

/// The number that `value`, which is below `modulus`, stands for when it is
/// read as a signed number in two's complement: the upper half of the range
/// counts as negative.
pub open spec fn signed(value: int, modulus: int) -> int {
    if 2 * value < modulus {
        value
    } else {
        value - modulus
    }
}

/// The value of two bytes, least significant first.
pub fn u16_from_le(b: [u8; 2]) -> (v: u16)
    ensures
        v == le_u16(b@),
{
    b[0] as u16 + b[1] as u16 * 0x100
}

/// The value of four bytes, least significant first.
pub fn u32_from_le(b: [u8; 4]) -> (v: u32)
    ensures
        v == le_u32(b@),
{
    b[0] as u32 + b[1] as u32 * 0x100 + b[2] as u32 * 0x1_0000 + b[3] as u32 * 0x100_0000
}

/// The value of eight bytes, least significant first.
pub fn u64_from_le(b: [u8; 8]) -> (v: u64)
    ensures
        v == le_u64(b@),
{
    b[0] as u64 + b[1] as u64 * 0x100 + b[2] as u64 * 0x1_0000 + b[3] as u64 * 0x100_0000 + b[4] as u64
        * 0x1_0000_0000 + b[5] as u64 * 0x100_0000_0000 + b[6] as u64 * 0x1_0000_0000_0000 + b[7] as u64
        * 0x100_0000_0000_0000
}

/// A byte read as a signed number.
pub fn i8_of(v: u8) -> (r: i8)
    ensures
        r == signed(v as int, 0x100),
{
    if v < 0x80 {
        v as i8
    } else {
        (v as i16 - 0x100) as i8
    }
}

/// A number of sixteen bits read as a signed number.
pub fn i16_of(v: u16) -> (r: i16)
    ensures
        r == signed(v as int, 0x1_0000),
{
    if v < 0x8000 {
        v as i16
    } else {
        (v as i32 - 0x1_0000) as i16
    }
}

/// A number of thirty-two bits read as a signed number.
pub fn i32_of(v: u32) -> (r: i32)
    ensures
        r == signed(v as int, 0x1_0000_0000),
{
    if v < 0x8000_0000 {
        v as i32
    } else {
        (v as i64 - 0x1_0000_0000) as i32
    }
}

/// A number of sixty-four bits read as a signed number.
pub fn i64_of(v: u64) -> (r: i64)
    ensures
        r == signed(v as int, 0x1_0000_0000_0000_0000),
{
    if v < 0x8000_0000_0000_0000 {
        v as i64
    } else {
        (v as i128 - 0x1_0000_0000_0000_0000) as i64
    }
}

impl FileInfoModel {
    /// `width` bytes can be read at `offset`: they all lie inside the file.
    pub open spec fn readable(self, offset: int, width: nat) -> bool {
        offset + width <= self.buffer.len()
    }

    /// The `width` bytes of the file from `offset` on.
    pub open spec fn bytes_at(self, offset: int, width: nat) -> Seq<u8> {
        self.buffer.subrange(offset, offset + width)
    }
}

impl FileInfo {
    /// The `N` bytes of the file from `offset` on, or nothing where they do
    /// not all lie inside the file.
    fn bytes<const N: usize>(&self, offset: usize) -> (r: Option<[u8; N]>)
        ensures
            r is Some <==> self@.readable(offset as int, N as nat),
            r matches Some(bytes) ==> bytes@ == self@.bytes_at(offset as int, N as nat),
    {
        let size = self.buffer.len();
        if N > size || offset > size - N {
            return None;
        }
        let mut bytes = [0u8; N];
        let mut i: usize = 0;
        while i < N
            invariant
                offset + N <= size,
                size == self.buffer@.len(),
                i <= N,
                forall|k: int| 0 <= k < i ==> bytes@[k] == self.buffer@[offset + k],
            decreases N - i,
        {
            bytes[i] = self.buffer[offset + i];
            i += 1;
        }
        proof {
            assert(bytes@ =~= self@.bytes_at(offset as int, N as nat));
        }
        Some(bytes)
    }

    /// The byte of the file at `offset`, or nothing where the file has no
    /// such offset.
    pub fn read_u8(&self, offset: usize) -> (r: Option<u8>)
        ensures
            r is Some <==> self@.readable(offset as int, 1),
            r matches Some(v) ==> v == self.buffer@[offset as int],
    {
        if offset < self.buffer.len() {
            Some(self.buffer[offset])
        } else {
            None
        }
    }

    /// The byte of the file at `offset` as a signed number.
    pub fn read_i8(&self, offset: usize) -> (r: Option<i8>)
        ensures
            r is Some <==> self@.readable(offset as int, 1),
            r matches Some(v) ==> v == signed(self.buffer@[offset as int] as int, 0x100),
    {
        match self.read_u8(offset) {
            Some(v) => Some(i8_of(v)),
            None => None,
        }
    }

    /// The two bytes of the file from `offset` on as a number, least
    /// significant byte first, or nothing where they do not both lie inside
    /// the file.
    pub fn read_u16(&self, offset: usize) -> (r: Option<u16>)
        ensures
            r is Some <==> self@.readable(offset as int, 2),
            r matches Some(v) ==> v == le_u16(self@.bytes_at(offset as int, 2)),
    {
        match self.bytes::<2>(offset) {
            Some(b) => Some(u16_from_le(b)),
            None => None,
        }
    }

    /// The two bytes of the file from `offset` on as a signed number.
    pub fn read_i16(&self, offset: usize) -> (r: Option<i16>)
        ensures
            r is Some <==> self@.readable(offset as int, 2),
            r matches Some(v) ==> v == signed(
                le_u16(self@.bytes_at(offset as int, 2)) as int,
                0x1_0000,
            ),
    {
        match self.read_u16(offset) {
            Some(v) => Some(i16_of(v)),
            None => None,
        }
    }

    /// The four bytes of the file from `offset` on as a number, least
    /// significant byte first, or nothing where they do not all lie inside
    /// the file.
    pub fn read_u32(&self, offset: usize) -> (r: Option<u32>)
        ensures
            r is Some <==> self@.readable(offset as int, 4),
            r matches Some(v) ==> v == le_u32(self@.bytes_at(offset as int, 4)),
    {
        match self.bytes::<4>(offset) {
            Some(b) => Some(u32_from_le(b)),
            None => None,
        }
    }

    /// The four bytes of the file from `offset` on as a signed number.
    pub fn read_i32(&self, offset: usize) -> (r: Option<i32>)
        ensures
            r is Some <==> self@.readable(offset as int, 4),
            r matches Some(v) ==> v == signed(
                le_u32(self@.bytes_at(offset as int, 4)) as int,
                0x1_0000_0000,
            ),
    {
        match self.read_u32(offset) {
            Some(v) => Some(i32_of(v)),
            None => None,
        }
    }

    /// The eight bytes of the file from `offset` on as a number, least
    /// significant byte first, or nothing where they do not all lie inside
    /// the file.
    pub fn read_u64(&self, offset: usize) -> (r: Option<u64>)
        ensures
            r is Some <==> self@.readable(offset as int, 8),
            r matches Some(v) ==> v == le_u64(self@.bytes_at(offset as int, 8)),
    {
        match self.bytes::<8>(offset) {
            Some(b) => Some(u64_from_le(b)),
            None => None,
        }
    }

    /// The eight bytes of the file from `offset` on as a signed number.
    pub fn read_i64(&self, offset: usize) -> (r: Option<i64>)
        ensures
            r is Some <==> self@.readable(offset as int, 8),
            r matches Some(v) ==> v == signed(
                le_u64(self@.bytes_at(offset as int, 8)) as int,
                0x1_0000_0000_0000_0000,
            ),
    {
        match self.read_u64(offset) {
            Some(v) => Some(i64_of(v)),
            None => None,
        }
    }
}

/// The texts of a list, each as its characters.
pub open spec fn text_views(list: Seq<String>) -> Seq<Seq<char>> {
    Seq::new(list.len(), |i: int| list[i]@)
}

/// The character encoding that the text view reads the file in.
#[derive(Clone, Copy, Debug, PartialEq, Eq, Structural)]
pub enum Encoding {
    Utf8,
    Windows1252,
    Iso8859_2,
    Utf16Le,
    Utf16Be,
}

/// The state of the text view.
#[derive(Clone, Copy, Debug)]
pub struct TextView {
    pub area_height: u16,
    pub lines_to_show: usize,
    /// How far the text is scrolled: rows first, then columns.
    pub scroll_offset: (u16, u16),
    pub table: Encoding,
}

/// Everything that one editing session holds.
pub struct App {
    pub calculator: Calculator,
    pub config: Config,
    /// A second dialog drawn over the first.
    pub dialog_2nd_renderer: Option<Dialog>,
    pub dialog_renderer: Option<Dialog>,
    pub editor_view: AppView,
    pub file_info: FileInfo,
    pub hex_view: HexView,
    /// The row that is picked in the list on show.
    pub list_state: ListState,
    /// How far the log is scrolled: rows first, then columns.
    pub log_scroll_offset: (u16, u16),
    pub logs: Vec<String>,
    pub reader: Reader,
    pub running: bool,
    pub state: UIState,
    /// The pattern that the listed strings have to match.
    pub string_regex: String,
    /// The strings found in the file when it was last scanned.
    pub strings: Vec<FoundString>,
    pub text_view: TextView,
}

/// What a session holds, as plain values: the state that the contracts of
/// the library speak of.
pub struct AppModel {
    pub calculator: CalculatorModel,
    pub config: Config,
    pub dialog_2nd_renderer: Option<Dialog>,
    pub dialog_renderer: Option<Dialog>,
    pub editor_view: AppView,
    pub file_info: FileInfoModel,
    pub hex_view: HexViewModel,
    pub list_state: ListState,
    pub log_scroll_offset: (u16, u16),
    pub logs: Seq<Seq<char>>,
    pub reader: Reader,
    pub running: bool,
    pub state: UIState,
    pub string_regex: Seq<char>,
    pub strings: Seq<FoundStringModel>,
    pub text_view: TextView,
}

impl View for App {
    type V = AppModel;

    open spec fn view(&self) -> AppModel {
        AppModel {
            calculator: self.calculator@,
            config: self.config,
            dialog_2nd_renderer: self.dialog_2nd_renderer,
            dialog_renderer: self.dialog_renderer,
            editor_view: self.editor_view,
            file_info: self.file_info@,
            hex_view: self.hex_view@,
            list_state: self.list_state,
            log_scroll_offset: self.log_scroll_offset,
            logs: text_views(self.logs@),
            reader: self.reader,
            running: self.running,
            state: self.state,
            string_regex: self.string_regex@,
            strings: found_views(self.strings@),
            text_view: self.text_view,
        }
    }
}

/// Every edit of `edits` lies over one of the first `size` offsets.
pub open spec fn edits_inside(edits: Map<usize, PendingEdit>, size: nat) -> bool {
    forall|k: usize| #[trigger] edits.contains_key(k) ==> k < size
}

impl AppModel {
    /// A session with no file open.
    pub open spec fn initial() -> AppModel {
        AppModel {
            calculator: CalculatorModel { history: Seq::empty(), history_index: None, result: 0 },
            config: Config::initial(),
            dialog_2nd_renderer: None,
            dialog_renderer: None,
            editor_view: AppView::Hex,
            file_info: FileInfoModel {
                path: Seq::empty(),
                is_open: false,
                is_read_only: false,
                name: Seq::empty(),
                kind: FileType::Unknown,
                buffer: Seq::empty(),
            },
            hex_view: HexViewModel::initial(),
            list_state: ListState { selected: None },
            log_scroll_offset: (0, 0),
            logs: Seq::empty(),
            reader: Reader { page_current_size: 1, page_start: 0, page_end: 0 },
            running: true,
            state: UIState::Normal,
            string_regex: Seq::empty(),
            strings: Seq::empty(),
            text_view: TextView {
                area_height: 0,
                lines_to_show: 0,
                scroll_offset: (0, 0),
                table: Encoding::Utf8,
            },
        }
    }

    /// Lines and pages hold at least one byte, the hex view is in order, and
    /// every unsaved edit lies over a byte of the file.
    pub open spec fn wf(self) -> bool {
        &&& self.config.hex_mode_bytes_per_line > 0
        &&& self.reader.page_current_size > 0
        &&& self.hex_view.wf()
        &&& edits_inside(self.hex_view.changed_bytes, self.file_info.buffer.len())
    }

    /// The byte that the user sees at `offset`: the unsaved edit there, or
    /// else the byte of the file.
    pub open spec fn byte_at(self, offset: int) -> u8 {
        if self.hex_view.changed_bytes.contains_key(offset as usize) {
            self.hex_view.changed_bytes[offset as usize].byte()
        } else {
            self.file_info.buffer[offset]
        }
    }

    /// The `width` bytes that the user sees from `offset` on.
    pub open spec fn bytes_at(self, offset: int, width: nat) -> Seq<u8> {
        Seq::new(width, |i: int| self.byte_at(offset + i))
    }

    /// `width` bytes can be read at `offset`: they all lie inside the file.
    pub open spec fn readable(self, offset: int, width: nat) -> bool {
        offset + width <= self.file_info.buffer.len()
    }

    /// The file with every unsaved edit laid over it.
    pub open spec fn edited_bytes(self) -> Seq<u8> {
        self.bytes_at(0, self.file_info.buffer.len())
    }

    /// The session with the line `text` added to its log.
    pub open spec fn logged(self, text: Seq<char>) -> AppModel {
        AppModel { logs: self.logs.push(text), ..self }
    }
}

impl App {
    /// A session with no file open.
    pub fn new() -> (app: Self)
        ensures
            app@ == AppModel::initial(),
            app@.wf(),
    {
        let app = App {
            calculator: Calculator::new(),
            config: Config::new(),
            dialog_2nd_renderer: None,
            dialog_renderer: None,
            editor_view: AppView::Hex,
            file_info: FileInfo::new(),
            hex_view: HexView::new(),
            list_state: ListState::new(),
            log_scroll_offset: (0, 0),
            logs: Vec::new(),
            reader: Reader::new(),
            running: true,
            state: UIState::Normal,
            string_regex: String::new(),
            strings: Vec::new(),
            text_view: TextView {
                area_height: 0,
                lines_to_show: 0,
                scroll_offset: (0, 0),
                table: Encoding::Utf8,
            },
        };
        proof {
            assert(app@.logs =~= Seq::empty());
            assert(app@.strings =~= Seq::empty());
            assert(app@.calculator.history =~= Seq::empty());
        }
        app
    }

    /// The byte that the user sees at `offset`.
    pub fn effective_byte(&self, offset: usize) -> (b: u8)
        requires
            offset < self.file_info.buffer@.len(),
        ensures
            b == self@.byte_at(offset as int),
    {
        match self.hex_view.changed_bytes.get(&offset) {
            Some(edit) => edit.value(),
            None => self.file_info.buffer[offset],
        }
    }

    /// The `N` bytes that the user sees from `offset` on, or nothing where
    /// they do not all lie inside the file.
    fn effective_bytes<const N: usize>(&self, offset: usize) -> (r: Option<[u8; N]>)
        ensures
            r is Some <==> self@.readable(offset as int, N as nat),
            r matches Some(bytes) ==> bytes@ == self@.bytes_at(offset as int, N as nat),
    {
        let size = self.file_info.buffer.len();
        if N > size || offset > size - N {
            return None;
        }
        let mut bytes = [0u8; N];
        let mut i: usize = 0;
        while i < N
            invariant
                offset + N <= size,
                size == self.file_info.buffer@.len(),
                i <= N,
                forall|k: int| 0 <= k < i ==> bytes@[k] == self@.byte_at(offset + k),
            decreases N - i,
        {
            bytes[i] = self.effective_byte(offset + i);
            i += 1;
        }
        proof {
            assert(bytes@ =~= self@.bytes_at(offset as int, N as nat));
        }
        Some(bytes)
    }

    /// The byte at `offset` as the user sees it, or nothing where the file
    /// has no such offset.
    pub fn read_u8(&self, offset: usize) -> (r: Option<u8>)
        ensures
            r is Some <==> self@.readable(offset as int, 1),
            r matches Some(v) ==> v == self@.byte_at(offset as int),
    {
        if offset < self.file_info.buffer.len() {
            Some(self.effective_byte(offset))
        } else {
            None
        }
    }

    /// The byte at `offset` as a signed number.
    pub fn read_i8(&self, offset: usize) -> (r: Option<i8>)
        ensures
            r is Some <==> self@.readable(offset as int, 1),
            r matches Some(v) ==> v == signed(self@.byte_at(offset as int) as int, 0x100),
    {
        match self.read_u8(offset) {
            Some(v) => Some(i8_of(v)),
            None => None,
        }
    }

    /// The two bytes from `offset` on as a number, least significant byte
    /// first, or nothing where they do not both lie inside the file.
    pub fn read_u16(&self, offset: usize) -> (r: Option<u16>)
        ensures
            r is Some <==> self@.readable(offset as int, 2),
            r matches Some(v) ==> v == le_u16(self@.bytes_at(offset as int, 2)),
    {
        match self.effective_bytes::<2>(offset) {
            Some(b) => Some(u16_from_le(b)),
            None => None,
        }
    }

    /// The two bytes from `offset` on as a signed number.
    pub fn read_i16(&self, offset: usize) -> (r: Option<i16>)
        ensures
            r is Some <==> self@.readable(offset as int, 2),
            r matches Some(v) ==> v == signed(
                le_u16(self@.bytes_at(offset as int, 2)) as int,
                0x1_0000,
            ),
    {
        match self.read_u16(offset) {
            Some(v) => Some(i16_of(v)),
            None => None,
        }
    }

    /// The four bytes from `offset` on as a number, least significant byte
    /// first, or nothing where they do not all lie inside the file.
    pub fn read_u32(&self, offset: usize) -> (r: Option<u32>)
        ensures
            r is Some <==> self@.readable(offset as int, 4),
            r matches Some(v) ==> v == le_u32(self@.bytes_at(offset as int, 4)),
    {
        match self.effective_bytes::<4>(offset) {
            Some(b) => Some(u32_from_le(b)),
            None => None,
        }
    }

    /// The four bytes from `offset` on as a signed number.
    pub fn read_i32(&self, offset: usize) -> (r: Option<i32>)
        ensures
            r is Some <==> self@.readable(offset as int, 4),
            r matches Some(v) ==> v == signed(
                le_u32(self@.bytes_at(offset as int, 4)) as int,
                0x1_0000_0000,
            ),
    {
        match self.read_u32(offset) {
            Some(v) => Some(i32_of(v)),
            None => None,
        }
    }

    /// The eight bytes from `offset` on as a number, least significant byte
    /// first, or nothing where they do not all lie inside the file.
    pub fn read_u64(&self, offset: usize) -> (r: Option<u64>)
        ensures
            r is Some <==> self@.readable(offset as int, 8),
            r matches Some(v) ==> v == le_u64(self@.bytes_at(offset as int, 8)),
    {
        match self.effective_bytes::<8>(offset) {
            Some(b) => Some(u64_from_le(b)),
            None => None,
        }
    }

    /// The eight bytes from `offset` on as a signed number.
    pub fn read_i64(&self, offset: usize) -> (r: Option<i64>)
        ensures
            r is Some <==> self@.readable(offset as int, 8),
            r matches Some(v) ==> v == signed(
                le_u64(self@.bytes_at(offset as int, 8)) as int,
                0x1_0000_0000_0000_0000,
            ),
    {
        match self.read_u64(offset) {
            Some(v) => Some(i64_of(v)),
            None => None,
        }
    }
}

/// One byte to write into the file.
#[derive(Clone, Copy, Debug, PartialEq, Eq, Structural)]
pub struct Write {
    pub offset: usize,
    pub byte: u8,
}

/// Why unsaved edits did not reach the file.
#[derive(Clone, Copy, Debug, PartialEq, Eq, Structural)]
pub enum WriteError {
    /// The file is not open for writing.
    NotOpen,
    /// A write did not take exactly the one byte that it was given, or not
    /// every edit was written.
    PartialWrite,
}

/// `plan` holds one write for each edit of `edits`, and nothing else.
pub open spec fn is_write_plan(
    edits: Map<usize, PendingEdit>,
    plan: Seq<Write>,
) -> bool {
    &&& forall|i: int|
        0 <= i < plan.len() ==> edits.contains_key((#[trigger] plan[i]).offset) && plan[i].byte
            == edits[plan[i].offset].byte()
    &&& forall|i: int, j: int|
        0 <= i < j < plan.len() ==> (#[trigger] plan[i]).offset != (#[trigger] plan[j]).offset
    &&& forall|k: usize| #[trigger]
        edits.contains_key(k) ==> exists|i: int|
            0 <= i < plan.len() && (#[trigger] plan[i]).offset == k
}

/// The bytes of a file after the writes of `plan` are made, first to last.
/// A write outside the file is not made.
pub open spec fn written(bytes: Seq<u8>, plan: Seq<Write>) -> Seq<u8>
    decreases plan.len(),
{
    if plan.len() == 0 {
        bytes
    } else {
        let before = written(bytes, plan.drop_last());
        if plan.last().offset < before.len() {
            before.update(plan.last().offset as int, plan.last().byte)
        } else {
            before
        }
    }
}

/// The line that a load of the file leaves in the log.
pub open spec fn filesize_message(size: usize) -> Seq<char> {
    "filesize: "@ + decimal_text(size as nat) + " (0x"@ + hex_text(size as nat, false) + ")"@
}

/// The line that a commit of the edits leaves in the log.
pub open spec fn written_message(count: usize) -> Seq<char> {
    decimal_text(count as nat) + " bytes written to file"@
}

impl AppModel {
    /// The session after a file is loaded: the file is the one given, no
    /// edit is left unsaved, and the cursor has gone to `initial_offset` by
    /// way of the start of the file. An offset outside the file leaves the
    /// cursor where the start of the file put it.
    pub open spec fn loaded(
        self,
        path: Seq<char>,
        name: Seq<char>,
        buffer: Seq<u8>,
        read_only: bool,
        initial_offset: usize,
    ) -> AppModel {
        let opened = (AppModel {
            file_info: FileInfoModel {
                path,
                is_open: true,
                is_read_only: read_only,
                name,
                kind: file_type_of(buffer),
                buffer,
            },
            hex_view: HexViewModel { changed_bytes: Map::empty(), ..self.hex_view },
            ..self
        }).logged(filesize_message(buffer.len() as usize));
        if initial_offset != 0 {
            opened.goto(0).goto(initial_offset)
        } else {
            opened.goto(initial_offset)
        }
    }

    /// The session after the file is loaded again with the bytes `buffer`.
    pub open spec fn reloaded(self, buffer: Seq<u8>) -> AppModel {
        self.loaded(
            self.file_info.path,
            self.file_info.name,
            buffer,
            self.file_info.is_read_only,
            self.hex_view.offset,
        )
    }

    /// The page size that `visible_rows` rows of the hex view make, where
    /// they make one: at least one byte, and a number that fits.
    pub open spec fn page_size_for(self, visible_rows: usize) -> Option<usize> {
        let size = visible_rows * self.config.hex_mode_bytes_per_line;
        if 0 < size <= usize::MAX {
            Some(size as usize)
        } else {
            None
        }
    }

    /// The session after the hex view has got `visible_rows` rows. A page
    /// of another size ends where that size puts its end.
    pub open spec fn resized(self, visible_rows: usize) -> AppModel {
        match self.page_size_for(visible_rows) {
            Some(size) => if size != self.reader.page_current_size {
                AppModel {
                    reader: Reader {
                        page_current_size: size,
                        page_end: crate::global::goto::page_end_for(
                            self.reader.page_start as int,
                            size as int,
                            self.file_info.buffer.len() as int,
                        ) as usize,
                        ..self.reader
                    },
                    ..self
                }
            } else {
                self
            },
            None => self,
        }
    }

    /// Whether the session holds a file that can be written to: one was
    /// loaded, and not for reading only.
    pub open spec fn writable(self) -> bool {
        self.file_info.is_open && !self.file_info.is_read_only
    }

    /// What the commit of the edits comes to, when the writes of the plan
    /// took `lengths` bytes each: it fails where no file is open for
    /// writing (none was loaded, or one for reading only), on a write that
    /// did not take exactly one byte, and where not every edit was written.
    pub open spec fn commit_result(self, lengths: Seq<usize>) -> Result<usize, WriteError> {
        if !self.writable() {
            Err(WriteError::NotOpen)
        } else if (exists|i: int| 0 <= i < lengths.len() && lengths[i] != 1) || lengths.len()
            != self.hex_view.changed_bytes.len() {
            Err(WriteError::PartialWrite)
        } else {
            Ok(lengths.len() as usize)
        }
    }

    /// The session after the commit of the edits: where it went through, no
    /// edit is left unsaved; where it failed, every edit is kept.
    pub open spec fn committed(self, lengths: Seq<usize>) -> AppModel {
        match self.commit_result(lengths) {
            Ok(count) => (AppModel {
                hex_view: HexViewModel { changed_bytes: Map::empty(), ..self.hex_view },
                ..self
            }).logged(written_message(count)),
            Err(_) => self,
        }
    }
}

/// Writing the plan of a session's edits into its file gives the file as
/// the user saw it with the edits laid over it. A session that then loads
/// the file again holds those bytes and no unsaved edit, and shows the same
/// bytes as before.
pub proof fn lemma_commit_round_trip(app: AppModel, plan: Seq<Write>)
    requires
        app.file_info.buffer.len() <= usize::MAX,
        edits_inside(app.hex_view.changed_bytes, app.file_info.buffer.len()),
        is_write_plan(app.hex_view.changed_bytes, plan),
    ensures
        written(app.file_info.buffer, plan) == app.edited_bytes(),
        app.reloaded(app.edited_bytes()).file_info.buffer == app.edited_bytes(),
        app.reloaded(app.edited_bytes()).hex_view.changed_bytes == Map::<usize, PendingEdit>::empty(),
        app.reloaded(app.edited_bytes()).edited_bytes() == app.edited_bytes(),
{
    let bytes = app.edited_bytes();
    let opened = (AppModel {
        file_info: FileInfoModel {
            path: app.file_info.path,
            is_open: true,
            is_read_only: app.file_info.is_read_only,
            name: app.file_info.name,
            kind: file_type_of(bytes),
            buffer: bytes,
        },
        hex_view: HexViewModel { changed_bytes: Map::empty(), ..app.hex_view },
        ..app
    }).logged(filesize_message(bytes.len() as usize));
    crate::global::goto::lemma_goto_moves_only_the_cursor(opened, 0);
    crate::global::goto::lemma_goto_moves_only_the_cursor(opened, app.hex_view.offset);
    crate::global::goto::lemma_goto_moves_only_the_cursor(opened.goto(0), app.hex_view.offset);
    assert(app.reloaded(bytes).edited_bytes() =~= bytes);
    lemma_written(app.file_info.buffer, plan);
    let after = written(app.file_info.buffer, plan);
    assert forall|k: int| 0 <= k < after.len() implies after[k] == app.edited_bytes()[k] by {
        if app.hex_view.changed_bytes.contains_key(k as usize) {
            let i = choose|i: int| 0 <= i < plan.len() && (#[trigger] plan[i]).offset == k as usize;
            assert(plan[i].offset == k);
        }
    }
    assert(after =~= app.edited_bytes());
}

/// What the writes of a plan with no offset twice leave in a file: at the
/// offset of a write its byte, anywhere else the byte that was there.
proof fn lemma_written(bytes: Seq<u8>, plan: Seq<Write>)
    requires
        forall|i: int, j: int|
            0 <= i < j < plan.len() ==> (#[trigger] plan[i]).offset != (#[trigger] plan[j]).offset,
    ensures
        written(bytes, plan).len() == bytes.len(),
        forall|i: int|
            0 <= i < plan.len() && (#[trigger] plan[i]).offset < bytes.len() ==> written(
                bytes,
                plan,
            )[plan[i].offset as int] == plan[i].byte,
        forall|k: int|
            0 <= k < bytes.len() && (forall|i: int|
                0 <= i < plan.len() ==> (#[trigger] plan[i]).offset != k) ==> written(bytes, plan)[k]
                == bytes[k],
    decreases plan.len(),
{
    if plan.len() > 0 {
        let head = plan.drop_last();
        assert forall|i: int, j: int| 0 <= i < j < head.len() implies (#[trigger] head[i]).offset
            != (#[trigger] head[j]).offset by {
            assert(head[i] == plan[i] && head[j] == plan[j]);
        }
        lemma_written(bytes, head);
        let before = written(bytes, head);
        let after = written(bytes, plan);
        assert forall|i: int| 0 <= i < plan.len() && (#[trigger] plan[i]).offset
            < bytes.len() implies after[plan[i].offset as int] == plan[i].byte by {
            if i < head.len() {
                assert(head[i] == plan[i]);
                assert(plan[i].offset != plan[plan.len() - 1].offset);
            }
        }
        assert forall|k: int|
            0 <= k < bytes.len() && (forall|i: int|
                0 <= i < plan.len() ==> (#[trigger] plan[i]).offset != k) implies after[k]
            == bytes[k] by {
            assert forall|i: int| 0 <= i < head.len() implies (#[trigger] head[i]).offset != k by {
                assert(head[i] == plan[i]);
            }
            assert(plan[plan.len() - 1].offset != k);
        }
    }
}

impl App {
    /// Takes a file into the session: its path and name, its bytes, and
    /// whether it may only be read. Edits that were left unsaved are thrown
    /// away, and the cursor goes to `initial_offset`.
    pub fn load_file(
        &mut self,
        path: String,
        name: String,
        buffer: Vec<u8>,
        read_only: bool,
        initial_offset: usize,
    )
        requires
            old(self)@.wf(),
        ensures
            final(self)@ == old(self)@.loaded(path@, name@, buffer@, read_only, initial_offset),
            final(self)@.wf(),
    {
        broadcast use vstd::std_specs::hash::group_hash_axioms;

        self.file_info.path = path;
        self.file_info.name = name;
        self.file_info.is_open = true;
        self.file_info.is_read_only = read_only;
        self.file_info.buffer = buffer;
        self.id_file();
        self.hex_view.changed_bytes.clear();
        let size = self.file_info.buffer.len();
        let mut message = String::from_str("filesize: ");
        message.append(to_decimal(size).as_str());
        message.append(" (0x");
        message.append(to_hex(size, false).as_str());
        message.append(")");
        self.log(message);
        if initial_offset != 0 {
            self.goto(0);
        }
        self.goto(initial_offset);
    }

    /// Tells the kind of the file from its first byte.
    fn id_file(&mut self)
        ensures
            final(self)@ == (AppModel {
                file_info: FileInfoModel {
                    kind: file_type_of(old(self).file_info.buffer@),
                    ..old(self)@.file_info
                },
                ..old(self)@
            }),
    {
        self.file_info.kind = if self.file_info.buffer.len() == 0 {
            FileType::Unknown
        } else {
            let first = self.file_info.buffer[0];
            if first == 0x7f {
                FileType::Elf
            } else if first == 0xca || first == 0xcf {
                FileType::MachO
            } else if first == 0x4d {
                FileType::Pe
            } else {
                FileType::Unknown
            }
        };
    }

    /// Takes the file into the session again, with the bytes that it holds
    /// now. The cursor stays at its offset where the file still has it.
    pub fn reload_file(&mut self, buffer: Vec<u8>)
        requires
            old(self)@.wf(),
        ensures
            final(self)@ == old(self)@.reloaded(buffer@),
            final(self)@.wf(),
    {
        let path = self.file_info.path.clone();
        let name = self.file_info.name.clone();
        let read_only = self.file_info.is_read_only;
        let offset = self.hex_view.offset;
        self.load_file(path, name, buffer, read_only, offset);
    }

    /// Gives the hex view `visible_rows` rows: the page holds that many
    /// lines. Nothing changes where that makes no page at all.
    pub fn set_page_size(&mut self, visible_rows: usize)
        ensures
            final(self)@ == old(self)@.resized(visible_rows),
            old(self)@.wf() ==> final(self)@.wf(),
    {
        let size = match visible_rows.checked_mul(self.config.hex_mode_bytes_per_line) {
            Some(size) => size,
            None => {
                return ;
            },
        };
        if size == 0 || size == self.reader.page_current_size {
            return ;
        }
        let start = self.reader.page_start;
        let len = self.file_info.buffer.len();
        self.reader.page_current_size = size;
        self.reader.page_end = if start < len && size <= len - start {
            start + (size - 1)
        } else if start < len {
            len - 1
        } else {
            start
        };
    }

    /// The writes that take the unsaved edits into the file: one for each
    /// edit, in no particular order.
    pub fn pending_writes(&self) -> (plan: Vec<Write>)
        ensures
            is_write_plan(self@.hex_view.changed_bytes, plan@),
            plan@.len() == self@.hex_view.changed_bytes.len(),
    {
        broadcast use vstd::std_specs::hash::group_hash_axioms;

        let mut plan: Vec<Write> = Vec::new();
        let ghost edits = self.hex_view.changed_bytes@;
        let ghost pairs = self.hex_view.changed_bytes.iter().remaining();
        for entry in it: self.hex_view.changed_bytes.iter()
            invariant
                it.seq() == pairs,
                plan@.len() == it.index(),
                forall|i: int|
                    0 <= i < plan@.len() ==> (#[trigger] plan@[i]).offset == *pairs[i].0
                        && plan@[i].byte == pairs[i].1.byte(),
        {
            let (offset, edit) = entry;
            plan.push(Write { offset: *offset, byte: edit.value() });
        }
        proof {
            assert(plan@.len() == pairs.len());
            assert(pairs.len() == edits.dom().len());
            assert(pairs.no_duplicates());
            assert forall|i: int| 0 <= i < plan@.len() implies edits.contains_key(
                (#[trigger] plan@[i]).offset,
            ) && plan@[i].byte == edits[plan@[i].offset].byte() by {
                assert(edits.contains_key(*pairs[i].0));
            }
            assert forall|i: int, j: int| 0 <= i < j < plan@.len() implies (#[trigger] plan@[i]).offset
                != (#[trigger] plan@[j]).offset by {
                assert(edits.contains_key(*pairs[i].0) && edits[*pairs[i].0] == *pairs[i].1);
                assert(edits.contains_key(*pairs[j].0) && edits[*pairs[j].0] == *pairs[j].1);
                if plan@[i].offset == plan@[j].offset {
                    assert(pairs[i] == pairs[j]);
                }
            }
            assert forall|k: usize| #[trigger] edits.contains_key(k) implies exists|i: int|
                0 <= i < plan@.len() && (#[trigger] plan@[i]).offset == k by {
                assert(pairs.contains((&k, &edits[k])));
                let i = choose|i: int| 0 <= i < pairs.len() && pairs[i] == (&k, &edits[k]);
                assert(plan@[i].offset == k);
            }
        }
        plan
    }

    /// Closes the commit of the unsaved edits. `lengths` holds, for each
    /// write of the plan that was made, the number of bytes that it took.
    /// Where every edit was written, each with one byte, the edits are
    /// dropped and their number is returned; otherwise they are all kept.
    pub fn write_to_file(&mut self, lengths: &[usize]) -> (r: Result<usize, WriteError>)
        ensures
            r == old(self)@.commit_result(lengths@),
            final(self)@ == old(self)@.committed(lengths@),
            old(self)@.wf() ==> final(self)@.wf(),
    {
        broadcast use vstd::std_specs::hash::group_hash_axioms;

        if !self.file_info.is_open || self.file_info.is_read_only {
            return Err(WriteError::NotOpen);
        }
        let mut i: usize = 0;
        while i < lengths.len()
            invariant
                i <= lengths.len(),
                forall|k: int| 0 <= k < i ==> lengths[k] == 1,
                self@.writable(),
                self@ == old(self)@,
            decreases lengths.len() - i,
        {
            if lengths[i] != 1 {
                proof {
                    assert(0 <= i < lengths@.len() && lengths@[i as int] != 1);
                }
                return Err(WriteError::PartialWrite);
            }
            i += 1;
        }
        if lengths.len() != self.hex_view.changed_bytes.len() {
            return Err(WriteError::PartialWrite);
        }
        let count = lengths.len();
        self.hex_view.changed_bytes.clear();
        let mut message = to_decimal(count);
        message.append(" bytes written to file");
        self.log(message);
        Ok(count)
    }
}

} // verus!
