//! The state of the hex view.

use crate::hex::comment::{comment_texts, comment_views, Comment, CommentModel};
use crate::hex::search::{Search, SearchModel};
use crate::hex::selection::Selection;
use crate::widgets::ListState;
use std::collections::{HashMap, HashSet};
use vstd::prelude::*;

verus! {

/// Where the cursor stands on the page: column and row.
#[derive(Clone, Copy, Debug, PartialEq, Eq, Structural)]
pub struct Point {
    pub x: usize,
    pub y: usize,
}

impl Default for Point {
    fn default() -> (p: Self)
        ensures
            p == (Point { x: 0, y: 0 }),
    {
        Point { x: 0, y: 0 }
    }
}

/// A byte value that was typed over an offset and is not yet in the file.
#[derive(Clone, Copy, Debug, PartialEq, Eq, Structural)]
pub enum PendingEdit {
    /// One hexadecimal digit was typed: the byte is half entered.
    Half(u8),
    /// The byte is complete.
    Full(u8),
}

impl PendingEdit {
    /// A half-entered byte holds one hexadecimal digit.
    pub open spec fn wf(self) -> bool {
        self matches PendingEdit::Half(digit) ==> digit < 16
    }

    /// The byte that the edit stands for: a single digit counts as the low
    /// half of the byte.
    pub open spec fn byte(self) -> u8 {
        match self {
            PendingEdit::Half(digit) => digit,
            PendingEdit::Full(byte) => byte,
        }
    }

    /// The edit as the user typed it: one hexadecimal digit, or two.
    pub open spec fn text(self) -> Seq<char> {
        match self {
            PendingEdit::Half(digit) => seq![crate::util::hex_digit(digit as int, true)],
            PendingEdit::Full(byte) => crate::util::byte_hex(byte),
        }
    }

    /// The edit after the hexadecimal digit `digit` is typed over it: a
    /// half-entered byte is completed, a complete one is begun again.
    pub open spec fn typed(self, digit: u8) -> PendingEdit {
        match self {
            PendingEdit::Half(high) => PendingEdit::Full((high * 16 + digit) as u8),
            PendingEdit::Full(_) => PendingEdit::Half(digit),
        }
    }

    /// The byte that the edit stands for.
    pub fn value(&self) -> (b: u8)
        ensures
            b == self.byte(),
    {
        match self {
            PendingEdit::Half(digit) => *digit,
            PendingEdit::Full(byte) => *byte,
        }
    }

    /// The edit as the user typed it: one hexadecimal digit, or two.
    pub fn to_text(&self) -> (s: String)
        requires
            self.wf(),
        ensures
            s@ == self.text(),
    {
        match self {
            PendingEdit::Half(digit) => {
                let mut s = String::new();
                crate::util::push_char(&mut s, crate::util::hex_char(*digit, true));
                s
            },
            PendingEdit::Full(byte) => crate::util::byte_to_hex(*byte),
        }
    }
}

/// The state of the hex view: cursor, unsaved edits, selection, bookmarks
/// and comments.
#[derive(Debug)]
pub struct HexView {
    pub bookmarks: Vec<usize>,
    pub changed_bytes: HashMap<usize, PendingEdit>,
    /// The comments in the order in which they are listed.
    pub comment_name_list: Vec<Comment>,
    /// The comments by offset.
    pub comments: HashMap<usize, String>,
    pub cursor: Point,
    /// Keys typed while editing are hexadecimal digits, not characters.
    pub editing_hex: bool,
    /// Byte values that are drawn highlighted.
    pub highlights: HashSet<u8>,
    pub last_visited_offset: usize,
    /// The row of the list of comments that is picked.
    pub names_list_state: ListState,
    pub names_regex: String,
    pub offset: usize,
    pub search: Search,
    pub selection: Selection,
}

/// What a `HexView` holds, as plain values.
pub struct HexViewModel {
    pub bookmarks: Seq<usize>,
    pub changed_bytes: Map<usize, PendingEdit>,
    pub comment_name_list: Seq<CommentModel>,
    pub comments: Map<usize, Seq<char>>,
    pub cursor: Point,
    pub editing_hex: bool,
    pub highlights: Set<u8>,
    pub last_visited_offset: usize,
    pub names_list_state: ListState,
    pub names_regex: Seq<char>,
    pub offset: usize,
    pub search: SearchModel,
    pub selection: Selection,
}

impl View for HexView {
    type V = HexViewModel;

    open spec fn view(&self) -> HexViewModel {
        HexViewModel {
            bookmarks: self.bookmarks@,
            changed_bytes: self.changed_bytes@,
            comment_name_list: comment_views(self.comment_name_list@),
            comments: comment_texts(self.comments@),
            cursor: self.cursor,
            editing_hex: self.editing_hex,
            highlights: self.highlights@,
            last_visited_offset: self.last_visited_offset,
            names_list_state: self.names_list_state,
            names_regex: self.names_regex@,
            offset: self.offset,
            search: self.search@,
            selection: self.selection,
        }
    }
}

impl HexViewModel {
    /// A hex view with the cursor at offset 0 and nothing else in it.
    pub open spec fn initial() -> HexViewModel {
        HexViewModel {
            bookmarks: Seq::empty(),
            changed_bytes: Map::empty(),
            comment_name_list: Seq::empty(),
            comments: Map::empty(),
            cursor: Point { x: 0, y: 0 },
            editing_hex: true,
            highlights: Set::empty(),
            last_visited_offset: 0,
            names_list_state: ListState { selected: None },
            names_regex: Seq::empty(),
            offset: 0,
            search: SearchModel {
                input_text: Seq::empty(),
                mode: crate::hex::search::SearchMode::Utf8,
                input_hex: Seq::empty(),
            },
            selection: Selection { start: 0, end: 0, direction: None },
        }
    }

    /// No more bookmarks than there may be, unsaved edits in order, the two
    /// records of the comments in step, and the selection the right way
    /// round.
    pub open spec fn wf(self) -> bool {
        &&& self.bookmarks.len() <= crate::config::MAX_BOOKMARKS
        &&& edits_wf(self.changed_bytes)
        &&& comments_wf(self.comment_name_list, self.comments)
        &&& self.selection.start <= self.selection.end
    }
}

/// Every half-entered byte of `edits` holds one hexadecimal digit.
pub open spec fn edits_wf(edits: Map<usize, PendingEdit>) -> bool {
    forall|k: usize| #[trigger] edits.contains_key(k) ==> edits[k].wf()
}

/// The list of comments names each offset once, and it and the map hold the
/// same comments.
pub open spec fn comments_wf(list: Seq<CommentModel>, map: Map<usize, Seq<char>>) -> bool {
    &&& forall|i: int, j: int| 0 <= i < j < list.len() ==> list[i].offset != list[j].offset
    &&& forall|i: int|
        0 <= i < list.len() ==> map.contains_key((#[trigger] list[i]).offset) && map[list[i].offset]
            == list[i].comment
    &&& forall|k: usize| #[trigger]
        map.contains_key(k) ==> exists|i: int| 0 <= i < list.len() && (#[trigger] list[i]).offset == k
}

impl HexView {
    /// A hex view with the cursor at offset 0 and nothing else in it.
    pub fn new() -> (h: Self)
        ensures
            h@ == HexViewModel::initial(),
            h@.wf(),
    {
        broadcast use vstd::std_specs::hash::group_hash_axioms;

        let h = HexView {
            bookmarks: Vec::new(),
            changed_bytes: HashMap::new(),
            comment_name_list: Vec::new(),
            comments: HashMap::new(),
            cursor: Point { x: 0, y: 0 },
            editing_hex: true,
            highlights: HashSet::new(),
            last_visited_offset: 0,
            names_list_state: ListState { selected: None },
            names_regex: String::new(),
            offset: 0,
            search: Search::new(),
            selection: Selection { start: 0, end: 0, direction: None },
        };
        proof {
            assert(h@.comment_name_list =~= Seq::empty());
            assert(h@.comments =~= Map::empty());
            assert(h@.bookmarks =~= Seq::empty());
        }
        h
    }
}

} // verus!
