//! What the text view shows of the page.

use crate::app::{App, AppModel, Encoding, TextView};
use crate::util::push_char;
use vstd::prelude::*;

verus! {

broadcast use vstd::string::group_string_axioms;

/// The most bytes that are decoded at a time.
pub const DECODE_LIMIT: usize = usize::MAX / 4;

/// What the bytes `bytes` decode to in the encoding `table`: the text, with
/// a replacement character where the bytes are malformed, and whether any
/// were. A byte order mark at the start of the bytes decides the encoding
/// and is no part of the text.
pub uninterp spec fn decoded(table: Encoding, bytes: Seq<u8>) -> (Seq<char>, bool);

/// `encoding_rs::Encoding::decode`: decodes the bytes in the encoding that
/// `table` names.
#[verifier::external_body]
pub(crate) fn decode(table: Encoding, bytes: &[u8]) -> (r: (String, bool))
    requires
        bytes@.len() <= DECODE_LIMIT,
    ensures
        r.0@ == decoded(table, bytes@).0,
        r.1 == decoded(table, bytes@).1,
{
    let encoding = match table {
        Encoding::Utf8 => encoding_rs::UTF_8,
        Encoding::Windows1252 => encoding_rs::WINDOWS_1252,
        Encoding::Iso8859_2 => encoding_rs::ISO_8859_2,
        Encoding::Utf16Le => encoding_rs::UTF_16LE,
        Encoding::Utf16Be => encoding_rs::UTF_16BE,
    };
    let (text, _, had_errors) = encoding.decode(bytes);
    (text.into_owned(), had_errors)
}

/// The character as a text with malformed parts shows it: itself where it
/// is a graphic ASCII character, else a space.
pub open spec fn plain_char(c: char) -> char {
    if '!' <= c <= '~' {
        c
    } else {
        ' '
    }
}

/// The text with every character that is not graphic ASCII turned into a
/// space.
pub open spec fn plain_text(text: Seq<char>) -> Seq<char> {
    Seq::new(text.len(), |i: int| plain_char(text[i]))
}

/// The number of line feeds in the text.
pub open spec fn line_feeds(text: Seq<char>) -> nat
    decreases text.len(),
{
    if text.len() == 0 {
        0
    } else {
        line_feeds(text.drop_last()) + if text.last() == '\n' {
            1nat
        } else {
            0nat
        }
    }
}

/// The number of lines of the text: a line ends with a line feed, and the
/// last line need not.
pub open spec fn line_count(text: Seq<char>) -> nat {
    if text.len() > 0 && text.last() != '\n' {
        line_feeds(text) + 1
    } else {
        line_feeds(text)
    }
}

impl AppModel {
    /// The bytes that an area of `width` by `height` of the text view is
    /// filled from: as many bytes as the area has cells, from the start of
    /// the page on, as far as the file goes.
    pub open spec fn text_bytes(self, width: u16, height: u16) -> Seq<u8> {
        let start = self.reader.page_start as int;
        let size = self.file_info.buffer.len() as int;
        let cells = width * height;
        let limit = if cells <= DECODE_LIMIT {
            cells
        } else {
            DECODE_LIMIT as int
        };
        if start >= size {
            Seq::empty()
        } else if size - start <= limit {
            self.file_info.buffer.subrange(start, size)
        } else {
            self.file_info.buffer.subrange(start, start + limit)
        }
    }

    /// The text that the text view shows in an area of `width` by
    /// `height`: what the bytes decode to, with everything but graphic
    /// ASCII blanked out where the bytes are malformed.
    pub open spec fn text_shown(self, width: u16, height: u16) -> Seq<char> {
        let (text, malformed) = decoded(self.text_view.table, self.text_bytes(width, height));
        if malformed {
            plain_text(text)
        } else {
            text
        }
    }
}

/// Turns every character that is not graphic ASCII into a space.
pub fn plain(text: &str) -> (r: String)
    ensures
        r@ == plain_text(text@),
{
    let mut r = String::new();
    for c in it: text.chars()
        invariant
            it.seq() == text@,
            r@ == plain_text(text@.take(it.index())),
    {
        let ghost before = r@;
        push_char(
            &mut r,
            if '!' <= c && c <= '~' {
                c
            } else {
                ' '
            },
        );
        proof {
            assert(r@ =~= plain_text(text@.take(it.index() + 1)));
        }
    }
    proof {
        assert(text@.take(text@.len() as int) =~= text@);
    }
    r
}

/// Counts the lines of a text.
pub fn count_lines(text: &str) -> (n: usize)
    requires
        text@.len() < usize::MAX,
    ensures
        n == line_count(text@),
{
    let mut feeds: usize = 0;
    let mut open_line = false;
    for c in it: text.chars()
        invariant
            it.seq() == text@,
            text@.len() < usize::MAX,
            feeds == line_feeds(text@.take(it.index())),
            feeds <= it.index(),
            open_line == (it.index() > 0 && text@[it.index() - 1] != '\n'),
    {
        proof {
            assert(text@.take(it.index() + 1).drop_last() =~= text@.take(it.index()));
        }
        if c == '\n' {
            feeds += 1;
            open_line = false;
        } else {
            open_line = true;
        }
    }
    proof {
        assert(text@.take(text@.len() as int) =~= text@);
    }
    if open_line {
        feeds + 1
    } else {
        feeds
    }
}

/// The text that the text view shows in an area of `width` by `height`.
/// The text view takes note of the height of the area and of the number of
/// lines of the text.
pub fn text_contents_draw(app: &mut App, width: u16, height: u16) -> (text: String)
    ensures
        text@ == old(app)@.text_shown(width, height),
        final(app)@ == (AppModel {
            text_view: TextView {
                area_height: height,
                lines_to_show: if text@.len() < usize::MAX {
                    line_count(text@) as usize
                } else {
                    old(app).text_view.lines_to_show
                },
                ..old(app).text_view
            },
            ..old(app)@
        }),
        old(app)@.wf() ==> final(app)@.wf(),
{
    let start = app.reader.page_start;
    let size = app.file_info.buffer.len();
    assert(width * height <= 0xffff * 0xffff) by (nonlinear_arith)
        requires
            width <= 0xffff,
            height <= 0xffff,
    ;
    let cells = width as usize * height as usize;
    let limit = if cells <= DECODE_LIMIT {
        cells
    } else {
        DECODE_LIMIT
    };
    let (from, to) = if start >= size {
        (0, 0)
    } else if size - start <= limit {
        (start, size)
    } else {
        (start, start + limit)
    };
    let bytes = vstd::slice::slice_subrange(app.file_info.buffer.as_slice(), from, to);
    proof {
        assert(bytes@ =~= app@.text_bytes(width, height));
    }
    let (decoded_text, malformed) = decode(app.text_view.table, bytes);
    let text = if malformed {
        plain(decoded_text.as_str())
    } else {
        decoded_text
    };
    app.text_view.area_height = height;
    if text.as_str().unicode_len() < usize::MAX {
        app.text_view.lines_to_show = count_lines(text.as_str());
    }
    text
}

} // verus!
