//! The list of comments.

use crate::app::{App, AppModel};
use crate::commands::Commands;
use crate::editor::{Dialog, UIState};
use crate::events::{KeyCode, KeyEvent};
use crate::hex::comment::{comment_views, Comment, CommentModel};
use crate::hex::draw::{label_views, list_item, list_row};
use crate::hex::hex_view::{comments_wf, HexViewModel};
use crate::widgets::{saturating_difference, saturating_sum, ListState};
use vstd::prelude::*;

verus! {

/// The number of rows that the lists of the dialogs show at a time.
pub const LIST_PAGE: u16 = 30;

/// `a` comes before `b`, or is `b`, when the two are set in order byte by
/// byte, a shorter text before the longer ones that start with it.
pub open spec fn bytes_le(a: Seq<u8>, b: Seq<u8>) -> bool
    decreases a.len(),
{
    if a.len() == 0 {
        true
    } else if b.len() == 0 {
        false
    } else if a[0] != b[0] {
        a[0] < b[0]
    } else {
        bytes_le(a.skip(1), b.skip(1))
    }
}

/// `a` comes before `b`, or is `b`, in the order of texts: that of their
/// bytes in UTF-8.
pub open spec fn text_le(a: Seq<char>, b: Seq<char>) -> bool {
    bytes_le(vstd::utf8::encode_utf8(a), vstd::utf8::encode_utf8(b))
}

/// `a` comes before `b`, or counts the same, in the order of the list: that
/// of the texts, or that of the offsets.
pub open spec fn name_le(by_text: bool, a: CommentModel, b: CommentModel) -> bool {
    if by_text {
        text_le(a.comment, b.comment)
    } else {
        a.offset <= b.offset
    }
}

/// The comments of `list` stand in rising order.
pub open spec fn is_sorted(by_text: bool, list: Seq<CommentModel>) -> bool {
    forall|i: int, j: int|
        0 <= i < j < list.len() ==> name_le(by_text, #[trigger] list[i], #[trigger] list[j])
}

/// `a` and `b` count the same in the order of the list.
pub open spec fn same_rank(by_text: bool, a: CommentModel, b: CommentModel) -> bool {
    name_le(by_text, a, b) && name_le(by_text, b, a)
}

/// The test that a comment counts the same as `x`.
pub open spec fn ranks_like(by_text: bool, x: CommentModel) -> spec_fn(CommentModel) -> bool {
    |c: CommentModel| same_rank(by_text, c, x)
}

/// The comments of `list` that count the same as `x`, in the order in which
/// they stand there.
pub open spec fn ranked_like(
    by_text: bool,
    list: Seq<CommentModel>,
    x: CommentModel,
) -> Seq<CommentModel> {
    list.filter(ranks_like(by_text, x))
}

/// The comments that count the same stand in `sorted` in the order in which
/// they stand in `list`.
pub open spec fn keeps_order(
    by_text: bool,
    list: Seq<CommentModel>,
    sorted: Seq<CommentModel>,
) -> bool {
    forall|x: CommentModel| #[trigger]
        ranked_like(by_text, sorted, x) == ranked_like(by_text, list, x)
}

/// `sorted` holds the comments of `list`, each as often, in rising order,
/// and those that count the same in the order in which they stand in
/// `list`.
pub open spec fn is_sorting(
    by_text: bool,
    list: Seq<CommentModel>,
    sorted: Seq<CommentModel>,
) -> bool {
    &&& sorted.to_multiset() == list.to_multiset()
    &&& is_sorted(by_text, sorted)
    &&& keeps_order(by_text, list, sorted)
}

/// `sorted` holds the comments of `list`, each as often, with their
/// offsets in rising order, those at one offset in the order of `list`.
pub open spec fn is_sorted_by_offset(list: Seq<CommentModel>, sorted: Seq<CommentModel>) -> bool {
    is_sorting(false, list, sorted)
}

/// `sorted` holds the comments of `list`, each as often, with their texts
/// in rising order, those with one text in the order of `list`.
pub open spec fn is_sorted_by_text(list: Seq<CommentModel>, sorted: Seq<CommentModel>) -> bool {
    is_sorting(true, list, sorted)
}

/// Tells whether `a` comes before `b`, or is `b`, in the order of texts.
pub fn text_before(a: &str, b: &str) -> (r: bool)
    ensures
        r == text_le(a@, b@),
{
    let x = a.as_bytes();
    let y = b.as_bytes();
    let mut i: usize = 0;
    proof {
        assert(x@.skip(0) =~= x@);
        assert(y@.skip(0) =~= y@);
    }
    while i < x.len() && i < y.len()
        invariant
            i <= x@.len(),
            i <= y@.len(),
            text_le(a@, b@) == bytes_le(x@.skip(i as int), y@.skip(i as int)),
        decreases x@.len() - i,
    {
        proof {
            assert(x@.skip(i as int).skip(1) =~= x@.skip(i + 1));
            assert(y@.skip(i as int).skip(1) =~= y@.skip(i + 1));
            assert(x@.skip(i as int)[0] == x@[i as int]);
            assert(y@.skip(i as int)[0] == y@[i as int]);
        }
        if x[i] != y[i] {
            return x[i] < y[i];
        }
        i += 1;
    }
    i == x.len()
}

/// Of two texts, one comes before the other or they are the same.
pub proof fn lemma_bytes_le_total(a: Seq<u8>, b: Seq<u8>)
    ensures
        bytes_le(a, b) || bytes_le(b, a),
    decreases a.len(),
{
    if a.len() > 0 && b.len() > 0 && a[0] == b[0] {
        lemma_bytes_le_total(a.skip(1), b.skip(1));
    }
}

/// What comes before a text comes before everything that the text comes
/// before.
pub proof fn lemma_bytes_le_transitive(a: Seq<u8>, b: Seq<u8>, c: Seq<u8>)
    requires
        bytes_le(a, b),
        bytes_le(b, c),
    ensures
        bytes_le(a, c),
    decreases a.len(),
{
    if a.len() > 0 && b.len() > 0 && c.len() > 0 && a[0] == b[0] && b[0] == c[0] {
        lemma_bytes_le_transitive(a.skip(1), b.skip(1), c.skip(1));
    }
}

/// What comes before a comment comes before everything that the comment
/// comes before.
pub proof fn lemma_name_le_transitive(
    by_text: bool,
    a: CommentModel,
    b: CommentModel,
    c: CommentModel,
)
    requires
        name_le(by_text, a, b),
        name_le(by_text, b, c),
    ensures
        name_le(by_text, a, c),
{
    if by_text {
        lemma_bytes_le_transitive(
            vstd::utf8::encode_utf8(a.comment),
            vstd::utf8::encode_utf8(b.comment),
            vstd::utf8::encode_utf8(c.comment),
        );
    }
}

/// Where no comment of a list passes a test, none is left of it.
proof fn lemma_filter_none(list: Seq<CommentModel>, pred: spec_fn(CommentModel) -> bool)
    requires
        forall|k: int| 0 <= k < list.len() ==> !pred(#[trigger] list[k]),
    ensures
        list.filter(pred) == Seq::<CommentModel>::empty(),
    decreases list.len(),
{
    reveal(Seq::filter);
    if list.len() > 0 {
        assert forall|k: int| 0 <= k < list.drop_last().len() implies !pred(
            #[trigger] list.drop_last()[k],
        ) by {
            assert(list.drop_last()[k] == list[k]);
        }
        lemma_filter_none(list.drop_last(), pred);
    }
    assert(list.filter(pred) =~= Seq::<CommentModel>::empty());
}

/// A comment that is taken forward past comments that come after it stays
/// in its place among those that count the same as any given one.
proof fn lemma_move_keeps_order(
    by_text: bool,
    before: Seq<CommentModel>,
    i: int,
    j: int,
    y: CommentModel,
)
    requires
        0 <= j <= i < before.len(),
        forall|k: int| j <= k < i ==> !name_le(by_text, #[trigger] before[k], before[i]),
    ensures
        ranked_like(by_text, before.remove(i).insert(j, before[i]), y) == ranked_like(
            by_text,
            before,
            y,
        ),
{
    let x = before[i];
    let pred = ranks_like(by_text, y);
    let a = before.subrange(0, j);
    let b = before.subrange(j, i);
    let c = before.subrange(i + 1, before.len() as int);
    let one = seq![x];
    let after = before.remove(i).insert(j, x);
    assert(before =~= ((a + b) + one) + c);
    assert(after =~= ((a + one) + b) + c);
    Seq::filter_distributes_over_add((a + b) + one, c, pred);
    Seq::filter_distributes_over_add(a + b, one, pred);
    Seq::filter_distributes_over_add(a, b, pred);
    Seq::filter_distributes_over_add((a + one) + b, c, pred);
    Seq::filter_distributes_over_add(a + one, b, pred);
    Seq::filter_distributes_over_add(a, one, pred);
    if same_rank(by_text, x, y) {
        assert forall|k: int| 0 <= k < b.len() implies !pred(#[trigger] b[k]) by {
            assert(b[k] == before[j + k]);
            if same_rank(by_text, b[k], y) {
                lemma_name_le_transitive(by_text, b[k], y, x);
            }
        }
        lemma_filter_none(b, pred);
    } else {
        assert(!pred(one[0]));
        lemma_filter_none(one, pred);
    }
    assert(before.filter(pred) =~= after.filter(pred));
}

/// Tells whether `a` comes before `b`, or counts the same, in the order of
/// the list.
fn name_before(by_text: bool, a: &Comment, b: &Comment) -> (r: bool)
    ensures
        r == name_le(by_text, a@, b@),
{
    if by_text {
        text_before(a.comment.as_str(), b.comment.as_str())
    } else {
        a.offset <= b.offset
    }
}

/// Puts the comments in rising order of their texts, or of their offsets.
/// Comments that count the same stay in the order in which they stood.
pub fn sort_comments(list: &mut Vec<Comment>, by_text: bool)
    ensures
        is_sorting(by_text, comment_views(old(list)@), comment_views(final(list)@)),
{
    let n = list.len();
    let ghost start = comment_views(list@);
    if n < 2 {
        return ;
    }
    let mut i: usize = 1;
    while i < n
        invariant
            list@.len() == n,
            1 <= i <= n,
            comment_views(list@).to_multiset() == start.to_multiset(),
            is_sorted(by_text, comment_views(list@).take(i as int)),
            keeps_order(by_text, start, comment_views(list@)),
        decreases n - i,
    {
        let ghost before = comment_views(list@);
        let moved = list.remove(i);
        let ghost rest = comment_views(list@);
        proof {
            assert(rest =~= before.remove(i as int));
            assert(moved@ == before[i as int]);
            assert(before.contains(before[i as int]));
        }
        let mut j: usize = i;
        while j > 0 && !name_before(by_text, &list[j - 1], &moved)
            invariant
                j <= i < n,
                list@.len() == n - 1,
                rest == comment_views(list@),
                forall|k: int| j <= k < i ==> !name_le(by_text, #[trigger] rest[k], moved@),
            decreases j,
        {
            proof {
                assert(rest[j - 1] == list@[j - 1]@);
            }
            j -= 1;
        }
        proof {
            if j > 0 {
                assert(rest[j - 1] == list@[j - 1]@);
            }
        }
        list.insert(j, moved);
        proof {
            let after = comment_views(list@);
            let x = moved@;
            assert(after =~= rest.insert(j as int, x));
            vstd::seq_lib::to_multiset_remove(before, i as int);
            vstd::seq_lib::to_multiset_insert(rest, j as int, x);
            before.to_multiset_ensures();
            assert(before.remove(i as int).to_multiset() == before.to_multiset().remove(x));
            assert(rest.insert(j as int, x).to_multiset() == rest.to_multiset().insert(x));
            assert(before.to_multiset().count(x) > 0);
            assert(before.to_multiset().remove(x).insert(x) =~= before.to_multiset());
            assert(after.to_multiset() == before.to_multiset());
            assert forall|y: CommentModel| #[trigger]
                ranked_like(by_text, after, y) == ranked_like(by_text, start, y) by {
                assert forall|k: int| j <= k < i implies !name_le(
                    by_text,
                    #[trigger] before[k],
                    before[i as int],
                ) by {
                    assert(before[k] == rest[k]);
                }
                lemma_move_keeps_order(by_text, before, i as int, j as int, y);
                assert(ranked_like(by_text, before, y) == ranked_like(by_text, start, y));
            }
            let head = after.take(i + 1);
            assert forall|a: int, b: int| 0 <= a < b < head.len() implies name_le(
                by_text,
                #[trigger] head[a],
                #[trigger] head[b],
            ) by {
                let x = moved@;
                let old_head = before.take(i as int);
                if b < j {
                    assert(head[a] == old_head[a] && head[b] == old_head[b]);
                } else if b == j {
                    assert(head[a] == old_head[a]);
                    assert(rest[j - 1] == old_head[j - 1]);
                    if a < j - 1 {
                        assert(name_le(by_text, old_head[a], old_head[j - 1]));
                    }
                    if by_text && a < j - 1 {
                        lemma_bytes_le_transitive(
                            vstd::utf8::encode_utf8(head[a].comment),
                            vstd::utf8::encode_utf8(rest[j - 1].comment),
                            vstd::utf8::encode_utf8(x.comment),
                        );
                    }
                } else if a == j {
                    assert(head[b] == rest[b - 1]);
                    assert(!name_le(by_text, rest[b - 1], x));
                    if by_text {
                        lemma_bytes_le_total(
                            vstd::utf8::encode_utf8(x.comment),
                            vstd::utf8::encode_utf8(rest[b - 1].comment),
                        );
                    }
                } else if a < j {
                    assert(head[a] == old_head[a] && head[b] == old_head[b - 1]);
                } else {
                    assert(head[a] == old_head[a - 1] && head[b] == old_head[b - 1]);
                }
            }
        }
        i += 1;
    }
    proof {
        assert(comment_views(list@).take(i as int) =~= comment_views(list@));
    }
}

/// A list of comments that is put in another order stays in step with the
/// map of comments.
pub proof fn lemma_reordered_comments_wf(
    list: Seq<CommentModel>,
    reordered: Seq<CommentModel>,
    map: Map<usize, Seq<char>>,
)
    requires
        comments_wf(list, map),
        reordered.to_multiset() == list.to_multiset(),
    ensures
        comments_wf(reordered, map),
{
    broadcast use vstd::seq_lib::group_to_multiset_ensures;

    assert forall|i: int| 0 <= i < reordered.len() implies list.contains(
        #[trigger] reordered[i],
    ) by {
        assert(reordered.contains(reordered[i]));
        assert(reordered.to_multiset().count(reordered[i]) > 0);
    }
    assert forall|i: int| 0 <= i < list.len() implies reordered.contains(#[trigger] list[i]) by {
        assert(list.contains(list[i]));
        assert(list.to_multiset().count(list[i]) > 0);
    }
    assert(list.no_duplicates());
    list.lemma_multiset_has_no_duplicates();
    reordered.lemma_multiset_has_no_duplicates_conv();
    assert forall|i: int, j: int| 0 <= i < j < reordered.len() implies reordered[i].offset
        != reordered[j].offset by {
        assert(list.contains(reordered[i]));
        assert(list.contains(reordered[j]));
        let a = choose|a: int| 0 <= a < list.len() && list[a] == reordered[i];
        let b = choose|b: int| 0 <= b < list.len() && list[b] == reordered[j];
        if reordered[i].offset == reordered[j].offset {
            assert(a == b);
        }
    }
    assert forall|i: int| 0 <= i < reordered.len() implies map.contains_key(
        (#[trigger] reordered[i]).offset,
    ) && map[reordered[i].offset] == reordered[i].comment by {
        assert(list.contains(reordered[i]));
        let a = choose|a: int| 0 <= a < list.len() && list[a] == reordered[i];
        assert(map.contains_key(list[a].offset));
    }
    assert forall|k: usize| #[trigger] map.contains_key(k) implies exists|i: int|
        0 <= i < reordered.len() && (#[trigger] reordered[i]).offset == k by {
        let a = choose|a: int| 0 <= a < list.len() && (#[trigger] list[a]).offset == k;
        assert(reordered.contains(list[a]));
        let b = choose|b: int| 0 <= b < reordered.len() && reordered[b] == list[a];
        assert(reordered[b].offset == k);
    }
}

impl ListState {
    /// The list after a key that moves through it: the arrows and `j`, `k`
    /// by a row, the page keys by a page, Home and End to the top and the
    /// bottom of the page, and with Control to the first and last row.
    pub open spec fn moved(self, key: KeyEvent) -> ListState {
        match key.code {
            KeyCode::Down => self.next(),
            KeyCode::Up => self.previous(),
            KeyCode::Char(c) => if c == 'j' {
                self.next()
            } else if c == 'k' {
                self.previous()
            } else {
                self
            },
            KeyCode::PageDown => self.down_by(LIST_PAGE),
            KeyCode::PageUp => self.up_by(LIST_PAGE),
            KeyCode::Home => if key.modifiers.control {
                ListState { selected: Some(0usize) }
            } else {
                match self.selected {
                    Some(row) => ListState {
                        selected: Some(saturating_difference(row, (LIST_PAGE - 1) as usize)),
                    },
                    None => self,
                }
            },
            KeyCode::End => if key.modifiers.control {
                ListState { selected: Some(usize::MAX) }
            } else {
                match self.selected {
                    Some(row) => ListState {
                        selected: Some(saturating_sum(row, (LIST_PAGE - 1) as usize)),
                    },
                    None => self,
                }
            },
            _ => self,
        }
    }

    /// Moves through the list as the key asks.
    pub fn move_by_key(&mut self, key: KeyEvent)
        ensures
            *final(self) == old(self).moved(key),
    {
        match key.code {
            KeyCode::Down => self.select_next(),
            KeyCode::Up => self.select_previous(),
            KeyCode::Char(c) => {
                if c == 'j' {
                    self.select_next();
                } else if c == 'k' {
                    self.select_previous();
                }
            },
            KeyCode::PageDown => self.scroll_down_by(LIST_PAGE),
            KeyCode::PageUp => self.scroll_up_by(LIST_PAGE),
            KeyCode::Home => {
                if key.modifiers.control {
                    self.select_first();
                } else {
                    match self.selected {
                        Some(row) => self.select(Some(row.saturating_sub((LIST_PAGE - 1) as usize))),
                        None => {},
                    }
                }
            },
            KeyCode::End => {
                if key.modifiers.control {
                    self.select_last();
                } else {
                    match self.selected {
                        Some(row) => self.select(Some(row.saturating_add((LIST_PAGE - 1) as usize))),
                        None => {},
                    }
                }
            },
            _ => {},
        }
    }
}

/// The key acts on the list of comments itself, not on the row picked.
pub open spec fn is_names_command(key: KeyEvent) -> bool {
    match key.code {
        KeyCode::Esc | KeyCode::Enter => true,
        KeyCode::Char(c) => c == 'D' || c == 'f' || c == 'o' || c == 'n',
        _ => false,
    }
}

impl AppModel {
    /// The session with the comments listed as `list`.
    pub open spec fn with_names(self, list: Seq<CommentModel>) -> AppModel {
        AppModel {
            hex_view: HexViewModel { comment_name_list: list, ..self.hex_view },
            ..self
        }
    }

    /// The row picked in the list of comments lies past the end of the list.
    pub open spec fn name_row_missing(self) -> bool {
        match self.hex_view.names_list_state.selected {
            Some(row) => row >= self.hex_view.comment_name_list.len(),
            None => false,
        }
    }

    /// The session after Enter in the list of comments: the cursor goes to
    /// the comment picked and the list is closed. A row past the end of the
    /// list changes nothing.
    pub open spec fn name_chosen(self) -> AppModel {
        match self.hex_view.names_list_state.selected {
            Some(row) => if row < self.hex_view.comment_name_list.len() {
                self.goto(self.hex_view.comment_name_list[row as int].offset).closed()
            } else {
                self
            },
            None => self.closed(),
        }
    }

    /// `after` is the session after a key is pressed in the list of
    /// comments. Escape closes the list, Enter goes to the comment picked,
    /// `D` takes all comments away, `f` asks for a pattern, `o` and `n`
    /// put the list in the order of the offsets and of the texts, and the
    /// other keys move through the list.
    pub open spec fn names_events(self, key: KeyEvent, after: AppModel) -> bool {
        match key.code {
            KeyCode::Esc => after == self.closed(),
            KeyCode::Enter => after == self.name_chosen(),
            KeyCode::Char(c) => if c == 'D' {
                after == self.without_comments()
            } else if c == 'f' {
                after == (AppModel {
                    state: UIState::DialogNamesRegex,
                    dialog_2nd_renderer: Some(Dialog::NamesRegex),
                    ..self
                })
            } else if c == 'o' {
                after == self.with_names(after.hex_view.comment_name_list) && is_sorted_by_offset(
                    self.hex_view.comment_name_list,
                    after.hex_view.comment_name_list,
                )
            } else if c == 'n' {
                after == self.with_names(after.hex_view.comment_name_list) && is_sorted_by_text(
                    self.hex_view.comment_name_list,
                    after.hex_view.comment_name_list,
                )
            } else {
                after == (AppModel {
                    hex_view: HexViewModel {
                        names_list_state: self.hex_view.names_list_state.moved(key),
                        ..self.hex_view
                    },
                    ..self
                })
            },
            _ => after == (AppModel {
                hex_view: HexViewModel {
                    names_list_state: self.hex_view.names_list_state.moved(key),
                    ..self.hex_view
                },
                ..self
            }),
        }
    }

    /// `after` is the session after a key is pressed in the dialog that
    /// asks for the pattern of the list of comments. Escape goes back to
    /// the list; Enter takes the pattern `value` and has the strings of the
    /// file listed anew.
    pub open spec fn names_regex_events(self, key: KeyEvent, value: Seq<char>, after: AppModel) -> bool {
        let back = AppModel {
            dialog_2nd_renderer: None,
            state: UIState::DialogNames,
            ..self
        };
        match key.code {
            KeyCode::Esc => after == back,
            KeyCode::Enter => {
                let taken = AppModel {
                    hex_view: HexViewModel { names_regex: value, ..back.hex_view },
                    ..back
                };
                &&& after == (AppModel { strings: after.strings, ..taken })
                &&& taken.strings_loaded(true, after.strings)
            },
            _ => after == self,
        }
    }
}

impl App {
    /// Goes to the comment that is picked in the list of comments.
    fn choose_name(&mut self) -> (refused: bool)
        requires
            old(self)@.wf(),
        ensures
            final(self)@ == old(self)@.name_chosen(),
            refused == old(self)@.name_row_missing(),
            final(self)@.wf(),
    {
        match self.hex_view.names_list_state.selected {
            Some(row) => {
                if row >= self.hex_view.comment_name_list.len() {
                    return true;
                }
                proof {
                    assert(self@.hex_view.comment_name_list[row as int]
                        == self.hex_view.comment_name_list@[row as int]@);
                }
                self.goto(self.hex_view.comment_name_list[row].offset);
            },
            None => {},
        }
        self.close_dialog();
        false
    }

    /// Puts the list of comments in the order of the offsets, or of the
    /// texts.
    fn sort_names(&mut self, by_text: bool)
        requires
            old(self)@.wf(),
        ensures
            final(self)@ == old(self)@.with_names(final(self)@.hex_view.comment_name_list),
            if by_text {
                is_sorted_by_text(
                    old(self)@.hex_view.comment_name_list,
                    final(self)@.hex_view.comment_name_list,
                )
            } else {
                is_sorted_by_offset(
                    old(self)@.hex_view.comment_name_list,
                    final(self)@.hex_view.comment_name_list,
                )
            },
            final(self)@.wf(),
    {
        sort_comments(&mut self.hex_view.comment_name_list, by_text);
        proof {
            lemma_reordered_comments_wf(
                old(self)@.hex_view.comment_name_list,
                self@.hex_view.comment_name_list,
                self@.hex_view.comments,
            );
        }
    }
}

/// Handles a key pressed in the list of comments.
pub fn dialog_names_events(app: &mut App, key: KeyEvent) -> (refused: bool)
    requires
        old(app)@.wf(),
    ensures
        old(app)@.names_events(key, final(app)@),
        refused == (key.code == KeyCode::Enter && old(app)@.name_row_missing()),
        final(app)@.wf(),
{
    match key.code {
        KeyCode::Esc => {
            app.close_dialog();
        },
        KeyCode::Enter => {
            return app.choose_name();
        },
        KeyCode::Char(c) => {
            if c == 'D' {
                app.clear_comments();
            } else if c == 'f' {
                app.state = UIState::DialogNamesRegex;
                app.dialog_2nd_renderer = Some(Dialog::NamesRegex);
            } else if c == 'o' {
                app.sort_names(false);
            } else if c == 'n' {
                app.sort_names(true);
            } else {
                app.hex_view.names_list_state.move_by_key(key);
            }
        },
        _ => {
            app.hex_view.names_list_state.move_by_key(key);
        },
    }
    false
}

/// Handles a key pressed in the dialog that asks for the pattern of the list
/// of comments. `value` is the text that the dialog holds.
pub fn dialog_names_regex_events(app: &mut App, key: KeyEvent, value: String) -> (refused: bool)
    ensures
        old(app)@.names_regex_events(key, value@, final(app)@),
        !refused,
        old(app)@.wf() ==> final(app)@.wf(),
{
    match key.code {
        KeyCode::Esc => {
            app.dialog_2nd_renderer = None;
            app.state = UIState::DialogNames;
        },
        KeyCode::Enter => {
            app.hex_view.names_regex = value;
            app.dialog_2nd_renderer = None;
            app.state = UIState::DialogNames;
            Commands::load_strings(app, true);
        },
        _ => {},
    }
    false
}

impl AppModel {
    /// The rows that the list of comments shows: one for each comment.
    pub open spec fn name_rows(self) -> Seq<Seq<char>> {
        Seq::new(
            self.hex_view.comment_name_list.len(),
            |i: int|
                list_row(
                    self.hex_view.comment_name_list[i].offset,
                    self.hex_view.comment_name_list[i].comment,
                ),
        )
    }
}

/// The rows of the list of comments.
pub fn dialog_names_draw(app: &App) -> (rows: Vec<String>)
    ensures
        label_views(rows@) == app@.name_rows(),
{
    let mut rows: Vec<String> = Vec::new();
    let mut i: usize = 0;
    while i < app.hex_view.comment_name_list.len()
        invariant
            i <= app.hex_view.comment_name_list.len(),
            rows@.len() == i,
            forall|k: int| 0 <= k < i ==> (#[trigger] rows@[k])@ == app@.name_rows()[k],
        decreases app.hex_view.comment_name_list.len() - i,
    {
        let comment = &app.hex_view.comment_name_list[i];
        proof {
            assert(app@.hex_view.comment_name_list[i as int] == comment@);
        }
        rows.push(list_item(comment.offset, comment.comment.as_str()));
        i += 1;
    }
    proof {
        assert(label_views(rows@) =~= app@.name_rows());
    }
    rows
}

} // verus!
