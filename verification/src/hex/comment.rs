//! Comments on offsets.

use crate::app::{App, AppModel};
use crate::commands::Commands;
use crate::editor::UIState;
use crate::events::{InputAction, InputActionModel, KeyCode, KeyEvent};
use crate::hex::hex_view::{comments_wf, HexViewModel};
use vstd::prelude::*;

verus! {

broadcast use vstd::std_specs::hash::group_hash_axioms;

/// A note that the user left at an offset.
#[derive(Debug)]
pub struct Comment {
    pub offset: usize,
    pub comment: String,
}

/// A `Comment`, with its text as a plain value.
pub struct CommentModel {
    pub offset: usize,
    pub comment: Seq<char>,
}

impl View for Comment {
    type V = CommentModel;

    open spec fn view(&self) -> CommentModel {
        CommentModel { offset: self.offset, comment: self.comment@ }
    }
}

impl Clone for Comment {
    fn clone(&self) -> (c: Self)
        ensures
            c == *self,
    {
        Comment { offset: self.offset, comment: self.comment.clone() }
    }
}

/// The comments of a list, each as what it says.
pub open spec fn comment_views(list: Seq<Comment>) -> Seq<CommentModel> {
    Seq::new(list.len(), |i: int| list[i]@)
}

/// The texts of a map of comments.
pub open spec fn comment_texts(map: Map<usize, String>) -> Map<usize, Seq<char>> {
    Map::new(|k: usize| map.contains_key(k), |k: usize| map[k]@)
}

/// Tells the comments that are not at `offset`.
pub open spec fn not_at(offset: usize) -> spec_fn(CommentModel) -> bool {
    |c: CommentModel| c.offset != offset
}

impl AppModel {
    /// The session with the comments at `offset` taken off the list.
    pub open spec fn uncommented(self, offset: usize) -> AppModel {
        AppModel {
            hex_view: HexViewModel {
                comment_name_list: self.hex_view.comment_name_list.filter(not_at(offset)),
                ..self.hex_view
            },
            ..self
        }
    }

    /// The session with the comment at `offset` set to `text`. An empty
    /// text takes the comment away; any other replaces what was there and
    /// goes to the end of the list.
    pub open spec fn with_comment(self, offset: usize, text: Seq<char>) -> AppModel {
        let rest = self.hex_view.comment_name_list.filter(not_at(offset));
        AppModel {
            hex_view: HexViewModel {
                comment_name_list: if text.len() == 0 {
                    rest
                } else {
                    rest.push(CommentModel { offset, comment: text })
                },
                comments: if text.len() == 0 {
                    self.hex_view.comments.remove(offset)
                } else {
                    self.hex_view.comments.insert(offset, text)
                },
                ..self.hex_view
            },
            ..self
        }
    }

    /// The session after the user has set the comment at `offset`: the
    /// comment is set, and the dialog that asked for it is closed.
    pub open spec fn commented(self, offset: usize, text: Seq<char>) -> AppModel {
        AppModel {
            dialog_renderer: None,
            state: UIState::Normal,
            ..self.with_comment(offset, text)
        }
    }

    /// The session with no comment in it.
    pub open spec fn without_comments(self) -> AppModel {
        AppModel {
            hex_view: HexViewModel {
                comment_name_list: Seq::empty(),
                comments: Map::empty(),
                ..self.hex_view
            },
            ..self
        }
    }
}

/// What is left of a list when the comments at `offset` are taken out: the
/// other comments, each where it was among them.
pub proof fn lemma_filter_not_at(list: Seq<CommentModel>, offset: usize)
    ensures
        forall|i: int|
            0 <= i < list.filter(not_at(offset)).len() ==> (#[trigger] list.filter(
                not_at(offset),
            )[i]).offset != offset && list.contains(list.filter(not_at(offset))[i]),
        forall|i: int|
            0 <= i < list.len() && list[i].offset != offset ==> list.filter(
                not_at(offset),
            ).contains(#[trigger] list[i]),
        (forall|i: int, j: int| 0 <= i < j < list.len() ==> list[i].offset != list[j].offset)
            ==> (forall|i: int, j: int|
            0 <= i < j < list.filter(not_at(offset)).len() ==> list.filter(not_at(offset))[i].offset
                != list.filter(not_at(offset))[j].offset),
    decreases list.len(),
{
    reveal(Seq::filter);
    let kept = list.filter(not_at(offset));
    if list.len() > 0 {
        let head = list.drop_last();
        let head_kept = head.filter(not_at(offset));
        lemma_filter_not_at(head, offset);
        assert forall|i: int| 0 <= i < kept.len() implies (#[trigger] kept[i]).offset != offset
            && list.contains(kept[i]) by {
            if i < head_kept.len() {
                assert(kept[i] == head_kept[i]);
                assert(head.contains(head_kept[i]));
                let k = choose|k: int| 0 <= k < head.len() && head[k] == head_kept[i];
                assert(list[k] == kept[i]);
            } else {
                assert(kept[i] == list.last());
                assert(list[list.len() - 1] == kept[i]);
            }
        }
        assert forall|i: int| 0 <= i < list.len() && list[i].offset != offset implies kept.contains(
            #[trigger] list[i],
        ) by {
            if i < head.len() {
                assert(head[i] == list[i]);
                assert(head_kept.contains(head[i]));
                let k = choose|k: int| 0 <= k < head_kept.len() && head_kept[k] == head[i];
                assert(kept[k] == list[i]);
            } else {
                assert(kept[kept.len() - 1] == list[i]);
            }
        }
        if forall|i: int, j: int| 0 <= i < j < list.len() ==> list[i].offset != list[j].offset {
            assert forall|i: int, j: int| 0 <= i < j < head.len() implies head[i].offset
                != head[j].offset by {
                assert(head[i] == list[i] && head[j] == list[j]);
            }
            assert forall|i: int, j: int| 0 <= i < j < kept.len() implies kept[i].offset
                != kept[j].offset by {
                if j < head_kept.len() {
                    assert(kept[i] == head_kept[i] && kept[j] == head_kept[j]);
                } else {
                    assert(kept[j] == list.last());
                    assert(kept[i] == head_kept[i]);
                    assert(head.contains(head_kept[i]));
                    let k = choose|k: int| 0 <= k < head.len() && head[k] == head_kept[i];
                    assert(list[k] == kept[i]);
                }
            }
        }
    }
}

/// Setting a comment keeps the list of comments and the map of comments in
/// step.
pub proof fn lemma_with_comment_wf(app: AppModel, offset: usize, text: Seq<char>)
    requires
        comments_wf(app.hex_view.comment_name_list, app.hex_view.comments),
    ensures
        comments_wf(
            app.with_comment(offset, text).hex_view.comment_name_list,
            app.with_comment(offset, text).hex_view.comments,
        ),
{
    let list = app.hex_view.comment_name_list;
    let map = app.hex_view.comments;
    let rest = list.filter(not_at(offset));
    let new_list = app.with_comment(offset, text).hex_view.comment_name_list;
    let new_map = app.with_comment(offset, text).hex_view.comments;
    lemma_filter_not_at(list, offset);
    assert forall|i: int| 0 <= i < new_list.len() implies new_map.contains_key(
        (#[trigger] new_list[i]).offset,
    ) && new_map[new_list[i].offset] == new_list[i].comment by {
        if i < rest.len() {
            assert(new_list[i] == rest[i]);
            assert(list.contains(rest[i]));
            let k = choose|k: int| 0 <= k < list.len() && list[k] == rest[i];
            assert(map.contains_key(list[k].offset));
        }
    }
    assert forall|k: usize| #[trigger] new_map.contains_key(k) implies exists|i: int|
        0 <= i < new_list.len() && (#[trigger] new_list[i]).offset == k by {
        if k == offset {
            assert(text.len() > 0);
            assert(new_list[new_list.len() - 1].offset == k);
        } else {
            assert(map.contains_key(k));
            let i = choose|i: int| 0 <= i < list.len() && (#[trigger] list[i]).offset == k;
            assert(rest.contains(list[i]));
            let j = choose|j: int| 0 <= j < rest.len() && rest[j] == list[i];
            assert(new_list[j].offset == k);
        }
    }
    assert forall|i: int, j: int| 0 <= i < j < new_list.len() implies new_list[i].offset
        != new_list[j].offset by {
        if j < rest.len() {
            assert(new_list[i] == rest[i] && new_list[j] == rest[j]);
        } else {
            assert(new_list[i] == rest[i]);
        }
    }
}

/// Takes the comments at `offset` off the list of comments.
fn sync_comments(app: &mut App, offset: usize)
    ensures
        final(app)@ == old(app)@.uncommented(offset),
        final(app).hex_view.comments == old(app).hex_view.comments,
{
    let ghost before = app@;
    let ghost orig = comment_views(app.hex_view.comment_name_list@);
    let ghost mut j: int = 0;
    let mut i: usize = 0;
    proof {
        reveal(Seq::filter);
        assert(orig.take(0) =~= Seq::empty());
        assert(orig.skip(0) =~= orig);
        assert(orig.take(0).filter(not_at(offset)) + orig.skip(0) =~= orig);
    }
    while i < app.hex_view.comment_name_list.len()
        invariant
            0 <= j <= orig.len(),
            i == orig.take(j).filter(not_at(offset)).len(),
            app.hex_view.comment_name_list@.len() == i + orig.len() - j,
            comment_views(app.hex_view.comment_name_list@) == orig.take(j).filter(not_at(offset))
                + orig.skip(j),
            app@ == (AppModel {
                hex_view: HexViewModel {
                    comment_name_list: comment_views(app.hex_view.comment_name_list@),
                    ..before.hex_view
                },
                ..before
            }),
            app.hex_view.comments == old(app).hex_view.comments,
        decreases orig.len() - j,
    {
        let ghost views = comment_views(app.hex_view.comment_name_list@);
        let ghost kept = orig.take(j).filter(not_at(offset));
        proof {
            reveal(Seq::filter);
            assert(orig.take(j + 1).drop_last() =~= orig.take(j));
            assert(orig.take(j + 1).last() == orig[j]);
            assert(views[i as int] == orig.skip(j)[0]);
            assert(app.hex_view.comment_name_list@[i as int]@ == views[i as int]);
        }
        if app.hex_view.comment_name_list[i].offset == offset {
            let ghost list = app.hex_view.comment_name_list@;
            let _ = app.hex_view.comment_name_list.remove(i);
            proof {
                let now = comment_views(app.hex_view.comment_name_list@);
                let want = kept + orig.skip(j + 1);
                assert(now.len() == want.len());
                assert forall|k: int| 0 <= k < now.len() implies now[k] == want[k] by {
                    if k < i {
                        assert(now[k] == list[k]@);
                        assert(views[k] == kept[k]);
                    } else {
                        assert(now[k] == list[k + 1]@);
                        assert(views[k + 1] == orig.skip(j)[k + 1 - i]);
                    }
                }
                assert(now =~= want);
            }
        } else {
            i += 1;
            proof {
                assert(views =~= kept.push(orig[j]) + orig.skip(j + 1));
            }
        }
        proof {
            j = j + 1;
        }
    }
    proof {
        assert(orig.take(j) =~= orig);
        assert(orig.skip(j) =~= Seq::empty());
        assert(comment_views(app.hex_view.comment_name_list@) =~= orig.filter(not_at(offset)));
    }
}

impl App {
    /// Sets the comment at `offset`. An empty comment takes away the one
    /// that is there.
    pub fn set_comment(&mut self, offset: usize, comment: String)
        requires
            old(self)@.wf(),
        ensures
            final(self)@ == old(self)@.with_comment(offset, comment@),
            final(self)@.wf(),
    {
        proof {
            lemma_with_comment_wf(self@, offset, comment@);
        }
        let ghost old_map = self.hex_view.comments@;
        if comment.as_str().is_empty() {
            self.hex_view.comments.remove(&offset);
            proof {
                assert(comment_texts(self.hex_view.comments@) =~= comment_texts(old_map).remove(
                    offset,
                ));
            }
            sync_comments(self, offset);
        } else {
            self.hex_view.comments.insert(offset, comment.clone());
            proof {
                assert(comment_texts(self.hex_view.comments@) =~= comment_texts(old_map).insert(
                    offset,
                    comment@,
                ));
            }
            sync_comments(self, offset);
            let ghost list = self.hex_view.comment_name_list@;
            self.hex_view.comment_name_list.push(Comment { offset, comment });
            proof {
                assert(comment_views(self.hex_view.comment_name_list@) =~= comment_views(list).push(
                    CommentModel { offset, comment: comment@ },
                ));
            }
        }
    }

    /// Takes every comment away.
    pub fn clear_comments(&mut self)
        ensures
            final(self)@ == old(self)@.without_comments(),
            old(self)@.wf() ==> final(self)@.wf(),
    {
        self.hex_view.comments.clear();
        self.hex_view.comment_name_list.clear();
        proof {
            assert(comment_views(self.hex_view.comment_name_list@) =~= Seq::empty());
            assert(comment_texts(self.hex_view.comments@) =~= Map::empty());
        }
    }
}

impl Commands {
    /// Sets the comment at `offset` and closes the dialog that asked for it.
    /// An empty comment takes away the one that is there.
    pub fn comment(app: &mut App, offset: usize, comment: String)
        requires
            old(app)@.wf(),
        ensures
            final(app)@ == old(app)@.commented(offset, comment@),
            final(app)@.wf(),
    {
        app.set_comment(offset, comment);
        app.dialog_renderer = None;
        app.state = UIState::Normal;
    }
}

impl AppModel {
    /// The session after a key is pressed in the dialog that asks for a
    /// comment, which holds `value`: Escape closes it, Enter sets the
    /// comment at the cursor.
    pub open spec fn comment_events(self, key: KeyEvent, value: Seq<char>) -> AppModel {
        match key.code {
            KeyCode::Esc => self.closed(),
            KeyCode::Enter => self.commented(self.hex_view.offset, value),
            _ => self,
        }
    }
}

/// What is to become of the text input of a dialog that answers Escape and
/// Enter itself: after Enter it is emptied, after Escape left alone, and any
/// other key is for it to take.
pub open spec fn entry_input(key: KeyEvent) -> InputActionModel {
    match key.code {
        KeyCode::Esc => InputActionModel::Keep,
        KeyCode::Enter => InputActionModel::Reset,
        _ => InputActionModel::Forward,
    }
}

/// Handles a key pressed in the dialog that asks for a comment. `value` is
/// the text that the dialog holds.
pub fn dialog_comment_events(app: &mut App, key: KeyEvent, value: String) -> (input: InputAction)
    requires
        old(app)@.wf(),
    ensures
        final(app)@ == old(app)@.comment_events(key, value@),
        input@ == entry_input(key),
        final(app)@.wf(),
{
    match key.code {
        KeyCode::Esc => {
            app.close_dialog();
            InputAction::Keep
        },
        KeyCode::Enter => {
            let offset = app.hex_view.offset;
            Commands::comment(app, offset, value);
            InputAction::Reset
        },
        _ => InputAction::Forward,
    }
}

} // verus!
