//! What a session keeps beside the open file: bookmarks and comments.

use crate::app::{App, AppModel};
use crate::config::MAX_BOOKMARKS;
use crate::hex::comment::{comment_views, Comment, CommentModel};
use vstd::prelude::*;
use vstd::string::StringExecFns;

verus! {

/// What a session keeps beside the open file: its bookmarks and its
/// comments, each in the order in which the session lists them.
#[derive(Debug)]
pub struct Database {
    pub bookmarks: Vec<usize>,
    pub comments: Vec<Comment>,
}

/// What a `Database` holds, as plain values.
pub struct DatabaseModel {
    pub bookmarks: Seq<usize>,
    pub comments: Seq<CommentModel>,
}

impl View for Database {
    type V = DatabaseModel;

    open spec fn view(&self) -> DatabaseModel {
        DatabaseModel { bookmarks: self.bookmarks@, comments: comment_views(self.comments@) }
    }
}

/// The name of the file that keeps the bookmarks and comments of the file
/// `name`.
pub open spec fn database_name(name: Seq<char>) -> Seq<char> {
    name + ".dz6"@
}

impl AppModel {
    /// What the session has to keep: nothing where it has neither bookmark
    /// nor comment.
    pub open spec fn database(self) -> Option<DatabaseModel> {
        if self.hex_view.bookmarks.len() == 0 && self.hex_view.comment_name_list.len() == 0 {
            None
        } else {
            Some(
                DatabaseModel {
                    bookmarks: self.hex_view.bookmarks,
                    comments: self.hex_view.comment_name_list,
                },
            )
        }
    }

    /// The session after the comments `records` are set, first to last.
    pub open spec fn with_comments(self, records: Seq<CommentModel>) -> AppModel
        decreases records.len(),
    {
        if records.len() == 0 {
            self
        } else {
            self.with_comments(records.drop_last()).with_comment(
                records.last().offset,
                records.last().comment,
            )
        }
    }

    /// The session with the bookmarks and comments that were kept: the
    /// bookmarks are those kept, as far as there may be bookmarks, and the
    /// comments are those kept, a later one for an offset in place of an
    /// earlier one.
    pub open spec fn database_loaded(self, database: DatabaseModel) -> AppModel {
        self.with_bookmarks(
            if database.bookmarks.len() <= MAX_BOOKMARKS {
                database.bookmarks
            } else {
                database.bookmarks.take(MAX_BOOKMARKS as int)
            },
        ).without_comments().with_comments(database.comments)
    }
}

/// The name of the file that keeps the bookmarks and comments of the file
/// `name`.
pub fn database_file_name(name: &str) -> (file: String)
    ensures
        file@ == database_name(name@),
{
    let mut file = String::from_str(name);
    file.append(".dz6");
    file
}

impl App {
    /// What the session has to keep beside the file: its bookmarks and
    /// comments, or nothing where it has neither.
    pub fn save_database(&self) -> (database: Option<Database>)
        ensures
            match database {
                Some(d) => self@.database() == Some(d@),
                None => self@.database() is None,
            },
    {
        if self.hex_view.bookmarks.len() == 0 && self.hex_view.comment_name_list.len() == 0 {
            return None;
        }
        let mut bookmarks: Vec<usize> = Vec::new();
        let mut i: usize = 0;
        while i < self.hex_view.bookmarks.len()
            invariant
                i <= self.hex_view.bookmarks.len(),
                bookmarks@ == self.hex_view.bookmarks@.take(i as int),
            decreases self.hex_view.bookmarks.len() - i,
        {
            bookmarks.push(self.hex_view.bookmarks[i]);
            proof {
                assert(bookmarks@ =~= self.hex_view.bookmarks@.take(i + 1));
            }
            i += 1;
        }
        let mut comments: Vec<Comment> = Vec::new();
        let mut j: usize = 0;
        while j < self.hex_view.comment_name_list.len()
            invariant
                j <= self.hex_view.comment_name_list.len(),
                comments@ == self.hex_view.comment_name_list@.take(j as int),
            decreases self.hex_view.comment_name_list.len() - j,
        {
            comments.push(self.hex_view.comment_name_list[j].clone());
            proof {
                assert(comments@ =~= self.hex_view.comment_name_list@.take(j + 1));
            }
            j += 1;
        }
        proof {
            assert(bookmarks@ =~= self.hex_view.bookmarks@);
            assert(comments@ =~= self.hex_view.comment_name_list@);
        }
        Some(Database { bookmarks, comments })
    }

    /// Takes in the bookmarks and comments that were kept beside the file.
    /// They replace those of the session.
    pub fn load_database(&mut self, database: Database)
        requires
            old(self)@.wf(),
        ensures
            final(self)@ == old(self)@.database_loaded(database@),
            final(self)@.wf(),
    {
        let Database { bookmarks, comments } = database;
        let mut bookmarks = bookmarks;
        if bookmarks.len() > MAX_BOOKMARKS {
            bookmarks.truncate(MAX_BOOKMARKS);
        }
        self.hex_view.bookmarks = bookmarks;
        self.clear_comments();
        let ghost start = self@;
        let ghost records = comment_views(comments@);
        let mut i: usize = 0;
        proof {
            assert(records.take(0) =~= Seq::empty());
        }
        while i < comments.len()
            invariant
                i <= comments.len(),
                records == comment_views(comments@),
                start.wf(),
                self@ == start.with_comments(records.take(i as int)),
                self@.wf(),
            decreases comments.len() - i,
        {
            proof {
                assert(records.take(i + 1).drop_last() =~= records.take(i as int));
                assert(records.take(i + 1).last() == comments@[i as int]@);
            }
            self.set_comment(comments[i].offset, comments[i].comment.clone());
            i += 1;
        }
        proof {
            assert(records.take(comments.len() as int) =~= records);
        }
    }
}

} // verus!
