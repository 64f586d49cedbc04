//! The state of lists and messages, apart from how they are drawn.

use vstd::prelude::*;

verus! {

/// Which row of a list is picked, if any. A row past the end of the list
/// stands for the last row: whoever draws the list brings it back there.
#[derive(Clone, Copy, Debug, PartialEq, Eq, Structural)]
pub struct ListState {
    pub selected: Option<usize>,
}

/// `a + b`, or the largest number where that does not fit.
pub open spec fn saturating_sum(a: usize, b: usize) -> usize {
    if a + b > usize::MAX {
        usize::MAX
    } else {
        (a + b) as usize
    }
}

/// `a - b`, or 0 where `b` is the larger.
pub open spec fn saturating_difference(a: usize, b: usize) -> usize {
    if a < b {
        0
    } else {
        (a - b) as usize
    }
}

impl ListState {
    /// The row after the one picked, or the first row where none is.
    pub open spec fn next(self) -> ListState {
        ListState {
            selected: Some(
                match self.selected {
                    Some(i) => saturating_sum(i, 1),
                    None => 0,
                },
            ),
        }
    }

    /// The row before the one picked, or the last row where none is.
    pub open spec fn previous(self) -> ListState {
        ListState {
            selected: Some(
                match self.selected {
                    Some(i) => saturating_difference(i, 1),
                    None => usize::MAX,
                },
            ),
        }
    }

    /// The row `amount` rows down from the one picked, counting from the
    /// first row where none is.
    pub open spec fn down_by(self, amount: u16) -> ListState {
        ListState {
            selected: Some(
                saturating_sum(
                    match self.selected {
                        Some(i) => i,
                        None => 0,
                    },
                    amount as usize,
                ),
            ),
        }
    }

    /// The row `amount` rows up from the one picked.
    pub open spec fn up_by(self, amount: u16) -> ListState {
        ListState {
            selected: Some(
                saturating_difference(
                    match self.selected {
                        Some(i) => i,
                        None => 0,
                    },
                    amount as usize,
                ),
            ),
        }
    }

    /// A list with no row picked.
    pub fn new() -> (s: Self)
        ensures
            s.selected is None,
    {
        ListState { selected: None }
    }

    /// The row that is picked.
    pub fn selected(&self) -> (r: Option<usize>)
        ensures
            r == self.selected,
    {
        self.selected
    }

    /// Picks the row `index`, or none.
    pub fn select(&mut self, index: Option<usize>)
        ensures
            final(self).selected == index,
    {
        self.selected = index;
    }

    /// Picks the row after the one picked, or the first row where none is.
    pub fn select_next(&mut self)
        ensures
            *final(self) == old(self).next(),
    {
        self.selected = Some(
            match self.selected {
                Some(i) => i.saturating_add(1),
                None => 0,
            },
        );
    }

    /// Picks the row before the one picked, or the last row where none is.
    pub fn select_previous(&mut self)
        ensures
            *final(self) == old(self).previous(),
    {
        self.selected = Some(
            match self.selected {
                Some(i) => i.saturating_sub(1),
                None => usize::MAX,
            },
        );
    }

    /// Picks the first row.
    pub fn select_first(&mut self)
        ensures
            final(self).selected == Some(0usize),
    {
        self.selected = Some(0);
    }

    /// Picks the last row.
    pub fn select_last(&mut self)
        ensures
            final(self).selected == Some(usize::MAX),
    {
        self.selected = Some(usize::MAX);
    }

    /// Picks the row `amount` rows down from the one picked.
    pub fn scroll_down_by(&mut self, amount: u16)
        ensures
            *final(self) == old(self).down_by(amount),
    {
        let selected = match self.selected {
            Some(i) => i,
            None => 0,
        };
        self.selected = Some(selected.saturating_add(amount as usize));
    }

    /// Picks the row `amount` rows up from the one picked.
    pub fn scroll_up_by(&mut self, amount: u16)
        ensures
            *final(self) == old(self).up_by(amount),
    {
        let selected = match self.selected {
            Some(i) => i,
            None => 0,
        };
        self.selected = Some(selected.saturating_sub(amount as usize));
    }
}

/// What kind of message a line of the command bar holds.
#[derive(Clone, Copy, Debug, PartialEq, Eq, Structural)]
pub enum MessageType {
    Error,
    Info,
}

/// A line of text for the command bar.
#[derive(Debug)]
pub struct Message {
    pub buffer: String,
    pub kind: MessageType,
}

impl Message {
    /// A message that informs.
    pub fn from(message: &str) -> (m: Self)
        ensures
            m.buffer@ == message@,
            m.kind == MessageType::Info,
    {
        Message { buffer: message.to_owned(), kind: MessageType::Info }
    }
}

/// A list of choices under a title.
#[derive(Debug)]
pub struct ListChoice {
    pub choices: Vec<String>,
    pub title: String,
}

impl ListChoice {
    /// A list with no choices and no title.
    pub fn new() -> (list: Self)
        ensures
            list.choices@.len() == 0,
            list.title@.len() == 0,
    {
        ListChoice { choices: Vec::new(), title: String::new() }
    }

    /// Gives the list the title `title`.
    pub fn set_title(&mut self, title: String)
        ensures
            final(self).title == title,
            final(self).choices == old(self).choices,
    {
        self.title = title;
    }
}

} // verus!
