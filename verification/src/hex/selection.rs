//! Selecting a range of bytes.

use crate::app::{App, AppModel};
use crate::editor::UIState;
use crate::events::{Effect, EffectModel, KeyCode, KeyEvent};
use crate::hex::edit::NOP;
use crate::hex::hex_view::{HexViewModel, PendingEdit};
use crate::util::{byte_hex, hex_char, push_char};
use vstd::prelude::*;

verus! {

broadcast use vstd::std_specs::hash::group_hash_axioms;

/// The side on which a selection grows.
#[derive(Debug, PartialEq, Eq, Clone, Copy, Structural)]
pub enum Direction {
    Left,
    Right,
}

/// An inclusive range of offsets, and the side on which it was last grown.
#[derive(Debug, Clone, Copy)]
pub struct Selection {
    pub start: usize,
    pub end: usize,
    pub direction: Option<Direction>,
}

impl Default for Selection {
    fn default() -> (s: Self)
        ensures
            s == (Selection { start: 0, end: 0, direction: None }),
    {
        Selection { start: 0, end: 0, direction: None }
    }
}

/// One step of growing or shrinking a selection: towards the start of the
/// file or towards its end, by a number of bytes.
pub enum Extend {
    Back(usize),
    Forward(usize),
}

impl Selection {
    /// The range is in order, and it has a direction exactly when it holds
    /// more than one byte.
    pub open spec fn wf(self) -> bool {
        &&& self.start <= self.end
        &&& self.direction is None <==> self.start == self.end
    }

    /// The direction that counts: a selection of one byte has none.
    pub open spec fn effective_direction(self) -> Option<Direction> {
        if self.start == self.end {
            None
        } else {
            self.direction
        }
    }

    /// The edge that moves with the cursor.
    pub open spec fn active(self) -> usize {
        match self.direction {
            Some(Direction::Right) => self.end,
            _ => self.start,
        }
    }

    /// The selection after a move of `step` bytes towards the start of the
    /// file. With no direction the start moves back and the direction
    /// becomes `Left`; with `Left` the start moves back further; with `Right`
    /// the end moves back. A move below offset 0, or of the end below the
    /// start, leaves the selection as it is.
    pub open spec fn extended_back(self, step: usize) -> Selection {
        match self.effective_direction() {
            Some(Direction::Right) => {
                if step == 0 || step > self.end - self.start {
                    self
                } else {
                    let end = (self.end - step) as usize;
                    Selection {
                        end,
                        direction: if end == self.start {
                            None
                        } else {
                            Some(Direction::Right)
                        },
                        ..self
                    }
                }
            },
            _ => {
                if step == 0 || step > self.start {
                    self
                } else {
                    Selection {
                        start: (self.start - step) as usize,
                        direction: Some(Direction::Left),
                        ..self
                    }
                }
            },
        }
    }

    /// The selection after a move of `step` bytes towards the end of a file
    /// of `size` bytes: the mirror image of `extended_back`. A move to or
    /// past `size`, or of the start past the end, leaves the selection as it
    /// is.
    pub open spec fn extended_forward(self, step: usize, size: usize) -> Selection {
        match self.effective_direction() {
            Some(Direction::Left) => {
                if step == 0 || step > self.end - self.start {
                    self
                } else {
                    let start = (self.start + step) as usize;
                    Selection {
                        start,
                        direction: if start == self.end {
                            None
                        } else {
                            Some(Direction::Left)
                        },
                        ..self
                    }
                }
            },
            _ => {
                if step == 0 || self.end + step >= size {
                    self
                } else {
                    Selection {
                        end: (self.end + step) as usize,
                        direction: Some(Direction::Right),
                        ..self
                    }
                }
            },
        }
    }

    /// The selection after the move `step` in a file of `size` bytes.
    pub open spec fn extended(self, step: Extend, size: usize) -> Selection {
        match step {
            Extend::Back(n) => self.extended_back(n),
            Extend::Forward(n) => self.extended_forward(n, size),
        }
    }

    /// The selection after the moves `steps`, first to last.
    pub open spec fn extended_all(self, steps: Seq<Extend>, size: usize) -> Selection
        decreases steps.len(),
    {
        if steps.len() == 0 {
            self
        } else {
            self.extended_all(steps.drop_last(), size).extended(steps.last(), size)
        }
    }

    /// The selection of the single byte at `offset`.
    pub fn new(offset: usize) -> (s: Self)
        ensures
            s == (Selection { start: offset, end: offset, direction: None }),
            s.wf(),
    {
        Selection { start: offset, end: offset, direction: None }
    }

    /// Tells whether `offset` is selected.
    pub fn contains(&self, offset: usize) -> (r: bool)
        ensures
            r == (self.start <= offset <= self.end),
    {
        offset >= self.start && offset <= self.end
    }

    /// The offset that comes `index` places after the first of the
    /// selection, where the selection has as many.
    pub fn nth(&self, index: usize) -> (r: Option<usize>)
        ensures
            r is Some <==> self.start + index <= self.end,
            r matches Some(offset) ==> offset == self.start + index,
    {
        if self.start <= self.end && index <= self.end - self.start {
            Some(self.start + index)
        } else {
            None
        }
    }

    /// The edge that moves with the cursor.
    pub fn active_edge(&self) -> (r: usize)
        ensures
            r == self.active(),
    {
        match self.direction {
            Some(Direction::Right) => self.end,
            _ => self.start,
        }
    }

    /// Moves the active edge `step` bytes towards the start of the file and
    /// tells whether the selection changed.
    pub fn extend_back(&mut self, step: usize) -> (moved: bool)
        requires
            old(self).start <= old(self).end,
        ensures
            *final(self) == old(self).extended_back(step),
            moved == (*final(self) != *old(self)),
            old(self).wf() ==> final(self).wf(),
    {
        if step == 0 {
            return false;
        }
        let collapsed = self.start == self.end;
        match self.direction {
            Some(Direction::Right) if !collapsed => {
                if step > self.end - self.start {
                    return false;
                }
                self.end = self.end - step;
                if self.end == self.start {
                    self.direction = None;
                }
                true
            },
            _ => {
                if step > self.start {
                    return false;
                }
                self.start = self.start - step;
                self.direction = Some(Direction::Left);
                true
            },
        }
    }

    /// Moves the active edge `step` bytes towards the end of a file of
    /// `size` bytes and tells whether the selection changed.
    pub fn extend_forward(&mut self, step: usize, size: usize) -> (moved: bool)
        requires
            old(self).start <= old(self).end,
        ensures
            *final(self) == old(self).extended_forward(step, size),
            moved == (*final(self) != *old(self)),
            old(self).wf() ==> final(self).wf(),
    {
        if step == 0 {
            return false;
        }
        let collapsed = self.start == self.end;
        match self.direction {
            Some(Direction::Left) if !collapsed => {
                if step > self.end - self.start {
                    return false;
                }
                self.start = self.start + step;
                if self.start == self.end {
                    self.direction = None;
                }
                true
            },
            _ => {
                if self.end >= size || step >= size - self.end {
                    return false;
                }
                self.end = self.end + step;
                self.direction = Some(Direction::Right);
                true
            },
        }
    }
}

/// Whatever moves a selection goes through, its start stays at or before its
/// end, it keeps a direction exactly while it holds more than one byte, and
/// an end inside the file stays inside it.
pub proof fn lemma_extended_all_keeps_order(sel: Selection, steps: Seq<Extend>, size: usize)
    requires
        sel.start <= sel.end,
    ensures
        sel.extended_all(steps, size).start <= sel.extended_all(steps, size).end,
        sel.wf() ==> sel.extended_all(steps, size).wf(),
        sel.end < size ==> sel.extended_all(steps, size).end < size,
    decreases steps.len(),
{
    if steps.len() > 0 {
        lemma_extended_all_keeps_order(sel, steps.drop_last(), size);
    }
}

/// The bytes `bytes` written out as hexadecimal digits, two a byte.
pub open spec fn hex_dump(bytes: Seq<u8>) -> Seq<char>
    decreases bytes.len(),
{
    if bytes.len() == 0 {
        Seq::empty()
    } else {
        hex_dump(bytes.drop_last()) + byte_hex(bytes.last())
    }
}

/// The move that a key makes in selection mode, if it makes one: the arrow
/// keys and `h`, `j`, `k`, `l` move by a byte or by a line.
pub open spec fn selection_move(key: KeyEvent, line: usize) -> Option<Extend> {
    match key.code {
        KeyCode::Left | KeyCode::Char('h') => Some(Extend::Back(1)),
        KeyCode::Right | KeyCode::Char('l') => Some(Extend::Forward(1)),
        KeyCode::Up | KeyCode::Char('k') => Some(Extend::Back(line)),
        KeyCode::Down | KeyCode::Char('j') => Some(Extend::Forward(line)),
        _ => None,
    }
}

impl AppModel {
    /// How many bytes of the file the selection holds.
    pub open spec fn selected_len(self) -> nat {
        let sel = self.hex_view.selection;
        let size = self.file_info.buffer.len();
        if sel.start > sel.end || sel.start >= size {
            0
        } else if sel.end < size {
            (sel.end - sel.start + 1) as nat
        } else {
            (size - sel.start) as nat
        }
    }

    /// The selected bytes, as the user sees them, in hexadecimal.
    pub open spec fn selected_hex(self) -> Seq<char> {
        hex_dump(self.bytes_at(self.hex_view.selection.start as int, self.selected_len()))
    }

    /// The session with the selection drawn in to the byte under the cursor.
    pub open spec fn with_selection_collapsed(self) -> AppModel {
        AppModel {
            hex_view: HexViewModel {
                selection: Selection {
                    start: self.hex_view.offset,
                    end: self.hex_view.offset,
                    direction: None,
                },
                ..self.hex_view
            },
            ..self
        }
    }

    /// The session with `with` laid over every selected byte of the file.
    pub open spec fn with_selection_filled(self, with: u8) -> AppModel {
        let sel = self.hex_view.selection;
        let size = self.file_info.buffer.len();
        let old = self.hex_view.changed_bytes;
        AppModel {
            hex_view: HexViewModel {
                changed_bytes: Map::new(
                    |k: usize| old.contains_key(k) || (sel.start <= k <= sel.end && k < size),
                    |k: usize|
                        if sel.start <= k <= sel.end && k < size {
                            PendingEdit::Full(with)
                        } else {
                            old[k]
                        },
                ),
                ..self.hex_view
            },
            ..self
        }
    }

    /// The session after a move of the selection's active edge. The cursor
    /// follows the edge; a move that is turned down changes nothing.
    pub open spec fn selection_extended(self, step: Extend) -> AppModel {
        let size = self.file_info.size();
        let moved = self.hex_view.selection.extended(step, size);
        if moved == self.hex_view.selection {
            self
        } else {
            (AppModel {
                hex_view: HexViewModel { selection: moved, ..self.hex_view },
                ..self
            }).goto(moved.active())
        }
    }

    /// The session after selection mode is left: the selection is drawn in
    /// and keys are bound as in normal mode again.
    pub open spec fn selection_left(self) -> AppModel {
        AppModel {
            state: UIState::Normal,
            hex_view: HexViewModel {
                editing_hex: true,
                ..self.with_selection_collapsed().hex_view
            },
            ..self
        }
    }

    /// The session after the selected bytes are overwritten with `with`: the
    /// selection is drawn in and the bytes are left to be edited. A file
    /// that may not be written stays as it is.
    pub open spec fn selection_overwritten(self, with: u8) -> AppModel {
        if self.file_info.is_read_only {
            self
        } else {
            AppModel {
                state: UIState::HexEditing,
                ..self.with_selection_filled(with).with_selection_collapsed()
            }
        }
    }

    /// The session after a key is pressed in selection mode.
    pub open spec fn select_events(self, key: KeyEvent) -> AppModel {
        let line = self.config.hex_mode_bytes_per_line;
        match selection_move(key, line) {
            Some(step) => self.selection_extended(step),
            None => match key.code {
                KeyCode::Esc => AppModel { dialog_renderer: None, ..self.selection_left() },
                KeyCode::Enter => self.selection_left(),
                KeyCode::Char('z') => self.selection_overwritten(0),
                KeyCode::Char('n') => self.selection_overwritten(NOP),
                KeyCode::Char('y') => AppModel {
                    state: UIState::Normal,
                    ..self.with_selection_collapsed()
                },
                _ => self,
            },
        }
    }

    /// Whether a key pressed in selection mode was turned down: a move that
    /// would leave the file or cross the selection's fixed edge, or a fill of
    /// a file that may not be written.
    pub open spec fn select_events_refused(self, key: KeyEvent) -> bool {
        let line = self.config.hex_mode_bytes_per_line;
        match selection_move(key, line) {
            Some(step) => self.hex_view.selection.extended(step, self.file_info.size())
                == self.hex_view.selection,
            None => (key.code == KeyCode::Char('z') || key.code == KeyCode::Char('n'))
                && self.file_info.is_read_only,
        }
    }

    /// What a key pressed in selection mode asks of the outside: `y` asks to
    /// put the selected bytes on the clipboard.
    pub open spec fn select_events_effect(self, key: KeyEvent) -> EffectModel {
        if key.code == KeyCode::Char('y') {
            EffectModel::Yank(self.selected_hex())
        } else {
            EffectModel::Nothing
        }
    }
}

impl App {
    /// Draws the selection in to the byte under the cursor.
    pub fn collapse_selection(&mut self)
        ensures
            final(self)@ == old(self)@.with_selection_collapsed(),
            old(self)@.wf() ==> final(self)@.wf(),
    {
        self.hex_view.selection = Selection::new(self.hex_view.offset);
    }

    /// Lays `with` over every selected byte of the file.
    pub fn fill_selection(&mut self, with: u8)
        ensures
            final(self)@ == old(self)@.with_selection_filled(with),
            old(self)@.wf() ==> final(self)@.wf(),
    {
        let sel = self.hex_view.selection;
        let size = self.file_info.buffer.len();
        let ghost before = self.hex_view.changed_bytes@;
        let ghost start = self@;
        let mut k: usize = sel.start;
        while k < size && k <= sel.end
            invariant
                sel.start <= k,
                k == sel.start || (k <= size && k <= sel.end + 1),
                size == self.file_info.buffer@.len(),
                self@ == (AppModel {
                    hex_view: HexViewModel {
                        changed_bytes: self.hex_view.changed_bytes@,
                        ..start.hex_view
                    },
                    ..start
                }),
                self.hex_view.changed_bytes@ == Map::new(
                    |j: usize| before.contains_key(j) || sel.start <= j < k,
                    |j: usize|
                        if sel.start <= j < k {
                            PendingEdit::Full(with)
                        } else {
                            before[j]
                        },
                ),
            decreases size - k,
        {
            self.hex_view.changed_bytes.insert(k, PendingEdit::Full(with));
            k += 1;
            proof {
                assert(self.hex_view.changed_bytes@ =~= Map::new(
                    |j: usize| before.contains_key(j) || sel.start <= j < k,
                    |j: usize|
                        if sel.start <= j < k {
                            PendingEdit::Full(with)
                        } else {
                            before[j]
                        },
                ));
            }
        }
        proof {
            assert(self.hex_view.changed_bytes@ =~= start.with_selection_filled(
                with,
            ).hex_view.changed_bytes);
        }
    }

    /// The selected bytes, as the user sees them, in hexadecimal.
    pub fn selection_hex(&self) -> (text: String)
        ensures
            text@ == self@.selected_hex(),
    {
        let sel = self.hex_view.selection;
        let size = self.file_info.buffer.len();
        let mut text = String::new();
        let mut k: usize = sel.start;
        let ghost first = sel.start as int;
        proof {
            assert(self@.bytes_at(first, 0) =~= Seq::empty());
        }
        while k < size && k <= sel.end
            invariant
                sel.start <= k,
                first == sel.start,
                sel == self.hex_view.selection,
                size == self.file_info.buffer@.len(),
                k == sel.start || (k <= size && k <= sel.end + 1),
                text@ == hex_dump(self@.bytes_at(first, (k - sel.start) as nat)),
            decreases size - k,
        {
            let byte = self.effective_byte(k);
            let ghost shorter = self@.bytes_at(first, (k - sel.start) as nat);
            let ghost longer = self@.bytes_at(first, (k - sel.start + 1) as nat);
            proof {
                assert(longer.drop_last() =~= shorter);
                assert(longer.last() == byte);
            }
            push_char(&mut text, hex_char(byte / 16, true));
            push_char(&mut text, hex_char(byte % 16, true));
            proof {
                assert(text@ =~= hex_dump(shorter) + byte_hex(byte));
            }
            k += 1;
        }
        proof {
            assert((k - sel.start) as nat == self@.selected_len());
        }
        text
    }

    /// Leaves selection mode.
    fn leave_selection(&mut self)
        ensures
            final(self)@ == old(self)@.selection_left(),
            old(self)@.wf() ==> final(self)@.wf(),
    {
        self.state = UIState::Normal;
        self.hex_view.editing_hex = true;
        self.collapse_selection();
    }

    /// Overwrites the selected bytes with `with` and tells whether that was
    /// turned down because the file may not be written.
    fn overwrite_selection(&mut self, with: u8) -> (refused: bool)
        ensures
            final(self)@ == old(self)@.selection_overwritten(with),
            refused == old(self).file_info.is_read_only,
            old(self)@.wf() ==> final(self)@.wf(),
    {
        if self.file_info.is_read_only {
            return true;
        }
        self.state = UIState::HexEditing;
        self.fill_selection(with);
        self.collapse_selection();
        false
    }

    /// Moves the active edge of the selection and takes the cursor along.
    /// Tells whether the move was turned down.
    fn extend_selection(&mut self, step: Extend) -> (refused: bool)
        requires
            old(self)@.wf(),
        ensures
            final(self)@ == old(self)@.selection_extended(step),
            refused == (old(self).hex_view.selection.extended(step, old(self)@.file_info.size())
                == old(self).hex_view.selection),
            final(self)@.wf(),
    {
        let size = self.file_info.buffer.len();
        let mut sel = self.hex_view.selection;
        let moved = match step {
            Extend::Back(n) => sel.extend_back(n),
            Extend::Forward(n) => sel.extend_forward(n, size),
        };
        if moved {
            self.hex_view.selection = sel;
            self.goto(sel.active_edge());
        }
        !moved
    }
}

/// Handles a key pressed in selection mode. The first part of the result
/// tells whether the key was turned down.
pub fn select_events(app: &mut App, key: KeyEvent) -> (r: (bool, Effect))
    requires
        old(app)@.wf(),
    ensures
        final(app)@ == old(app)@.select_events(key),
        r.0 == old(app)@.select_events_refused(key),
        r.1@ == old(app)@.select_events_effect(key),
        final(app)@.wf(),
{
    let line = app.config.hex_mode_bytes_per_line;
    match key.code {
        KeyCode::Left | KeyCode::Char('h') => {
            let refused = app.extend_selection(Extend::Back(1));
            (refused, Effect::Nothing)
        },
        KeyCode::Right | KeyCode::Char('l') => {
            let refused = app.extend_selection(Extend::Forward(1));
            (refused, Effect::Nothing)
        },
        KeyCode::Up | KeyCode::Char('k') => {
            let refused = app.extend_selection(Extend::Back(line));
            (refused, Effect::Nothing)
        },
        KeyCode::Down | KeyCode::Char('j') => {
            let refused = app.extend_selection(Extend::Forward(line));
            (refused, Effect::Nothing)
        },
        KeyCode::Esc => {
            app.leave_selection();
            app.dialog_renderer = None;
            (false, Effect::Nothing)
        },
        KeyCode::Enter => {
            app.leave_selection();
            (false, Effect::Nothing)
        },
        KeyCode::Char('z') => {
            let refused = app.overwrite_selection(0);
            (refused, Effect::Nothing)
        },
        KeyCode::Char('n') => {
            let refused = app.overwrite_selection(NOP);
            (refused, Effect::Nothing)
        },
        KeyCode::Char('y') => {
            let text = app.selection_hex();
            app.state = UIState::Normal;
            app.collapse_selection();
            (false, Effect::Yank(text))
        },
        _ => (false, Effect::Nothing),
    }
}

} // verus!
