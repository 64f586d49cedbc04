//! Editing bytes: edits are laid over the file and kept until they are
//! saved or thrown away.

use crate::app::{App, AppModel};
use crate::editor::UIState;
use crate::events::{Effect, EffectModel, KeyCode, KeyEvent};
use crate::hex::hex_view::{HexViewModel, PendingEdit};
use crate::util::{char_digit, digit_value, is_digit};
use vstd::prelude::*;

verus! {

broadcast use vstd::std_specs::hash::group_hash_axioms;

/// The byte value that stands for no operation on x86.
pub const NOP: u8 = 0x90;

impl AppModel {
    /// The session after the cursor has gone to `target`, which may be no
    /// offset at all.
    pub open spec fn goto_to(self, target: int) -> AppModel {
        if 0 <= target <= usize::MAX {
            self.goto(target as usize)
        } else {
            self
        }
    }

    /// The session with `edit` laid over the byte under the cursor. Nothing
    /// is laid over an offset outside the file.
    pub open spec fn with_edit(self, edit: PendingEdit) -> AppModel {
        if self.hex_view.offset < self.file_info.buffer.len() {
            AppModel {
                hex_view: HexViewModel {
                    changed_bytes: self.hex_view.changed_bytes.insert(self.hex_view.offset, edit),
                    ..self.hex_view
                },
                ..self
            }
        } else {
            self
        }
    }

    /// The session after the byte under the cursor is overwritten with
    /// `with` and, with `advance`, the cursor has moved on by one.
    pub open spec fn filled_with(self, with: u8, advance: bool) -> AppModel {
        if advance {
            self.with_edit(PendingEdit::Full(with)).goto_to(self.hex_view.offset + 1)
        } else {
            self.with_edit(PendingEdit::Full(with))
        }
    }

    /// The session after a hexadecimal digit is typed over the byte under
    /// the cursor. The first digit begins the byte and the cursor stays; the
    /// second completes it and the cursor moves on; a digit typed over a
    /// complete byte begins it again.
    pub open spec fn typed_digit(self, digit: u8) -> AppModel {
        let offset = self.hex_view.offset;
        if self.hex_view.changed_bytes.contains_key(offset) {
            let edit = self.hex_view.changed_bytes[offset];
            if edit is Half {
                self.with_edit(edit.typed(digit)).goto_to(offset + 1)
            } else {
                self.with_edit(edit.typed(digit))
            }
        } else {
            self.with_edit(PendingEdit::Half(digit))
        }
    }

    /// The session after the byte under the cursor, as the user sees it, is
    /// raised by `delta` modulo 256. The cursor stays.
    pub open spec fn stepped_byte(self, delta: int) -> AppModel {
        let offset = self.hex_view.offset;
        if offset < self.file_info.buffer.len() {
            self.filled_with(((self.byte_at(offset as int) + delta) % 256) as u8, false)
        } else {
            self
        }
    }

    /// The session with every unsaved edit thrown away.
    pub open spec fn without_edits(self) -> AppModel {
        AppModel {
            hex_view: HexViewModel { changed_bytes: Map::empty(), ..self.hex_view },
            ..self
        }
    }

    /// The session after editing is left: keys are bound as in normal mode
    /// again, and the next edit starts in hexadecimal.
    pub open spec fn editing_left(self) -> AppModel {
        AppModel {
            state: UIState::Normal,
            hex_view: HexViewModel { editing_hex: true, ..self.hex_view },
            ..self
        }
    }

    /// `c` asks to cut the file off after the byte under the cursor: that is
    /// `T`, on a file that may be written, with the cursor inside it.
    pub open spec fn asks_truncate(self, c: char) -> bool {
        &&& c == 'T'
        &&& !self.file_info.is_read_only
        &&& self.hex_view.offset < self.file_info.buffer.len()
    }

    /// The session after the character `c` is typed while bytes are edited
    /// in hexadecimal. A digit is typed over the byte under the cursor; `z`
    /// and `n` overwrite it with zero and with a no-operation; Control-`a`
    /// and Control-`x` raise and lower it by one; `T` leaves editing, for
    /// the file to be cut off after the cursor.
    pub open spec fn typed_hex(self, c: char, control: bool) -> AppModel {
        if is_digit(c, 16) && !control {
            self.typed_digit(digit_value(c as int, 16).unwrap() as u8)
        } else if c == 'z' {
            self.filled_with(0, true)
        } else if c == 'n' {
            self.filled_with(NOP, true)
        } else if c == 'a' && control {
            self.stepped_byte(1)
        } else if c == 'x' && control {
            self.stepped_byte(-1)
        } else if self.asks_truncate(c) {
            self.editing_left()
        } else {
            self
        }
    }

    /// The session after a key is pressed while bytes are edited.
    pub open spec fn edit_events(self, key: KeyEvent) -> AppModel {
        let offset = self.hex_view.offset;
        let line = self.config.hex_mode_bytes_per_line;
        match key.code {
            KeyCode::Esc => AppModel {
                dialog_renderer: None,
                ..self.without_edits().editing_left()
            },
            KeyCode::Left | KeyCode::Backspace => self.goto_to(offset - 1),
            KeyCode::Right => self.goto_to(offset + 1),
            KeyCode::Up => self.goto_to(offset - line),
            KeyCode::Down => self.goto_to(offset + line),
            KeyCode::Tab => AppModel {
                hex_view: HexViewModel {
                    editing_hex: !self.hex_view.editing_hex,
                    ..self.hex_view
                },
                ..self
            },
            KeyCode::Char(c) => {
                if self.hex_view.editing_hex {
                    self.typed_hex(c, key.modifiers.control)
                } else {
                    self.filled_with((c as int % 256) as u8, true)
                }
            },
            KeyCode::Enter => self.editing_left(),
            _ => self,
        }
    }

    /// What a key pressed while bytes are edited asks of the outside: to cut
    /// the file off after the byte under the cursor, or nothing.
    pub open spec fn edit_events_effect(self, key: KeyEvent) -> EffectModel {
        if key.code matches KeyCode::Char(c) && self.hex_view.editing_hex && self.asks_truncate(c) {
            EffectModel::Truncate((self.hex_view.offset + 1) as usize)
        } else {
            EffectModel::Nothing
        }
    }
}

impl App {
    /// Moves the cursor to `target` where that is an offset at all.
    pub(crate) fn goto_checked(&mut self, target: Option<usize>)
        requires
            old(self).config.hex_mode_bytes_per_line > 0,
            old(self).reader.page_current_size > 0,
        ensures
            final(self)@ == (match target {
                Some(offset) => old(self)@.goto(offset),
                None => old(self)@,
            }),
            old(self)@.wf() ==> final(self)@.wf(),
    {
        match target {
            Some(offset) => self.goto(offset),
            None => {},
        }
    }

    /// Lays `edit` over the byte under the cursor.
    fn set_edit(&mut self, edit: PendingEdit)
        ensures
            final(self)@ == old(self)@.with_edit(edit),
            old(self)@.wf() && edit.wf() ==> final(self)@.wf(),
    {
        if self.hex_view.offset < self.file_info.buffer.len() {
            self.hex_view.changed_bytes.insert(self.hex_view.offset, edit);
        }
    }

    /// Throws every unsaved edit away.
    pub fn discard_edits(&mut self)
        ensures
            final(self)@ == old(self)@.without_edits(),
            old(self)@.wf() ==> final(self)@.wf(),
    {
        self.hex_view.changed_bytes.clear();
    }

    /// Raises or lowers the byte under the cursor by one, modulo 256.
    pub(crate) fn step_byte(&mut self, up: bool)
        requires
            old(self)@.wf(),
        ensures
            final(self)@ == old(self)@.stepped_byte(
                if up {
                    1
                } else {
                    -1
                },
            ),
            final(self)@.wf(),
    {
        let offset = self.hex_view.offset;
        if offset < self.file_info.buffer.len() {
            let byte = self.effective_byte(offset);
            let next: u8 = if up {
                if byte == 255 {
                    0
                } else {
                    byte + 1
                }
            } else {
                if byte == 0 {
                    255
                } else {
                    byte - 1
                }
            };
            fill_with(self, next, false);
        }
    }
}

/// Overwrites the byte under the cursor with `with` and, with `advance`,
/// moves the cursor on by one byte. The file itself is not touched.
pub fn fill_with(app: &mut App, with: u8, advance: bool)
    requires
        old(app)@.wf(),
    ensures
        final(app)@ == old(app)@.filled_with(with, advance),
        final(app)@.wf(),
{
    let offset = app.hex_view.offset;
    app.set_edit(PendingEdit::Full(with));
    if advance {
        app.goto_checked(offset.checked_add(1));
    }
}

impl App {
    /// Leaves editing.
    fn leave_editing(&mut self)
        ensures
            final(self)@ == old(self)@.editing_left(),
            old(self)@.wf() ==> final(self)@.wf(),
    {
        self.state = UIState::Normal;
        self.hex_view.editing_hex = true;
    }

    /// Types the hexadecimal digit `digit` over the byte under the cursor.
    fn type_digit(&mut self, digit: u8)
        requires
            old(self)@.wf(),
            digit < 16,
        ensures
            final(self)@ == old(self)@.typed_digit(digit),
            final(self)@.wf(),
    {
        let offset = self.hex_view.offset;
        let pending: Option<PendingEdit> = match self.hex_view.changed_bytes.get(&offset) {
            Some(edit) => Some(*edit),
            None => None,
        };
        match pending {
            Some(PendingEdit::Half(high)) => {
                self.set_edit(PendingEdit::Full(high * 16 + digit));
                self.goto_checked(offset.checked_add(1));
            },
            Some(PendingEdit::Full(_)) => {
                self.set_edit(PendingEdit::Half(digit));
            },
            None => {
                self.set_edit(PendingEdit::Half(digit));
            },
        }
    }

    /// Handles a character typed while bytes are edited in hexadecimal.
    fn type_hex(&mut self, c: char, control: bool) -> (effect: Effect)
        requires
            old(self)@.wf(),
        ensures
            final(self)@ == old(self)@.typed_hex(c, control),
            effect@ == (if old(self)@.asks_truncate(c) {
                EffectModel::Truncate((old(self).hex_view.offset + 1) as usize)
            } else {
                EffectModel::Nothing
            }),
            final(self)@.wf(),
    {
        let offset = self.hex_view.offset;
        let digit = if control {
            None
        } else {
            char_digit(c, 16)
        };
        match digit {
            Some(d) => {
                self.type_digit(d);
                Effect::Nothing
            },
            None => {
                if c == 'z' {
                    fill_with(self, 0, true);
                    Effect::Nothing
                } else if c == 'n' {
                    fill_with(self, NOP, true);
                    Effect::Nothing
                } else if c == 'a' && control {
                    self.step_byte(true);
                    Effect::Nothing
                } else if c == 'x' && control {
                    self.step_byte(false);
                    Effect::Nothing
                } else if c == 'T' && !self.file_info.is_read_only && offset
                    < self.file_info.buffer.len() {
                    self.leave_editing();
                    Effect::Truncate(offset + 1)
                } else {
                    Effect::Nothing
                }
            },
        }
    }
}

/// Handles a key pressed while bytes are edited.
#[verifier::rlimit(50)]
pub fn edit_events(app: &mut App, key: KeyEvent) -> (r: (bool, Effect))
    requires
        old(app)@.wf(),
    ensures
        final(app)@ == old(app)@.edit_events(key),
        r.0 == false,
        r.1@ == old(app)@.edit_events_effect(key),
        final(app)@.wf(),
{
    let offset = app.hex_view.offset;
    let line = app.config.hex_mode_bytes_per_line;
    match key.code {
        KeyCode::Esc => {
            app.discard_edits();
            app.leave_editing();
            app.dialog_renderer = None;
            (false, Effect::Nothing)
        },
        KeyCode::Left | KeyCode::Backspace => {
            app.goto_checked(offset.checked_sub(1));
            (false, Effect::Nothing)
        },
        KeyCode::Right => {
            app.goto_checked(offset.checked_add(1));
            (false, Effect::Nothing)
        },
        KeyCode::Up => {
            app.goto_checked(offset.checked_sub(line));
            (false, Effect::Nothing)
        },
        KeyCode::Down => {
            app.goto_checked(offset.checked_add(line));
            (false, Effect::Nothing)
        },
        KeyCode::Tab => {
            app.hex_view.editing_hex = !app.hex_view.editing_hex;
            (false, Effect::Nothing)
        },
        KeyCode::Char(c) => {
            if app.hex_view.editing_hex {
                let effect = app.type_hex(c, key.modifiers.control);
                (false, effect)
            } else {
                fill_with(app, ((c as u32) % 256) as u8, true);
                (false, Effect::Nothing)
            }
        },
        KeyCode::Enter => {
            app.leave_editing();
            (false, Effect::Nothing)
        },
        _ => (false, Effect::Nothing),
    }
}

} // verus!
