//! The command bar: the lines that can be typed into it and what they do.

use crate::app::{text_views, App, AppModel};
use crate::config::{Config, Theme, MAX_BYTES_PER_LINE};
use crate::editor::{Dialog, UIState};
use crate::events::{
    Effect, EffectModel, InputAction, KeyCode, KeyEvent, Response, ResponseModel,
};
use crate::util::{
    goto_expression, parse_decimal, parse_goto_expression, parse_unsigned, starts_with_plus,
};
use crate::widgets::{saturating_sum, Message, MessageType};
use vstd::prelude::*;
use vstd::string::StringExecFns;

verus! {

/// The commands of the editor, as functions on a session.
pub struct Commands;

/// What a line typed into the command bar asks for.
#[derive(Debug)]
pub enum Command {
    /// Quit.
    Q,
    /// Write the unsaved edits to the file.
    W,
    /// Write, then quit.
    Wq,
    /// Write, then quit.
    X,
    /// Set the comment at an offset.
    Cmt { offset: String, comment: String },
    /// Change a setting.
    SetOption { option: String, value: Option<String> },
}

/// A command, with its words as plain texts.
pub enum CommandModel {
    Q,
    W,
    Wq,
    X,
    Cmt { offset: Seq<char>, comment: Seq<char> },
    SetOption { option: Seq<char>, value: Option<Seq<char>> },
}

impl View for Command {
    type V = CommandModel;

    open spec fn view(&self) -> CommandModel {
        match self {
            Command::Q => CommandModel::Q,
            Command::W => CommandModel::W,
            Command::Wq => CommandModel::Wq,
            Command::X => CommandModel::X,
            Command::Cmt { offset, comment } => CommandModel::Cmt {
                offset: offset@,
                comment: comment@,
            },
            Command::SetOption { option, value } => CommandModel::SetOption {
                option: option@,
                value: match value {
                    Some(v) => Some(v@),
                    None => None,
                },
            },
        }
    }
}

/// The words that a line comes apart into by the rules of a shell: words
/// are set apart by white space, and quotes and backslashes keep white
/// space inside a word. A line with a quote left open comes apart into
/// nothing.
pub uninterp spec fn shell_words(line: Seq<char>) -> Option<Seq<Seq<char>>>;

/// `shell_words::split`: takes a line apart into words as a shell does.
#[verifier::external_body]
pub(crate) fn split_words(line: &str) -> (words: Option<Vec<String>>)
    ensures
        match words {
            Some(list) => shell_words(line@) == Some(text_views(list@)),
            None => shell_words(line@) is None,
        },
{
    shell_words::split(line).ok()
}

/// The word after which no word is read as an option.
pub open spec fn is_escape(word: Seq<char>) -> bool {
    word == "--"@
}

/// A word that is read as an option: it starts with a hyphen and has more
/// to it. A hyphen alone is a value like any other word.
pub open spec fn is_option(word: Seq<char>) -> bool {
    word.len() > 1 && word[0] == '-' && !is_escape(word)
}

/// `list` in front of the values `rest`, where there are any.
pub open spec fn joined(list: Seq<Seq<char>>, rest: Option<Seq<Seq<char>>>) -> Option<
    Seq<Seq<char>>,
> {
    match rest {
        Some(values) => Some(list + values),
        None => None,
    }
}

/// The values that the words from the place `from` on give a command: the
/// words themselves, without the first `--`. The commands have no options,
/// so where a word before the first `--` is read as one, there are no
/// values.
pub open spec fn values_from(words: Seq<Seq<char>>, from: int) -> Option<Seq<Seq<char>>>
    decreases words.len() - from,
{
    if from < 0 || from >= words.len() {
        Some(Seq::empty())
    } else if is_escape(words[from]) {
        Some(words.skip(from + 1))
    } else if is_option(words[from]) {
        None
    } else {
        joined(seq![words[from]], values_from(words, from + 1))
    }
}

/// The command that the words of a line spell, if they spell one: the name
/// of a command, then as many values as the command takes.
pub open spec fn command_of(words: Seq<Seq<char>>) -> Option<CommandModel> {
    if words.len() == 0 {
        None
    } else {
        match values_from(words, 1) {
            None => None,
            Some(values) => if words[0] == "q"@ && values.len() == 0 {
                Some(CommandModel::Q)
            } else if words[0] == "w"@ && values.len() == 0 {
                Some(CommandModel::W)
            } else if words[0] == "wq"@ && values.len() == 0 {
                Some(CommandModel::Wq)
            } else if words[0] == "x"@ && values.len() == 0 {
                Some(CommandModel::X)
            } else if words[0] == "cmt"@ && values.len() == 2 {
                Some(CommandModel::Cmt { offset: values[0], comment: values[1] })
            } else if words[0] == "set"@ && values.len() == 1 {
                Some(CommandModel::SetOption { option: values[0], value: None })
            } else if words[0] == "set"@ && values.len() == 2 {
                Some(CommandModel::SetOption { option: values[0], value: Some(values[1]) })
            } else {
                None
            },
        }
    }
}

/// The settings after the option `option` is set, with `value` where the
/// option takes one. A name that is no option, and a value that the option
/// cannot take, change nothing.
pub open spec fn option_set(config: Config, option: Seq<char>, value: Option<Seq<char>>) -> Config {
    if option == "byteline"@ {
        match value {
            Some(text) => match parse_unsigned(text, 10) {
                Ok(n) => if n == 0 {
                    config
                } else if n > MAX_BYTES_PER_LINE {
                    Config { hex_mode_bytes_per_line: MAX_BYTES_PER_LINE, ..config }
                } else {
                    Config { hex_mode_bytes_per_line: n, ..config }
                },
                Err(_) => config,
            },
            None => config,
        }
    } else if option == "ctrlchar"@ {
        match value {
            Some(text) => if text.len() == 1 && text[0] <= '\u{7f}' {
                Config { hex_mode_non_graphic_char: text[0], ..config }
            } else {
                config
            },
            None => config,
        }
    } else if option == "db"@ {
        Config { database: true, ..config }
    } else if option == "nodb"@ {
        Config { database: false, ..config }
    } else if option == "dimctrl"@ {
        Config { dim_control_chars: true, ..config }
    } else if option == "dimzero"@ {
        Config { dim_control_chars: false, dim_zeroes: true, ..config }
    } else if option == "nodim"@ {
        Config { dim_control_chars: false, dim_zeroes: false, ..config }
    } else if option == "theme"@ {
        if value == Some("dark"@) {
            Config { theme: Theme::Dark, ..config }
        } else if value == Some("light"@) {
            Config { theme: Theme::Light, ..config }
        } else {
            config
        }
    } else {
        config
    }
}

impl AppModel {
    /// The offset that an offset expression stands for in this session: the
    /// number it writes, counted from the cursor where it starts with `+`.
    pub open spec fn offset_meant(self, expression: Seq<char>) -> Option<usize> {
        match goto_expression(expression) {
            Ok(n) => Some(
                if expression.len() > 0 && expression[0] == '+' {
                    saturating_sum(n, self.hex_view.offset)
                } else {
                    n
                },
            ),
            Err(_) => None,
        }
    }

    /// The session with `dialog` on show for a message.
    pub open spec fn with_message(self, dialog: Dialog) -> AppModel {
        AppModel { dialog_renderer: Some(dialog), ..self }
    }

    /// The session with no dialog on show.
    pub open spec fn without_dialog(self) -> AppModel {
        AppModel { dialog_renderer: None, ..self }
    }

    /// The session after the user asks to go to the offset that
    /// `expression` stands for: the cursor goes there, or a message tells
    /// that the offset lies outside the file or that the expression stands
    /// for none.
    pub open spec fn gone_to(self, expression: Seq<char>) -> AppModel {
        match self.offset_meant(expression) {
            Some(offset) => if offset < self.file_info.buffer.len() {
                self.without_dialog().goto(offset)
            } else {
                self.with_message(Dialog::InvalidOffset)
            },
            None => self.with_message(Dialog::InvalidCommand),
        }
    }

    /// The session after the user asks to comment the offset that
    /// `expression` stands for.
    pub open spec fn comment_asked_at(self, expression: Seq<char>, comment: Seq<char>) -> AppModel {
        match self.offset_meant(expression) {
            Some(offset) => if offset < self.file_info.buffer.len() {
                self.commented(offset, comment).without_dialog()
            } else {
                self.with_message(Dialog::InvalidOffset)
            },
            None => self.with_message(Dialog::InvalidCommand),
        }
    }

    /// The session after a command is carried out.
    pub open spec fn commanded(self, command: CommandModel) -> AppModel {
        match command {
            CommandModel::Q => AppModel { running: false, ..self },
            CommandModel::W => self.without_dialog(),
            CommandModel::Wq | CommandModel::X => AppModel {
                running: false,
                ..self.without_dialog()
            },
            CommandModel::Cmt { offset, comment } => self.comment_asked_at(offset, comment),
            CommandModel::SetOption { option, value } => AppModel {
                config: option_set(self.config, option, value),
                ..self.without_dialog()
            },
        }
    }

    /// The session after the line `cmdline`, which comes apart into
    /// `words`, is entered in the command bar. An empty line closes the
    /// bar; a line that spells a command has it carried out; any other line
    /// is read as an offset to go to.
    pub open spec fn command_entered(self, words: Seq<Seq<char>>, cmdline: Seq<char>) -> AppModel {
        if cmdline.len() == 0 {
            self.without_dialog()
        } else {
            AppModel {
                state: UIState::Normal,
                ..match command_of(words) {
                    Some(command) => self.commanded(command),
                    None => self.gone_to(cmdline),
                }
            }
        }
    }

    /// What a line entered in the command bar asks of the outside: the
    /// commands that write ask for the file to be saved.
    pub open spec fn command_effect(self, words: Seq<Seq<char>>, cmdline: Seq<char>) -> EffectModel {
        if cmdline.len() > 0 && (command_of(words) matches Some(c) && (c is W || c is Wq || c is X)) {
            EffectModel::Save
        } else {
            EffectModel::Nothing
        }
    }
}

/// The words of a line, or none where the line does not come apart.
pub open spec fn words_of(line: Seq<char>) -> Seq<Seq<char>> {
    match shell_words(line) {
        Some(words) => words,
        None => Seq::empty(),
    }
}

/// Tells whether a word starts with a hyphen and has more to it.
fn starts_with_hyphen(word: &str) -> (r: bool)
    ensures
        r == (word@.len() > 1 && word@[0] == '-'),
{
    word.unicode_len() > 1 && word.get_char(0) == '-'
}

/// Tells whether `word` is the text `literal`.
fn is_word(word: &String, literal: &str) -> (r: bool)
    ensures
        r == (word@ == literal@),
{
    *word == String::from_str(literal)
}

/// Picks the values out of the words that follow the name of a command.
pub fn command_values(words: &Vec<String>) -> (values: Option<Vec<String>>)
    ensures
        match values {
            Some(list) => values_from(text_views(words@), 1) == Some(text_views(list@)),
            None => values_from(text_views(words@), 1) is None,
        },
{
    let n = words.len();
    let ghost texts = text_views(words@);
    let mut list: Vec<String> = Vec::new();
    let mut escaped = false;
    let mut i: usize = 1;
    proof {
        assert(text_views(list@) =~= Seq::<Seq<char>>::empty());
        assert(Seq::<Seq<char>>::empty() + texts.skip(1) =~= texts.skip(1));
        if let Some(rest) = values_from(texts, 1) {
            assert(Seq::<Seq<char>>::empty() + rest =~= rest);
        }
    }
    while i < n
        invariant
            n == words.len(),
            1 <= i,
            texts == text_views(words@),
            !escaped ==> values_from(texts, 1) == joined(
                text_views(list@),
                values_from(texts, i as int),
            ),
            escaped ==> i <= n && values_from(texts, 1) == Some(
                text_views(list@) + texts.skip(i as int),
            ),
        decreases n - i,
    {
        let ghost before = text_views(list@);
        let ghost word = texts[i as int];
        proof {
            assert(word == words@[i as int]@);
        }
        if escaped {
            list.push(words[i].clone());
            proof {
                assert(text_views(list@) =~= before.push(word));
                assert(before + texts.skip(i as int) =~= before.push(word) + texts.skip(i + 1));
            }
        } else if is_word(&words[i], "--") {
            escaped = true;
        } else if starts_with_hyphen(words[i].as_str()) {
            return None;
        } else {
            list.push(words[i].clone());
            proof {
                assert(text_views(list@) =~= before.push(word));
                if let Some(rest) = values_from(texts, i + 1) {
                    assert(before + (seq![word] + rest) =~= before.push(word) + rest);
                }
            }
        }
        i += 1;
    }
    proof {
        if escaped {
            assert(text_views(list@) + texts.skip(i as int) =~= text_views(list@));
        } else {
            assert(text_views(list@) + Seq::<Seq<char>>::empty() =~= text_views(list@));
        }
    }
    Some(list)
}

/// Reads the words of a line as a command.
pub fn parse_words(words: &Vec<String>) -> (command: Option<Command>)
    ensures
        match command {
            Some(c) => command_of(text_views(words@)) == Some(c@),
            None => command_of(text_views(words@)) is None,
        },
{
    if words.len() == 0 {
        return None;
    }
    let ghost texts = text_views(words@);
    proof {
        assert(texts[0] == words@[0]@);
    }
    let name = &words[0];
    match command_values(words) {
        None => None,
        Some(values) => {
            let n = values.len();
            proof {
                if n >= 1 {
                    assert(text_views(values@)[0] == values@[0]@);
                }
                if n >= 2 {
                    assert(text_views(values@)[1] == values@[1]@);
                }
            }
            if is_word(name, "q") && n == 0 {
                Some(Command::Q)
            } else if is_word(name, "w") && n == 0 {
                Some(Command::W)
            } else if is_word(name, "wq") && n == 0 {
                Some(Command::Wq)
            } else if is_word(name, "x") && n == 0 {
                Some(Command::X)
            } else if is_word(name, "cmt") && n == 2 {
                Some(Command::Cmt { offset: values[0].clone(), comment: values[1].clone() })
            } else if is_word(name, "set") && n == 1 {
                Some(Command::SetOption { option: values[0].clone(), value: None })
            } else if is_word(name, "set") && n == 2 {
                Some(
                    Command::SetOption {
                        option: values[0].clone(),
                        value: Some(values[1].clone()),
                    },
                )
            } else {
                None
            }
        },
    }
}

/// Sets the option `option`, with `value` where the option takes one.
pub fn set_option(config: &mut Config, option: &String, value: &Option<String>)
    ensures
        *final(config) == option_set(
            *old(config),
            option@,
            match value {
                Some(v) => Some(v@),
                None => None,
            },
        ),
{
    if is_word(option, "byteline") {
        match value {
            Some(text) => match parse_decimal(text.as_str()) {
                Ok(n) => {
                    if n > MAX_BYTES_PER_LINE {
                        config.hex_mode_bytes_per_line = MAX_BYTES_PER_LINE;
                    } else if n > 0 {
                        config.hex_mode_bytes_per_line = n;
                    }
                },
                Err(_) => {},
            },
            None => {},
        }
    } else if is_word(option, "ctrlchar") {
        match value {
            Some(text) => {
                if text.as_str().unicode_len() == 1 {
                    let c = text.as_str().get_char(0);
                    if c <= '\u{7f}' {
                        config.hex_mode_non_graphic_char = c;
                    }
                }
            },
            None => {},
        }
    } else if is_word(option, "db") {
        config.database = true;
    } else if is_word(option, "nodb") {
        config.database = false;
    } else if is_word(option, "dimctrl") {
        config.dim_control_chars = true;
    } else if is_word(option, "dimzero") {
        config.dim_control_chars = false;
        config.dim_zeroes = true;
    } else if is_word(option, "nodim") {
        config.dim_control_chars = false;
        config.dim_zeroes = false;
    } else if is_word(option, "theme") {
        match value {
            Some(name) => {
                if is_word(name, "dark") {
                    config.theme = Theme::Dark;
                } else if is_word(name, "light") {
                    config.theme = Theme::Light;
                }
            },
            None => {},
        }
    }
}

impl App {
    /// The offset that an offset expression stands for in this session.
    pub fn parse_offset(&self, expression: &str) -> (offset: Option<usize>)
        ensures
            offset == self@.offset_meant(expression@),
    {
        match parse_goto_expression(expression) {
            Ok(n) => Some(
                if starts_with_plus(expression) {
                    n.saturating_add(self.hex_view.offset)
                } else {
                    n
                },
            ),
            Err(_) => None,
        }
    }
}

/// Goes to the offset that `offset` stands for, or shows why not.
pub fn try_goto(app: &mut App, offset: &str)
    requires
        old(app)@.wf(),
    ensures
        final(app)@ == old(app)@.gone_to(offset@),
        final(app)@.wf(),
{
    match app.parse_offset(offset) {
        Some(at) => {
            if at < app.file_info.buffer.len() {
                app.dialog_renderer = None;
                app.goto(at);
            } else {
                app.dialog_renderer = Some(Dialog::InvalidOffset);
            }
        },
        None => {
            app.dialog_renderer = Some(Dialog::InvalidCommand);
        },
    }
}

/// Sets the comment at the offset that `offset` stands for, or shows why
/// not.
fn try_comment(app: &mut App, offset: &str, comment: String)
    requires
        old(app)@.wf(),
    ensures
        final(app)@ == old(app)@.comment_asked_at(offset@, comment@),
        final(app)@.wf(),
{
    match app.parse_offset(offset) {
        Some(at) => {
            if at < app.file_info.buffer.len() {
                Commands::comment(app, at, comment);
                app.dialog_renderer = None;
            } else {
                app.dialog_renderer = Some(Dialog::InvalidOffset);
            }
        },
        None => {
            app.dialog_renderer = Some(Dialog::InvalidCommand);
        },
    }
}

/// Carries out a command.
pub fn run_command(app: &mut App, command: Command) -> (effect: Effect)
    requires
        old(app)@.wf(),
    ensures
        final(app)@ == old(app)@.commanded(command@),
        effect@ == (if command is W || command is Wq || command is X {
            EffectModel::Save
        } else {
            EffectModel::Nothing
        }),
        final(app)@.wf(),
{
    match command {
        Command::Q => {
            app.running = false;
            Effect::Nothing
        },
        Command::W => {
            app.dialog_renderer = None;
            Effect::Save
        },
        Command::Wq | Command::X => {
            app.dialog_renderer = None;
            app.running = false;
            Effect::Save
        },
        Command::Cmt { offset, comment } => {
            try_comment(app, offset.as_str(), comment);
            Effect::Nothing
        },
        Command::SetOption { option, value } => {
            set_option(&mut app.config, &option, &value);
            app.dialog_renderer = None;
            Effect::Nothing
        },
    }
}

/// Carries out the line `cmdline` of the command bar, which comes apart
/// into `words`.
pub fn enter_command(app: &mut App, words: &Vec<String>, cmdline: &str) -> (effect: Effect)
    requires
        old(app)@.wf(),
    ensures
        final(app)@ == old(app)@.command_entered(text_views(words@), cmdline@),
        effect@ == old(app)@.command_effect(text_views(words@), cmdline@),
        final(app)@.wf(),
{
    if cmdline.is_empty() {
        app.dialog_renderer = None;
        return Effect::Nothing;
    }
    let effect = match parse_words(words) {
        Some(command) => run_command(app, command),
        None => {
            try_goto(app, cmdline);
            Effect::Nothing
        },
    };
    app.state = UIState::Normal;
    effect
}

/// Carries out a line typed into the command bar.
pub fn parse_command(app: &mut App, cmdline: &str) -> (effect: Effect)
    requires
        old(app)@.wf(),
    ensures
        final(app)@ == old(app)@.command_entered(words_of(cmdline@), cmdline@),
        effect@ == old(app)@.command_effect(words_of(cmdline@), cmdline@),
        final(app)@.wf(),
{
    let words = match split_words(cmdline) {
        Some(words) => words,
        None => {
            let none: Vec<String> = Vec::new();
            proof {
                assert(text_views(none@) =~= Seq::empty());
            }
            none
        },
    };
    enter_command(app, &words, cmdline)
}

impl AppModel {
    /// The session after a key is pressed in the command bar, which holds
    /// `value`: Escape closes it, Enter has the line carried out.
    pub open spec fn command_events(self, key: KeyEvent, value: Seq<char>) -> AppModel {
        match key.code {
            KeyCode::Esc => self.closed(),
            KeyCode::Enter => self.command_entered(words_of(value), value),
            _ => self,
        }
    }

    /// What a key pressed in the command bar asks of the outside.
    pub open spec fn command_events_effect(self, key: KeyEvent, value: Seq<char>) -> EffectModel {
        if key.code == KeyCode::Enter {
            self.command_effect(words_of(value), value)
        } else {
            EffectModel::Nothing
        }
    }
}

/// Handles a key pressed in the command bar. `value` is the text that the
/// bar holds.
pub fn command_events(app: &mut App, key: KeyEvent, value: &str) -> (r: Response)
    requires
        old(app)@.wf(),
    ensures
        final(app)@ == old(app)@.command_events(key, value@),
        r@ == (ResponseModel {
            refused: false,
            effect: old(app)@.command_events_effect(key, value@),
            input: crate::hex::comment::entry_input(key),
        }),
        final(app)@.wf(),
{
    match key.code {
        KeyCode::Esc => {
            app.close_dialog();
            Response::plain()
        },
        KeyCode::Enter => {
            let effect = parse_command(app, value);
            Response { refused: false, effect, input: InputAction::Reset }
        },
        _ => Response::forward(),
    }
}

impl AppModel {
    /// The message that an offset lies outside the file: it tells the last
    /// offset that the file has.
    pub open spec fn invalid_offset_text(self) -> Seq<char> {
        "Invalid offset. Maximum offset for this file: "@ + crate::util::hex_text(
            if self.file_info.buffer.len() == 0 {
                0
            } else {
                (self.file_info.buffer.len() - 1) as nat
            },
            true,
        )
    }
}

/// The message that an offset lies outside the file.
pub fn command_error_invalid_offset_draw(app: &App) -> (m: Message)
    ensures
        m.buffer@ == app@.invalid_offset_text(),
        m.kind == MessageType::Error,
{
    let mut buffer = String::from_str("Invalid offset. Maximum offset for this file: ");
    buffer.append(crate::util::to_hex(app.file_info.buffer.len().saturating_sub(1), true).as_str());
    Message { buffer, kind: MessageType::Error }
}

/// The message that a command was not understood.
pub fn command_error_invalid_draw() -> (m: Message)
    ensures
        m.buffer@ == "Invalid command"@,
        m.kind == MessageType::Error,
{
    Message { buffer: String::from_str("Invalid command"), kind: MessageType::Error }
}

} // verus!
