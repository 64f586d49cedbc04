//! The calculator: its variables, its history and its evaluation.

use crate::app::{i64_of, le_u16, le_u32, le_u64, signed, text_views, App, AppModel};
use crate::events::{InputAction, InputActionModel, KeyCode, KeyEvent};
use evalexpr::{
    eval_with_context_mut, Context as _, ContextWithMutableVariables, DefaultNumericTypes,
    HashMapContext, Value,
};
use vstd::prelude::*;
use vstd::string::StringExecFns;

verus! {

/// `evalexpr::HashMapContext`: the variables that expressions are evaluated
/// with. It keeps what earlier expressions assigned, so nothing is said here
/// of what it holds. The field is private: a context is made by
/// `new_context` alone and changed by `set_variable` and `evaluate` alone, so
/// it never holds a function, a text or a tuple.
#[verifier::external_body]
#[derive(Debug)]
pub struct Context {
    inner: HashMapContext<DefaultNumericTypes>,
}

/// `evalexpr::HashMapContext::new`, then
/// `evalexpr::Context::set_builtin_functions_disabled`: a context with
/// nothing in it, in which no function can be called. The functions that
/// `evalexpr` brings along are switched off because some of them stop the
/// program on values that an expression can give them (a text cut inside a
/// character, a shift by more bits than a number has).
#[verifier::external_body]
pub(crate) fn new_context() -> Context {
    let mut inner = HashMapContext::new();
    let _ = inner.set_builtin_functions_disabled(true);
    Context { inner }
}

/// `evalexpr::ContextWithMutableVariables::set_value`, with a whole number:
/// sets the variable `name`. The context refuses a variable that it holds
/// with a value of another kind; then nothing changes.
#[verifier::external_body]
pub(crate) fn set_variable(context: &mut Context, name: &str, value: i64) {
    let _ = context.inner.set_value(name.to_string(), Value::from_int(value));
}

/// The longest expression that is evaluated. `evalexpr` builds a tree from
/// an expression and walks it by recursion, as deep as the expression is
/// nested, so an expression without an end to its length could use up the
/// stack.
pub const MAX_EXPRESSION: usize = 4096;

/// An expression that is evaluated: it is not too long, and it holds no
/// double quote and no comma. Without the two no text and no tuple can be
/// written, and those are the values that grow: a few dozen assignments
/// that each double one would use up the memory.
pub open spec fn is_plain(expression: Seq<char>) -> bool {
    &&& expression.len() <= MAX_EXPRESSION
    &&& forall|i: int|
        0 <= i < expression.len() ==> #[trigger] expression[i] != '"' && expression[i] != ','
}

/// `evalexpr::eval_with_context_mut`, then `evalexpr::Value::as_int`:
/// evaluates `expression` in `context`. The result is the value where the
/// expression has one and it is a whole number. What it is depends on what
/// the context holds, so nothing is said of it. On a plain expression, in a
/// context without functions, the evaluation comes to an end: the
/// arithmetic of `evalexpr` is checked, and a mistake in the expression is an
/// error, which gives `None`.
#[verifier::external_body]
pub(crate) fn evaluate(context: &mut Context, expression: &str) -> Option<i64>
    requires
        is_plain(expression@),
{
    match eval_with_context_mut(expression, &mut context.inner) {
        Ok(value) => value.as_int().ok(),
        Err(_) => None,
    }
}

/// The calculator: what was asked of it before, which of those the user
/// is looking at, and the last result.
#[derive(Debug)]
pub struct Calculator {
    pub context: Context,
    /// The expressions that were evaluated, oldest first, each once.
    pub history: Vec<String>,
    pub history_index: Option<usize>,
    pub result: i64,
}

/// What a calculator holds besides its variables, as plain values.
pub struct CalculatorModel {
    pub history: Seq<Seq<char>>,
    pub history_index: Option<usize>,
    pub result: i64,
}

impl View for Calculator {
    type V = CalculatorModel;

    open spec fn view(&self) -> CalculatorModel {
        CalculatorModel {
            history: text_views(self.history@),
            history_index: self.history_index,
            result: self.result,
        }
    }
}

/// A character that counts as white space.
pub open spec fn is_white_space(c: char) -> bool {
    ||| '\u{9}' <= c <= '\u{d}'
    ||| c == ' '
    ||| c == '\u{85}'
    ||| c == '\u{a0}'
    ||| c == '\u{1680}'
    ||| '\u{2000}' <= c <= '\u{200a}'
    ||| c == '\u{2028}'
    ||| c == '\u{2029}'
    ||| c == '\u{202f}'
    ||| c == '\u{205f}'
    ||| c == '\u{3000}'
}

/// A text with nothing but white space in it.
pub open spec fn is_blank(text: Seq<char>) -> bool {
    forall|i: int| 0 <= i < text.len() ==> is_white_space(#[trigger] text[i])
}

/// Tells whether a character counts as white space.
pub fn white_space(c: char) -> (r: bool)
    ensures
        r == is_white_space(c),
{
    ('\u{9}' <= c && c <= '\u{d}') || c == ' ' || c == '\u{85}' || c == '\u{a0}' || c
        == '\u{1680}' || ('\u{2000}' <= c && c <= '\u{200a}') || c == '\u{2028}' || c
        == '\u{2029}' || c == '\u{202f}' || c == '\u{205f}' || c == '\u{3000}'
}

/// Tells whether a text has nothing but white space in it.
pub fn blank(text: &str) -> (r: bool)
    ensures
        r == is_blank(text@),
{
    let n = text.unicode_len();
    let mut i: usize = 0;
    while i < n
        invariant
            n == text@.len(),
            i <= n,
            forall|k: int| 0 <= k < i ==> is_white_space(#[trigger] text@[k]),
        decreases n - i,
    {
        if !white_space(text.get_char(i)) {
            return false;
        }
        i += 1;
    }
    true
}

/// Tells whether an expression is one that is evaluated.
pub fn plain(expression: &str) -> (r: bool)
    ensures
        r == is_plain(expression@),
{
    let n = expression.unicode_len();
    if n > MAX_EXPRESSION {
        return false;
    }
    let mut i: usize = 0;
    while i < n
        invariant
            n == expression@.len(),
            i <= n,
            forall|k: int| 0 <= k < i ==> #[trigger] expression@[k] != '"' && expression@[k] != ',',
        decreases n - i,
    {
        let c = expression.get_char(i);
        if c == '"' || c == ',' {
            return false;
        }
        i += 1;
    }
    true
}

impl CalculatorModel {
    /// The calculator after `entry` was evaluated: the entry is added to the
    /// history, unless it is blank or there already, and the user looks at
    /// none of the history.
    pub open spec fn pushed(self, entry: Seq<char>) -> CalculatorModel {
        CalculatorModel {
            history: if !is_blank(entry) && !self.history.contains(entry) {
                self.history.push(entry)
            } else {
                self.history
            },
            history_index: None,
            ..self
        }
    }

    /// The place in the history that the user comes to by going up: the
    /// newest entry first, then one entry older at a time, and no further
    /// than the oldest.
    pub open spec fn up_index(self) -> int {
        match self.history_index {
            None => self.history.len() - 1,
            Some(i) => if i == 0 {
                0
            } else if i - 1 < self.history.len() {
                i - 1
            } else {
                self.history.len() - 1
            },
        }
    }

    /// The place in the history that the user comes to by going down: the
    /// oldest entry first, then one entry newer at a time, and no further
    /// than the newest.
    pub open spec fn down_index(self) -> int {
        match self.history_index {
            None => 0,
            Some(i) => if i + 1 < self.history.len() {
                i + 1
            } else {
                self.history.len() - 1
            },
        }
    }

    /// The calculator with the user looking at place `index` of the history.
    pub open spec fn looking_at(self, index: int) -> CalculatorModel {
        if self.history.len() == 0 {
            self
        } else {
            CalculatorModel { history_index: Some(index as usize), ..self }
        }
    }

    /// The calculator after an expression was evaluated: the expression
    /// goes into the history, and a result that is a whole number is kept.
    pub open spec fn evaluated(self, expression: Seq<char>, outcome: Option<i64>) -> CalculatorModel {
        match outcome {
            Some(value) => CalculatorModel { result: value, ..self.pushed(expression) },
            None => self.pushed(expression),
        }
    }
}

impl Calculator {
    /// A calculator with no history and no variables.
    pub fn new() -> (c: Self)
        ensures
            c@ == (CalculatorModel { history: Seq::empty(), history_index: None, result: 0 }),
    {
        let c = Calculator {
            context: new_context(),
            history: Vec::new(),
            history_index: None,
            result: 0,
        };
        proof {
            assert(c@.history =~= Seq::empty());
        }
        c
    }

    /// Tells whether `entry` is in the history.
    fn in_history(&self, entry: &String) -> (r: bool)
        ensures
            r == self@.history.contains(entry@),
    {
        let mut i: usize = 0;
        while i < self.history.len()
            invariant
                i <= self.history.len(),
                forall|k: int| 0 <= k < i ==> self@.history[k] != entry@,
            decreases self.history.len() - i,
        {
            if self.history[i] == *entry {
                proof {
                    assert(self@.history[i as int] == entry@);
                }
                return true;
            }
            i += 1;
        }
        false
    }

    /// Puts an expression into the history, unless it is blank or there
    /// already.
    pub fn push_history(&mut self, entry: String)
        ensures
            final(self)@ == old(self)@.pushed(entry@),
    {
        if !blank(entry.as_str()) && !self.in_history(&entry) {
            let ghost before = self.history@;
            self.history.push(entry);
            proof {
                assert(text_views(self.history@) =~= text_views(before).push(entry@));
            }
        }
        self.history_index = None;
    }

    /// Goes one entry up in the history and hands out the entry to show.
    pub fn history_up(&mut self) -> (entry: Option<String>)
        ensures
            final(self)@ == old(self)@.looking_at(old(self)@.up_index()),
            match entry {
                Some(text) => old(self)@.history.len() > 0 && text@ == old(self)@.history[old(
                    self,
                )@.up_index()],
                None => old(self)@.history.len() == 0,
            },
    {
        let len = self.history.len();
        if len == 0 {
            return None;
        }
        let index = match self.history_index {
            None => len - 1,
            Some(i) => if i == 0 {
                0
            } else if i - 1 < len {
                i - 1
            } else {
                len - 1
            },
        };
        self.history_index = Some(index);
        Some(self.history[index].clone())
    }

    /// Goes one entry down in the history and hands out the entry to show.
    pub fn history_down(&mut self) -> (entry: Option<String>)
        ensures
            final(self)@ == old(self)@.looking_at(old(self)@.down_index()),
            match entry {
                Some(text) => old(self)@.history.len() > 0 && text@ == old(self)@.history[old(
                    self,
                )@.down_index()],
                None => old(self)@.history.len() == 0,
            },
    {
        let len = self.history.len();
        if len == 0 {
            return None;
        }
        let index = match self.history_index {
            None => 0,
            Some(i) => if i < len - 1 {
                i + 1
            } else {
                len - 1
            },
        };
        self.history_index = Some(index);
        Some(self.history[index].clone())
    }

    /// Takes in what the evaluation of `expression` gave: a whole number, or
    /// nothing where the expression failed or gave something else.
    pub fn finish_evaluation(&mut self, expression: String, outcome: Option<i64>)
        ensures
            final(self)@ == old(self)@.evaluated(expression@, outcome),
    {
        self.push_history(expression);
        match outcome {
            Some(value) => {
                self.result = value;
            },
            None => {},
        }
    }
}

/// A name that an expression can use, and the number that it stands for.
#[derive(Debug)]
pub struct Variable {
    pub name: String,
    pub value: i64,
}

/// A `Variable`, with its name as a plain value.
pub struct VariableModel {
    pub name: Seq<char>,
    pub value: i64,
}

impl View for Variable {
    type V = VariableModel;

    open spec fn view(&self) -> VariableModel {
        VariableModel { name: self.name@, value: self.value }
    }
}

/// The variables of a list, each as what it holds.
pub open spec fn variable_views(list: Seq<Variable>) -> Seq<VariableModel> {
    Seq::new(list.len(), |i: int| list[i]@)
}

/// A number below 2 to the 64th read as a signed number of 64 bits.
pub open spec fn as_i64(value: int) -> i64 {
    signed(value, 0x1_0000_0000_0000_0000) as i64
}

/// The variable `name` with the value `value`, where there is a value.
pub open spec fn variable(name: Seq<char>, value: Option<int>) -> Seq<VariableModel> {
    match value {
        Some(v) => seq![VariableModel { name, value: v as i64 }],
        None => Seq::empty(),
    }
}

impl AppModel {
    /// The number that `width` bytes at the cursor stand for, least
    /// significant first, where they all lie inside the file.
    pub open spec fn at_cursor(self, width: nat) -> Option<int> {
        let bytes = self.bytes_at(self.hex_view.offset as int, width);
        if !self.readable(self.hex_view.offset as int, width) {
            None
        } else if width == 1 {
            Some(bytes[0] as int)
        } else if width == 2 {
            Some(le_u16(bytes) as int)
        } else if width == 4 {
            Some(le_u32(bytes) as int)
        } else {
            Some(le_u64(bytes) as int)
        }
    }

    /// The number that `width` bytes at the cursor stand for when they are
    /// read as a signed number.
    pub open spec fn signed_at_cursor(self, width: nat, modulus: int) -> Option<int> {
        match self.at_cursor(width) {
            Some(v) => Some(signed(v, modulus)),
            None => None,
        }
    }

    /// The variables that stand for the comments: each comment names its
    /// offset.
    pub open spec fn comment_variables(self) -> Seq<VariableModel> {
        Seq::new(
            self.hex_view.comment_name_list.len(),
            |i: int|
                VariableModel {
                    name: self.hex_view.comment_name_list[i].comment,
                    value: as_i64(self.hex_view.comment_name_list[i].offset as int),
                },
        )
    }

    /// The variables that stand for what is at the cursor, read as numbers
    /// of one, two, four and eight bytes: with a capital letter unsigned,
    /// with a small letter signed. A number that would run past the end of
    /// the file has no variable.
    pub open spec fn cursor_variables(self) -> Seq<VariableModel> {
        variable("@B"@, self.at_cursor(1)) + variable("@b"@, self.signed_at_cursor(1, 0x100))
            + variable("@W"@, self.at_cursor(2)) + variable(
            "@w"@,
            self.signed_at_cursor(2, 0x1_0000),
        ) + variable("@D"@, self.at_cursor(4)) + variable(
            "@d"@,
            self.signed_at_cursor(4, 0x1_0000_0000),
        ) + variable("@Q"@, self.signed_at_cursor(8, 0x1_0000_0000_0000_0000)) + variable(
            "@q"@,
            self.signed_at_cursor(8, 0x1_0000_0000_0000_0000),
        )
    }

    /// The variables that an expression can use, in the order in which they
    /// are set: the limits of the numbers, the comments, what is at the
    /// cursor, and the offsets of the cursor now and before its last move.
    /// Where a name comes twice, the later one counts.
    pub open spec fn calculator_variables(self) -> Seq<VariableModel> {
        seq![
            VariableModel { name: "i64::MAX"@, value: i64::MAX },
            VariableModel { name: "i64::MIN"@, value: i64::MIN },
        ] + self.comment_variables() + self.cursor_variables() + seq![
            VariableModel { name: "@o"@, value: as_i64(self.hex_view.offset as int) },
            VariableModel { name: "@O"@, value: as_i64(self.hex_view.last_visited_offset as int) },
        ]
    }
}

/// Adds the variable `name` to `list`, where there is a value for it.
fn push_variable(list: &mut Vec<Variable>, name: &str, value: Option<i64>)
    ensures
        variable_views(final(list)@) == variable_views(old(list)@) + variable(
            name@,
            match value {
                Some(v) => Some(v as int),
                None => None,
            },
        ),
{
    let ghost before = list@;
    match value {
        Some(v) => {
            list.push(Variable { name: String::from_str(name), value: v });
            proof {
                assert(variable_views(list@) =~= variable_views(before) + seq![
                    VariableModel { name: name@, value: v },
                ]);
            }
        },
        None => {
            proof {
                assert(variable_views(list@) =~= variable_views(before) + Seq::empty());
            }
        },
    }
}

/// The variables that an expression can use, in the order in which they are
/// to be set.
pub fn load_variables(app: &App) -> (list: Vec<Variable>)
    ensures
        variable_views(list@) == app@.calculator_variables(),
{
    let mut list: Vec<Variable> = Vec::new();
    push_variable(&mut list, "i64::MAX", Some(i64::MAX));
    push_variable(&mut list, "i64::MIN", Some(i64::MIN));
    let ghost head = variable_views(list@);
    proof {
        assert(head =~= seq![
            VariableModel { name: "i64::MAX"@, value: i64::MAX },
            VariableModel { name: "i64::MIN"@, value: i64::MIN },
        ]);
    }
    let n = app.hex_view.comment_name_list.len();
    let mut i: usize = 0;
    while i < n
        invariant
            n == app.hex_view.comment_name_list@.len(),
            i <= n,
            variable_views(list@) == head + app@.comment_variables().take(i as int),
        decreases n - i,
    {
        let ghost before = variable_views(list@);
        let comment = &app.hex_view.comment_name_list[i];
        list.push(Variable { name: comment.comment.clone(), value: i64_of(comment.offset as u64) });
        proof {
            assert(app@.hex_view.comment_name_list[i as int] == comment@);
            assert(variable_views(list@) =~= before.push(app@.comment_variables()[i as int]));
            assert(app@.comment_variables().take(i + 1) =~= app@.comment_variables().take(
                i as int,
            ).push(app@.comment_variables()[i as int]));
        }
        i += 1;
    }
    proof {
        assert(app@.comment_variables().take(n as int) =~= app@.comment_variables());
    }
    let offset = app.hex_view.offset;
    push_variable(
        &mut list,
        "@B",
        match app.read_u8(offset) {
            Some(v) => Some(v as i64),
            None => None,
        },
    );
    push_variable(
        &mut list,
        "@b",
        match app.read_i8(offset) {
            Some(v) => Some(v as i64),
            None => None,
        },
    );
    push_variable(
        &mut list,
        "@W",
        match app.read_u16(offset) {
            Some(v) => Some(v as i64),
            None => None,
        },
    );
    push_variable(
        &mut list,
        "@w",
        match app.read_i16(offset) {
            Some(v) => Some(v as i64),
            None => None,
        },
    );
    push_variable(
        &mut list,
        "@D",
        match app.read_u32(offset) {
            Some(v) => Some(v as i64),
            None => None,
        },
    );
    push_variable(
        &mut list,
        "@d",
        match app.read_i32(offset) {
            Some(v) => Some(v as i64),
            None => None,
        },
    );
    push_variable(
        &mut list,
        "@Q",
        match app.read_u64(offset) {
            Some(v) => Some(i64_of(v)),
            None => None,
        },
    );
    push_variable(&mut list, "@q", app.read_i64(offset));
    push_variable(&mut list, "@o", Some(i64_of(offset as u64)));
    push_variable(&mut list, "@O", Some(i64_of(app.hex_view.last_visited_offset as u64)));
    proof {
        assert(app@.bytes_at(offset as int, 1)[0] == app@.byte_at(offset as int));
        assert(variable_views(list@) =~= app@.calculator_variables());
    }
    list
}

/// Evaluates `expression` with the variables of the session. The
/// expression goes into the history of the calculator; its value, where it
/// has one that is a whole number, becomes the result on show. An
/// expression that is not plain is not evaluated and has no value.
pub fn calculate(app: &mut App, expression: String)
    ensures
        final(app)@ == (AppModel { calculator: final(app)@.calculator, ..old(app)@ }),
        exists|outcome: Option<i64>|
            final(app)@.calculator == old(app)@.calculator.evaluated(expression@, outcome),
        !is_plain(expression@) ==> final(app)@.calculator == old(app)@.calculator.evaluated(
            expression@,
            None,
        ),
{
    let variables = load_variables(app);
    let mut i: usize = 0;
    while i < variables.len()
        invariant
            i <= variables.len(),
            app@ == old(app)@,
        decreases variables.len() - i,
    {
        set_variable(&mut app.calculator.context, variables[i].name.as_str(), variables[i].value);
        i += 1;
    }
    let outcome = if plain(expression.as_str()) {
        evaluate(&mut app.calculator.context, expression.as_str())
    } else {
        None
    };
    app.calculator.finish_evaluation(expression, outcome);
    proof {
        assert(app@.calculator == old(app)@.calculator.evaluated(expression@, outcome));
    }
}

impl AppModel {
    /// The session with its calculator as `calculator`.
    pub open spec fn with_calculator(self, calculator: CalculatorModel) -> AppModel {
        AppModel { calculator, ..self }
    }

    /// `after` is the session after a key is pressed in the calculator,
    /// which holds `value`. Escape closes it; Enter evaluates the
    /// expression; the arrows go through the history.
    pub open spec fn calculator_events(self, key: KeyEvent, value: Seq<char>, after: AppModel) -> bool {
        match key.code {
            KeyCode::Esc => after == self.closed(),
            KeyCode::Enter => exists|outcome: Option<i64>|
                after == self.with_calculator(self.calculator.evaluated(value, outcome)),
            KeyCode::Up => after == self.with_calculator(
                self.calculator.looking_at(self.calculator.up_index()),
            ),
            KeyCode::Down => after == self.with_calculator(
                self.calculator.looking_at(self.calculator.down_index()),
            ),
            _ => after == self,
        }
    }

    /// What is to become of the text input of the calculator after a key:
    /// the arrows put the entry of the history into it that they come to.
    pub open spec fn calculator_input(self, key: KeyEvent) -> InputActionModel {
        match key.code {
            KeyCode::Esc | KeyCode::Enter => InputActionModel::Keep,
            KeyCode::Up => if self.calculator.history.len() > 0 {
                InputActionModel::Replace(self.calculator.history[self.calculator.up_index()])
            } else {
                InputActionModel::Keep
            },
            KeyCode::Down => if self.calculator.history.len() > 0 {
                InputActionModel::Replace(self.calculator.history[self.calculator.down_index()])
            } else {
                InputActionModel::Keep
            },
            _ => InputActionModel::Forward,
        }
    }
}

/// Handles a key pressed in the calculator. `value` is the expression that
/// the calculator holds.
pub fn dialog_calculator_events(app: &mut App, key: KeyEvent, value: String) -> (input:
    InputAction)
    ensures
        old(app)@.calculator_events(key, value@, final(app)@),
        input@ == old(app)@.calculator_input(key),
        old(app)@.wf() ==> final(app)@.wf(),
{
    match key.code {
        KeyCode::Esc => {
            app.close_dialog();
            InputAction::Keep
        },
        KeyCode::Enter => {
            calculate(app, value);
            InputAction::Keep
        },
        KeyCode::Up => match app.calculator.history_up() {
            Some(text) => InputAction::Replace(text),
            None => InputAction::Keep,
        },
        KeyCode::Down => match app.calculator.history_down() {
            Some(text) => InputAction::Replace(text),
            None => InputAction::Keep,
        },
        _ => InputAction::Forward,
    }
}

} // verus!
