//! Finding the strings in the file.

use crate::app::{App, AppModel};
use crate::commands::Commands;
use crate::editor::{Dialog, UIState};
use crate::events::{KeyCode, KeyEvent};
use crate::hex::draw::{label_views, list_item, list_row};
use crate::util::{decimal_text, push_char, to_decimal};
use regex::{Regex, RegexBuilder};
use vstd::prelude::*;
use vstd::string::StringExecFns;

verus! {

/// `regex::Regex`: a compiled pattern. Nothing of what it holds is read here.
#[verifier::external_type_specification]
#[verifier::external_body]
pub struct ExRegex(Regex);

/// The texts in which a compiled pattern finds a match.
pub uninterp spec fn regex_language(re: Regex) -> Set<Seq<char>>;

/// What `pattern` compiles to, with upper and lower case counting as the
/// same where `case_insensitive` says so: the texts in which it finds a
/// match, or nothing where it is no pattern or too large a one.
pub uninterp spec fn pattern_language(pattern: Seq<char>, case_insensitive: bool) -> Option<
    Set<Seq<char>>,
>;

/// `regex::RegexBuilder::build`, after `regex::RegexBuilder::case_insensitive`:
/// compiles `pattern`. The result is a function of the pattern and the flag
/// alone, and a pattern that is refused gives nothing.
#[verifier::external_body]
pub(crate) fn compile_filter(pattern: &str, case_insensitive: bool) -> (r: Option<Regex>)
    ensures
        match r {
            Some(re) => pattern_language(pattern@, case_insensitive) == Some(regex_language(re)),
            None => pattern_language(pattern@, case_insensitive) is None,
        },
{
    RegexBuilder::new(pattern).case_insensitive(case_insensitive).build().ok()
}

/// `regex::Regex::is_match`: tells whether the pattern finds a match
/// anywhere in `text`.
#[verifier::external_body]
pub(crate) fn filter_matches(re: &Regex, text: &str) -> (r: bool)
    ensures
        r == regex_language(*re).contains(text@),
{
    re.is_match(text)
}

/// A run of printable bytes found in the file.
#[derive(Debug)]
pub struct FoundString {
    pub offset: usize,
    pub content: String,
    pub size: usize,
}

/// A `FoundString`, with its text as a plain value.
pub struct FoundStringModel {
    pub offset: usize,
    pub content: Seq<char>,
    pub size: usize,
}

impl View for FoundString {
    type V = FoundStringModel;

    open spec fn view(&self) -> FoundStringModel {
        FoundStringModel { offset: self.offset, content: self.content@, size: self.size }
    }
}

/// The strings of a list, each as what it holds.
pub open spec fn found_views(list: Seq<FoundString>) -> Seq<FoundStringModel> {
    Seq::new(list.len(), |i: int| list[i]@)
}

/// A byte that counts as part of a string: printable ASCII or a space.
pub open spec fn is_printable(b: u8) -> bool {
    0x20 <= b <= 0x7e
}

/// The `len` bytes of `buffer` from `start` on are a run: they are all
/// printable, and the run cannot be made longer on either side.
pub open spec fn is_run(buffer: Seq<u8>, start: int, len: int) -> bool {
    &&& 0 <= start
    &&& 1 <= len
    &&& start + len <= buffer.len()
    &&& forall|k: int| start <= k < start + len ==> is_printable(#[trigger] buffer[k])
    &&& start == 0 || !is_printable(buffer[start - 1])
    &&& start + len == buffer.len() || !is_printable(buffer[start + len])
}

/// The text of the `len` bytes of `buffer` from `start` on.
pub open spec fn run_text(buffer: Seq<u8>, start: int, len: int) -> Seq<char> {
    Seq::new(len as nat, |i: int| buffer[start + i] as char)
}

/// `text` gets through `filter`: no filter lets everything through.
pub open spec fn passes(filter: Option<Set<Seq<char>>>, text: Seq<char>) -> bool {
    match filter {
        Some(language) => language.contains(text),
        None => true,
    }
}

/// The run of `len` bytes from `start` on is one to keep: it has at least
/// `min` bytes and its text gets through `filter`.
pub open spec fn is_wanted(
    buffer: Seq<u8>,
    min: int,
    filter: Option<Set<Seq<char>>>,
    start: int,
    len: int,
) -> bool {
    is_run(buffer, start, len) && len >= min && passes(filter, run_text(buffer, start, len))
}

/// `found` is a wanted run of `buffer`, with its text.
pub open spec fn is_found(
    buffer: Seq<u8>,
    min: int,
    filter: Option<Set<Seq<char>>>,
    found: FoundStringModel,
) -> bool {
    &&& is_wanted(buffer, min, filter, found.offset as int, found.size as int)
    &&& found.content == run_text(buffer, found.offset as int, found.size as int)
}

/// `found` is what a scan of `buffer` gives: the wanted runs in the order in
/// which they stand in the buffer, up to the first `max` of them.
pub open spec fn is_scan_result(
    buffer: Seq<u8>,
    min: int,
    max: int,
    filter: Option<Set<Seq<char>>>,
    found: Seq<FoundStringModel>,
) -> bool {
    &&& found.len() <= max
    &&& forall|i: int| 0 <= i < found.len() ==> is_found(buffer, min, filter, #[trigger] found[i])
    &&& forall|i: int, j: int|
        0 <= i < j < found.len() ==> (#[trigger] found[i]).offset < (#[trigger] found[j]).offset
    &&& forall|start: int, len: int| #[trigger]
        is_wanted(buffer, min, filter, start, len) ==> listed(found, start) || (found.len() == max
            && (max == 0 || found.last().offset < start))
}

/// A string that starts at `start` is in the list.
pub open spec fn listed(found: Seq<FoundStringModel>, start: int) -> bool {
    exists|i: int| 0 <= i < found.len() && (#[trigger] found[i]).offset == start
}

/// The texts that the filter of a scan lets through.
pub open spec fn filter_language(filter: Option<Regex>) -> Option<Set<Seq<char>>> {
    match filter {
        Some(re) => Some(regex_language(re)),
        None => None,
    }
}

/// Tells whether a byte is printable ASCII or a space.
pub fn printable(b: u8) -> (r: bool)
    ensures
        r == is_printable(b),
{
    0x20 <= b && b <= 0x7e
}

/// A run has one length only: it ends where the first byte that is not
/// printable stands, or the buffer ends.
proof fn lemma_run_length(buffer: Seq<u8>, start: int, len: int, end: int)
    requires
        is_run(buffer, start, len),
        start < end <= buffer.len(),
        forall|k: int| start <= k < end ==> is_printable(#[trigger] buffer[k]),
        end == buffer.len() || !is_printable(buffer[end]),
    ensures
        start + len == end,
{
    if start + len < end {
        assert(is_printable(buffer[start + len]));
    } else if start + len > end {
        assert(is_printable(buffer[end]));
    }
}

/// Scans `buffer` for strings: runs of printable bytes that are at least
/// `min` bytes long and get through `filter`. The scan stops when it has
/// `max` of them.
pub fn scan_strings(buffer: &[u8], min: usize, max: usize, filter: &Option<Regex>) -> (found: Vec<
    FoundString,
>)
    ensures
        is_scan_result(
            buffer@,
            min as int,
            max as int,
            filter_language(*filter),
            found_views(found@),
        ),
{
    let n = buffer.len();
    let mut found: Vec<FoundString> = Vec::new();
    let ghost language = filter_language(*filter);
    if max == 0 {
        return found;
    }
    let mut i: usize = 0;
    while i < n
        invariant
            n == buffer.len(),
            i <= n,
            max > 0,
            language == filter_language(*filter),
            i == 0 || i == n || !is_printable(buffer[i - 1]) || !is_printable(buffer[i as int]),
            found.len() < max,
            forall|k: int|
                0 <= k < found.len() ==> is_found(
                    buffer@,
                    min as int,
                    language,
                    #[trigger] found_views(found@)[k],
                ) && found_views(found@)[k].offset < i,
            forall|j: int, k: int|
                0 <= j < k < found.len() ==> (#[trigger] found_views(found@)[j]).offset < (
                #[trigger] found_views(found@)[k]).offset,
            forall|start: int, len: int| #[trigger]
                is_wanted(buffer@, min as int, language, start, len) && start < i ==> listed(
                    found_views(found@),
                    start,
                ),
        decreases n - i,
    {
        if !printable(buffer[i]) {
            i += 1;
            continue ;
        }
        let start = i;
        let mut text = String::new();
        while i < n && printable(buffer[i])
            invariant
                n == buffer.len(),
                start <= i <= n,
                start < n,
                is_printable(buffer[start as int]),
                start == 0 || !is_printable(buffer[start - 1]),
                forall|k: int| start <= k < i ==> is_printable(#[trigger] buffer[k]),
                text@ == run_text(buffer@, start as int, i - start),
            decreases n - i,
        {
            let ghost before = text@;
            push_char(&mut text, buffer[i] as char);
            i += 1;
            proof {
                assert(text@ =~= run_text(buffer@, start as int, i - start));
            }
        }
        let len = i - start;
        proof {
            assert(is_run(buffer@, start as int, len as int));
            assert forall|s: int, l: int| #[trigger]
                is_wanted(buffer@, min as int, language, s, l) && start <= s < i implies s == start
                && l == len by {
                if s > start {
                    assert(is_printable(buffer[s - 1]));
                }
                lemma_run_length(buffer@, s, l, i as int);
            }
        }
        let wanted = len >= min && match filter {
            Some(re) => filter_matches(re, text.as_str()),
            None => true,
        };
        if wanted {
            let ghost views = found_views(found@);
            let ghost entry = FoundStringModel { offset: start, content: text@, size: len };
            found.push(FoundString { offset: start, content: text, size: len });
            proof {
                assert(found_views(found@) =~= views.push(entry));
                assert forall|s: int, l: int| #[trigger]
                    is_wanted(buffer@, min as int, language, s, l) && s < i implies listed(
                    found_views(found@),
                    s,
                ) by {
                    if s < start {
                        assert(listed(views, s));
                        let k = choose|k: int| 0 <= k < views.len() && (#[trigger] views[k]).offset
                            == s;
                        assert(found_views(found@)[k].offset == s);
                    } else {
                        assert(found_views(found@)[views.len() as int].offset == s);
                    }
                }
            }
            if found.len() >= max {
                proof {
                    let all = found_views(found@);
                    assert forall|s: int, l: int| #[trigger]
                        is_wanted(buffer@, min as int, language, s, l) implies listed(all, s) || (
                    all.len() == max && (max == 0 || all.last().offset < s)) by {
                        if s >= i {
                            assert(all.last().offset == start);
                        }
                    }
                }
                return found;
            }
        }
    }
    found
}

impl AppModel {
    /// `strings` is the list of strings that the session holds after they
    /// were asked for. A list that is there is used again, unless a fresh
    /// scan is `forced`; a scan goes by the session's settings and pattern,
    /// with upper and lower case counting as the same.
    pub open spec fn strings_loaded(self, forced: bool, strings: Seq<FoundStringModel>) -> bool {
        if !forced && self.strings.len() > 0 {
            strings == self.strings
        } else {
            is_scan_result(
                self.file_info.buffer,
                self.config.minimum_string_length as int,
                self.config.maximum_strings_to_show as int,
                pattern_language(self.string_regex, true),
                strings,
            )
        }
    }

    /// The session with the list of strings on show.
    pub open spec fn strings_shown(self) -> AppModel {
        AppModel {
            state: UIState::DialogStrings,
            dialog_renderer: Some(Dialog::Strings),
            ..self
        }
    }
}

impl Commands {
    /// Shows the list of the strings in the file, scanning the file for them
    /// where there is no list yet.
    pub fn strings(app: &mut App)
        ensures
            final(app)@ == (AppModel { strings: final(app)@.strings, ..old(app)@.strings_shown() }),
            old(app)@.strings_loaded(false, final(app)@.strings),
            old(app)@.wf() ==> final(app)@.wf(),
    {
        Commands::load_strings(app, false);
        app.state = UIState::DialogStrings;
        app.dialog_renderer = Some(Dialog::Strings);
    }

    /// Fills the list of the strings in the file. A list that is there is
    /// kept, unless `force_read` asks for a fresh scan. A pattern that does
    /// not compile filters nothing out.
    pub fn load_strings(app: &mut App, force_read: bool)
        ensures
            final(app)@ == (AppModel { strings: final(app)@.strings, ..old(app)@ }),
            old(app)@.strings_loaded(force_read, final(app)@.strings),
            old(app)@.wf() ==> final(app)@.wf(),
    {
        if !force_read && app.strings.len() > 0 {
            return ;
        }
        let filter = compile_filter(app.string_regex.as_str(), true);
        app.strings = scan_strings(
            app.file_info.buffer.as_slice(),
            app.config.minimum_string_length,
            app.config.maximum_strings_to_show,
            &filter,
        );
    }
}

impl AppModel {
    /// The row picked in the list of strings lies past the end of the list.
    pub open spec fn string_row_missing(self) -> bool {
        match self.list_state.selected {
            Some(row) => row >= self.strings.len(),
            None => false,
        }
    }

    /// The session after Enter in the list of strings: the cursor goes to
    /// the string picked and the list is closed. Where no row is picked, or
    /// one past the end of the list, nothing changes.
    pub open spec fn string_chosen(self) -> AppModel {
        match self.list_state.selected {
            Some(row) => if row < self.strings.len() {
                self.goto(self.strings[row as int].offset).closed()
            } else {
                self
            },
            None => self,
        }
    }

    /// The session with strings of at least `min` bytes asked for.
    pub open spec fn with_minimum_length(self, min: usize) -> AppModel {
        AppModel {
            config: crate::config::Config { minimum_string_length: min, ..self.config },
            ..self
        }
    }

    /// The settings by which the key has the strings listed anew, where it
    /// does: `+` and `-` ask for longer and for shorter strings, down to
    /// one byte, and `R` asks for the same again.
    pub open spec fn rescan_for(self, key: KeyEvent) -> Option<AppModel> {
        let min = self.config.minimum_string_length;
        match key.code {
            KeyCode::Char(c) => if c == '+' {
                Some(
                    self.with_minimum_length(
                        if min < usize::MAX {
                            (min + 1) as usize
                        } else {
                            min
                        },
                    ),
                )
            } else if c == '-' && min > 1 {
                Some(self.with_minimum_length((min - 1) as usize))
            } else if c == 'R' {
                Some(self)
            } else {
                None
            },
            _ => None,
        }
    }

    /// `after` is the session after a key is pressed in the list of
    /// strings. Escape closes the list, Enter goes to the string picked,
    /// `f` asks for a pattern, `+`, `-` and `R` have the strings listed
    /// anew, and the other keys move through the list.
    pub open spec fn strings_events(self, key: KeyEvent, after: AppModel) -> bool {
        match self.rescan_for(key) {
            Some(set) => {
                &&& after == (AppModel { strings: after.strings, ..set })
                &&& set.strings_loaded(true, after.strings)
            },
            None => match key.code {
                KeyCode::Esc => after == self.closed(),
                KeyCode::Enter => after == self.string_chosen(),
                KeyCode::Char(c) => if c == 'f' {
                    after == (AppModel {
                        state: UIState::DialogStringsRegex,
                        dialog_2nd_renderer: Some(Dialog::StringsRegex),
                        ..self
                    })
                } else if c == '-' {
                    after == self
                } else {
                    after == (AppModel { list_state: self.list_state.moved(key), ..self })
                },
                _ => after == (AppModel { list_state: self.list_state.moved(key), ..self }),
            },
        }
    }

    /// `after` is the session after a key is pressed in the dialog that
    /// asks for the pattern of the list of strings. Escape goes back to the
    /// list; Enter takes the pattern `value` and has the strings listed
    /// anew.
    pub open spec fn strings_regex_events(
        self,
        key: KeyEvent,
        value: Seq<char>,
        after: AppModel,
    ) -> bool {
        let back = AppModel {
            dialog_2nd_renderer: None,
            state: UIState::DialogStrings,
            ..self
        };
        match key.code {
            KeyCode::Esc => after == back,
            KeyCode::Enter => {
                let taken = AppModel { string_regex: value, ..back };
                &&& after == (AppModel { strings: after.strings, ..taken })
                &&& taken.strings_loaded(true, after.strings)
            },
            _ => after == self,
        }
    }
}

impl App {
    /// Goes to the string that is picked in the list of strings.
    fn choose_string(&mut self) -> (refused: bool)
        requires
            old(self)@.wf(),
        ensures
            final(self)@ == old(self)@.string_chosen(),
            refused == old(self)@.string_row_missing(),
            final(self)@.wf(),
    {
        match self.list_state.selected {
            Some(row) => {
                if row >= self.strings.len() {
                    return true;
                }
                proof {
                    assert(self@.strings[row as int] == self.strings@[row as int]@);
                }
                self.goto(self.strings[row].offset);
                self.close_dialog();
            },
            None => {},
        }
        false
    }
}

/// Handles a key pressed in the list of strings.
pub fn dialog_strings_events(app: &mut App, key: KeyEvent) -> (refused: bool)
    requires
        old(app)@.wf(),
    ensures
        old(app)@.strings_events(key, final(app)@),
        refused == (key.code == KeyCode::Enter && old(app)@.string_row_missing()),
        final(app)@.wf(),
{
    match key.code {
        KeyCode::Esc => {
            app.close_dialog();
        },
        KeyCode::Enter => {
            return app.choose_string();
        },
        KeyCode::Char(c) => {
            if c == '+' {
                if app.config.minimum_string_length < usize::MAX {
                    app.config.minimum_string_length = app.config.minimum_string_length + 1;
                }
                Commands::load_strings(app, true);
            } else if c == '-' {
                if app.config.minimum_string_length > 1 {
                    app.config.minimum_string_length = app.config.minimum_string_length - 1;
                    Commands::load_strings(app, true);
                }
            } else if c == 'R' {
                Commands::load_strings(app, true);
            } else if c == 'f' {
                app.state = UIState::DialogStringsRegex;
                app.dialog_2nd_renderer = Some(Dialog::StringsRegex);
            } else {
                app.list_state.move_by_key(key);
            }
        },
        _ => {
            app.list_state.move_by_key(key);
        },
    }
    false
}

/// Handles a key pressed in the dialog that asks for the pattern of the
/// list of strings. `value` is the text that the dialog holds. The answer
/// tells whether the text input is to take the key.
pub fn dialog_strings_regex_events(app: &mut App, key: KeyEvent, value: String) -> (forward: bool)
    ensures
        old(app)@.strings_regex_events(key, value@, final(app)@),
        forward == (key.code != KeyCode::Esc && key.code != KeyCode::Enter),
        old(app)@.wf() ==> final(app)@.wf(),
{
    match key.code {
        KeyCode::Esc => {
            app.dialog_2nd_renderer = None;
            app.state = UIState::DialogStrings;
            false
        },
        KeyCode::Enter => {
            app.string_regex = value;
            app.dialog_2nd_renderer = None;
            app.state = UIState::DialogStrings;
            Commands::load_strings(app, true);
            false
        },
        _ => true,
    }
}

/// The rows that the list of strings shows for `strings`: one for each
/// string of at least `min` bytes.
pub open spec fn string_rows(strings: Seq<FoundStringModel>, min: usize) -> Seq<Seq<char>>
    decreases strings.len(),
{
    if strings.len() == 0 {
        Seq::empty()
    } else if strings.last().size >= min {
        string_rows(strings.drop_last(), min).push(
            list_row(strings.last().offset, strings.last().content),
        )
    } else {
        string_rows(strings.drop_last(), min)
    }
}

impl AppModel {
    /// How many strings the title of the list tells of: their number, with
    /// a `+` where the list is as long as it may be and there may be more.
    pub open spec fn strings_count_text(self) -> Seq<char> {
        if self.strings.len() == self.config.maximum_strings_to_show {
            decimal_text(self.strings.len()) + "+"@
        } else {
            decimal_text(self.strings.len())
        }
    }
}

/// The rows of the list of strings.
pub fn dialog_strings_draw(app: &App) -> (rows: Vec<String>)
    ensures
        label_views(rows@) == string_rows(app@.strings, app.config.minimum_string_length),
{
    let min = app.config.minimum_string_length;
    let mut rows: Vec<String> = Vec::new();
    let mut i: usize = 0;
    proof {
        assert(app@.strings.take(0) =~= Seq::empty());
        assert(label_views(rows@) =~= Seq::empty());
    }
    while i < app.strings.len()
        invariant
            i <= app.strings.len(),
            min == app.config.minimum_string_length,
            label_views(rows@) == string_rows(app@.strings.take(i as int), min),
        decreases app.strings.len() - i,
    {
        let ghost before = label_views(rows@);
        proof {
            assert(app@.strings.take(i + 1).drop_last() =~= app@.strings.take(i as int));
            assert(app@.strings.take(i + 1).last() == app.strings@[i as int]@);
        }
        if app.strings[i].size >= min {
            rows.push(list_item(app.strings[i].offset, app.strings[i].content.as_str()));
            proof {
                assert(label_views(rows@) =~= before.push(
                    list_row(app.strings@[i as int].offset, app.strings@[i as int].content@),
                ));
            }
        }
        i += 1;
    }
    proof {
        assert(app@.strings.take(app.strings.len() as int) =~= app@.strings);
    }
    rows
}

/// How many strings the title of the list tells of.
pub fn strings_count(app: &App) -> (text: String)
    ensures
        text@ == app@.strings_count_text(),
{
    let mut text = to_decimal(app.strings.len());
    if app.strings.len() == app.config.maximum_strings_to_show {
        text.append("+");
    }
    text
}

} // verus!
