use dz6::app::App;
use dz6::commands::Commands;
use dz6::editor::{Dialog, UIState};
use dz6::events::{KeyCode, KeyEvent, KeyModifiers};
use dz6::hex::events::hex_mode_events;
use dz6::hex::strings::{
    dialog_strings_events, dialog_strings_regex_events, printable, scan_strings, FoundString,
};

fn open(bytes: Vec<u8>) -> App {
    let mut app = App::new();
    app.load_file("/tmp/sample.bin".to_string(), "sample.bin".to_string(), bytes, false, 0);
    app.set_page_size(4);
    app
}

fn key(code: KeyCode) -> KeyEvent {
    KeyEvent::new(code)
}

fn ctrl(code: KeyCode) -> KeyEvent {
    KeyEvent { code, modifiers: KeyModifiers { control: true, alt: false } }
}

fn list(found: &[FoundString]) -> Vec<(usize, String, usize)> {
    found.iter().map(|s| (s.offset, s.content.clone(), s.size)).collect()
}

#[test]
fn printable_bytes_are_the_graphic_ones_and_the_space() {
    assert!(printable(b' '));
    assert!(printable(b'~'));
    assert!(printable(b'A'));
    assert!(!printable(0x1f));
    assert!(!printable(0x7f));
    assert!(!printable(0));
    assert!(!printable(0xff));
    assert!(!printable(b'\n'));
    assert!(!printable(b'\t'));
}

#[test]
fn scan_keeps_the_runs_that_are_long_enough() {
    let found = scan_strings(b"AB\x00WXYZ\x01", 4, 3000, &None);
    assert_eq!(list(&found), vec![(3, "WXYZ".to_string(), 4)]);
}

#[test]
fn scan_keeps_a_run_that_ends_with_the_buffer() {
    let found = scan_strings(b"\x00abcd\x00efgh", 4, 10, &None);
    assert_eq!(list(&found), vec![(1, "abcd".to_string(), 4), (6, "efgh".to_string(), 4)]);
    let whole = scan_strings(b"hello world", 1, 10, &None);
    assert_eq!(list(&whole), vec![(0, "hello world".to_string(), 11)]);
    assert!(scan_strings(b"", 1, 10, &None).is_empty());
    assert!(scan_strings(b"\x00\x01\x02", 0, 10, &None).is_empty());
    assert!(scan_strings(b"abc", 4, 10, &None).is_empty());
}

#[test]
fn scan_stops_at_the_most_strings_to_show() {
    let buffer = b"aaaa\x00bbbb\x00cccc\x00dddd";
    assert_eq!(scan_strings(buffer, 4, 2, &None).len(), 2);
    assert_eq!(
        list(&scan_strings(buffer, 4, 2, &None)),
        vec![(0, "aaaa".to_string(), 4), (5, "bbbb".to_string(), 4)]
    );
    assert_eq!(scan_strings(buffer, 4, 4, &None).len(), 4);
    assert_eq!(scan_strings(buffer, 4, 5, &None).len(), 4);
    assert_eq!(scan_strings(buffer, 4, 1, &None).len(), 1);
    assert!(scan_strings(buffer, 4, 0, &None).is_empty());
    assert_eq!(scan_strings(buffer, 0, 100, &None).len(), 4);
}

#[test]
fn load_strings_filters_without_regard_to_case() {
    let mut app = open(b"hello\x00WORLD\x00abcd\x00World wide\x00".to_vec());
    app.string_regex = "world".to_string();
    Commands::load_strings(&mut app, true);
    assert_eq!(
        list(&app.strings),
        vec![(6, "WORLD".to_string(), 5), (17, "World wide".to_string(), 10)]
    );
    app.string_regex = "^w.*d$".to_string();
    Commands::load_strings(&mut app, true);
    assert_eq!(list(&app.strings), vec![(6, "WORLD".to_string(), 5)]);
    app.string_regex = "nothing like it".to_string();
    Commands::load_strings(&mut app, true);
    assert!(app.strings.is_empty());
}

#[test]
fn a_pattern_that_does_not_compile_filters_nothing_out() {
    let mut app = open(b"hello\x00WORLD\x00abcd\x00".to_vec());
    for pattern in ["(", "[a-", "*", ""] {
        app.string_regex = pattern.to_string();
        Commands::load_strings(&mut app, true);
        assert_eq!(app.strings.len(), 3);
    }
}

#[test]
fn load_strings_uses_the_list_that_is_there() {
    let mut app = open(b"hello\x00WORLD\x00".to_vec());
    Commands::load_strings(&mut app, false);
    assert_eq!(app.strings.len(), 2);
    app.config.minimum_string_length = 100;
    Commands::load_strings(&mut app, false);
    assert_eq!(app.strings.len(), 2);
    Commands::load_strings(&mut app, true);
    assert!(app.strings.is_empty());
    app.config.minimum_string_length = 5;
    Commands::load_strings(&mut app, false);
    assert_eq!(app.strings.len(), 2);
}

#[test]
fn every_string_found_meets_the_settings() {
    let mut bytes = Vec::new();
    let mut seed: u32 = 99;
    for _ in 0..4000 {
        seed = seed.wrapping_mul(1103515245).wrapping_add(12345);
        let r = (seed >> 16) % 100;
        bytes.push(if r < 70 { b'a' + (r % 26) as u8 } else { (r % 32) as u8 });
    }
    let mut app = open(bytes.clone());
    app.config.minimum_string_length = 3;
    app.config.maximum_strings_to_show = 25;
    app.string_regex = "A".to_string();
    Commands::load_strings(&mut app, true);
    assert_eq!(app.strings.len(), 25);
    let mut last = None;
    for s in &app.strings {
        assert!(s.size >= 3);
        assert_eq!(s.content.len(), s.size);
        assert!(s.content.to_lowercase().contains('a'));
        assert_eq!(s.content.as_bytes(), &bytes[s.offset..s.offset + s.size]);
        assert!(s.offset == 0 || !printable(bytes[s.offset - 1]));
        assert!(s.offset + s.size == bytes.len() || !printable(bytes[s.offset + s.size]));
        assert!(last < Some(s.offset));
        last = Some(s.offset);
    }
}

#[test]
fn strings_key_shows_the_list() {
    let mut app = open(b"hello\x00WORLD\x00".to_vec());
    hex_mode_events(&mut app, key(KeyCode::Char('s')));
    assert_eq!(app.state, UIState::DialogStrings);
    assert_eq!(app.dialog_renderer, Some(Dialog::Strings));
    assert_eq!(app.strings.len(), 2);
}

#[test]
fn strings_dialog_goes_to_the_string_picked() {
    let mut app = open(b"hello\x00WORLD\x00abcdef\x00".to_vec());
    Commands::strings(&mut app);
    assert_eq!(app.list_state.selected, None);
    assert!(!dialog_strings_events(&mut app, key(KeyCode::Enter)));
    assert_eq!(app.state, UIState::DialogStrings);
    dialog_strings_events(&mut app, key(KeyCode::Down));
    assert_eq!(app.list_state.selected, Some(0));
    dialog_strings_events(&mut app, key(KeyCode::Char('j')));
    assert_eq!(app.list_state.selected, Some(1));
    dialog_strings_events(&mut app, key(KeyCode::Char('k')));
    dialog_strings_events(&mut app, key(KeyCode::Up));
    assert_eq!(app.list_state.selected, Some(0));
    dialog_strings_events(&mut app, key(KeyCode::PageDown));
    assert_eq!(app.list_state.selected, Some(30));
    assert!(dialog_strings_events(&mut app, key(KeyCode::Enter)));
    assert_eq!(app.state, UIState::DialogStrings);
    dialog_strings_events(&mut app, key(KeyCode::Home));
    assert_eq!(app.list_state.selected, Some(1));
    dialog_strings_events(&mut app, key(KeyCode::End));
    assert_eq!(app.list_state.selected, Some(30));
    dialog_strings_events(&mut app, key(KeyCode::PageUp));
    assert_eq!(app.list_state.selected, Some(0));
    dialog_strings_events(&mut app, ctrl(KeyCode::End));
    assert_eq!(app.list_state.selected, Some(usize::MAX));
    dialog_strings_events(&mut app, ctrl(KeyCode::Home));
    dialog_strings_events(&mut app, key(KeyCode::Down));
    dialog_strings_events(&mut app, key(KeyCode::Down));
    assert_eq!(app.list_state.selected, Some(2));
    assert!(!dialog_strings_events(&mut app, key(KeyCode::Enter)));
    assert_eq!(app.hex_view.offset, 12);
    assert_eq!(app.state, UIState::Normal);
    assert_eq!(app.dialog_renderer, None);
}

#[test]
fn strings_dialog_changes_the_least_length() {
    let mut app = open(b"ab\x00abc\x00abcd\x00abcde\x00".to_vec());
    Commands::strings(&mut app);
    assert_eq!(app.config.minimum_string_length, 4);
    assert_eq!(app.strings.len(), 2);
    dialog_strings_events(&mut app, key(KeyCode::Char('+')));
    assert_eq!(app.config.minimum_string_length, 5);
    assert_eq!(app.strings.len(), 1);
    for _ in 0..3 {
        dialog_strings_events(&mut app, key(KeyCode::Char('-')));
    }
    assert_eq!(app.config.minimum_string_length, 2);
    assert_eq!(app.strings.len(), 4);
    dialog_strings_events(&mut app, key(KeyCode::Char('-')));
    dialog_strings_events(&mut app, key(KeyCode::Char('-')));
    assert_eq!(app.config.minimum_string_length, 1);
    app.config.maximum_strings_to_show = 1;
    dialog_strings_events(&mut app, key(KeyCode::Char('R')));
    assert_eq!(app.strings.len(), 1);
    dialog_strings_events(&mut app, key(KeyCode::Esc));
    assert_eq!(app.state, UIState::Normal);
}

#[test]
fn strings_pattern_dialog_takes_the_pattern() {
    let mut app = open(b"hello\x00WORLD\x00".to_vec());
    Commands::strings(&mut app);
    dialog_strings_events(&mut app, key(KeyCode::Char('f')));
    assert_eq!(app.state, UIState::DialogStringsRegex);
    assert_eq!(app.dialog_2nd_renderer, Some(Dialog::StringsRegex));
    assert!(dialog_strings_regex_events(&mut app, key(KeyCode::Char('w')), String::new()));
    assert!(!dialog_strings_regex_events(&mut app, key(KeyCode::Enter), "wor".to_string()));
    assert_eq!(app.string_regex, "wor");
    assert_eq!(app.state, UIState::DialogStrings);
    assert_eq!(app.dialog_2nd_renderer, None);
    assert_eq!(app.strings.len(), 1);
    assert_eq!(app.strings[0].content, "WORLD");
    dialog_strings_events(&mut app, key(KeyCode::Char('f')));
    assert!(!dialog_strings_regex_events(&mut app, key(KeyCode::Esc), "x".to_string()));
    assert_eq!(app.string_regex, "wor");
    assert_eq!(app.state, UIState::DialogStrings);
}
