use dz6::app::App;
use dz6::editor::{Dialog, UIState};
use dz6::events::{KeyCode, KeyEvent};
use dz6::hex::events::hex_mode_events;
use dz6::hex::search::{
    dialog_search_events, find, hex_string_to_u8, is_match_at, search, search_from, search_needle,
    search_next, SearchMode,
};

fn open(bytes: Vec<u8>) -> App {
    let mut app = App::new();
    app.load_file("/tmp/sample.bin".to_string(), "sample.bin".to_string(), bytes, false, 0);
    app.set_page_size(4);
    app
}

fn key(code: KeyCode) -> KeyEvent {
    KeyEvent::new(code)
}

#[test]
fn hex_patterns_are_decoded_in_pairs() {
    assert_eq!(hex_string_to_u8("4142"), Some(vec![0x41, 0x42]));
    assert_eq!(hex_string_to_u8("00ff"), Some(vec![0x00, 0xff]));
    assert_eq!(hex_string_to_u8("aBcDeF09"), Some(vec![0xab, 0xcd, 0xef, 0x09]));
    assert_eq!(hex_string_to_u8(""), None);
    assert_eq!(hex_string_to_u8("4"), None);
    assert_eq!(hex_string_to_u8("414"), None);
    assert_eq!(hex_string_to_u8("4g"), None);
    assert_eq!(hex_string_to_u8("zz"), None);
    assert_eq!(hex_string_to_u8("+1"), None);
    assert_eq!(hex_string_to_u8("\u{e9}1"), None);
    assert_eq!(hex_string_to_u8("é"), None);
}

#[test]
fn search_mode_switches_between_its_two_values() {
    let mut mode = SearchMode::default();
    assert_eq!(mode, SearchMode::Utf8);
    mode.next();
    assert_eq!(mode, SearchMode::Hex);
    mode.next();
    assert_eq!(mode, SearchMode::Utf8);
}

#[test]
fn search_finds_the_first_match_after_the_cursor() {
    let app = open(vec![0x41, 0x42, 0x00, 0x41, 0x42]);
    let needle = hex_string_to_u8("4142").unwrap();
    assert_eq!(app.hex_view.offset, 0);
    assert_eq!(search(&app, &needle), Some(3));
}

#[test]
fn search_never_returns_the_cursor() {
    let mut app = open(b"abcabcabc".to_vec());
    assert_eq!(search(&app, b"abc"), Some(3));
    app.goto(3);
    assert_eq!(search(&app, b"abc"), Some(6));
    app.goto(6);
    assert_eq!(search(&app, b"abc"), None);
    app.goto(2);
    assert_eq!(search(&app, b"abc"), Some(3));
    assert_eq!(search(&app, b"c"), Some(5));
    app.goto(8);
    assert_eq!(search(&app, b"c"), None);
    assert_eq!(search(&app, b"abcabcabcd"), None);
}

#[test]
fn search_wraps_only_when_it_is_set_to() {
    let mut app = open(b"xxabxxabxx".to_vec());
    app.goto(7);
    assert_eq!(search(&app, b"ab"), None);
    app.config.search_wrap = true;
    assert_eq!(search(&app, b"ab"), Some(2));
    app.goto(2);
    assert_eq!(search(&app, b"ab"), Some(6));
    app.goto(6);
    assert_eq!(search(&app, b"ab"), Some(2));
    assert_eq!(search(&app, b"zz"), None);
    let one = open(b"ab".to_vec());
    assert_eq!(search_from(one.file_info.get_buffer(), b"ab", 0, true), None);
}

#[test]
fn find_and_match_work_on_plain_buffers() {
    let buffer = b"hello world";
    assert!(is_match_at(buffer, b"world", 6));
    assert!(!is_match_at(buffer, b"world", 5));
    assert!(!is_match_at(buffer, b"world", 7));
    assert!(!is_match_at(buffer, b"world", usize::MAX));
    assert!(is_match_at(buffer, b"", 11));
    assert!(!is_match_at(buffer, b"", 12));
    assert_eq!(find(buffer, b"o", 0, 11), Some(4));
    assert_eq!(find(buffer, b"o", 5, 11), Some(7));
    assert_eq!(find(buffer, b"o", 5, 7), None);
    assert_eq!(find(buffer, b"o", 8, 11), None);
    assert_eq!(search_from(buffer, b"l", 2, false), Some(3));
    assert_eq!(search_from(buffer, b"l", 9, false), None);
    assert_eq!(search_from(buffer, b"l", 9, true), Some(2));
    assert_eq!(search_from(buffer, b"l", usize::MAX, false), None);
    assert_eq!(search_from(b"", b"l", 0, true), None);
}

#[test]
fn search_next_uses_the_pattern_of_the_dialog() {
    let mut app = open(b"..ab..AB..ab\x41\x42".to_vec());
    app.hex_view.search.input_text = "ab".to_string();
    assert_eq!(search_needle(&app), Some(b"ab".to_vec()));
    hex_mode_events(&mut app, key(KeyCode::Char('n')));
    assert_eq!(app.hex_view.offset, 2);
    search_next(&mut app);
    assert_eq!(app.hex_view.offset, 10);
    search_next(&mut app);
    assert_eq!(app.hex_view.offset, 10);
    app.hex_view.search.mode = SearchMode::Hex;
    app.hex_view.search.input_hex = "4142".to_string();
    app.goto(0);
    search_next(&mut app);
    assert_eq!(app.hex_view.offset, 6);
    search_next(&mut app);
    assert_eq!(app.hex_view.offset, 12);
    app.hex_view.search.input_hex = "414".to_string();
    assert_eq!(search_needle(&app), None);
    app.goto(0);
    search_next(&mut app);
    assert_eq!(app.hex_view.offset, 0);
    app.hex_view.search.mode = SearchMode::Utf8;
    app.hex_view.search.input_text = String::new();
    assert_eq!(search_needle(&app), None);
    app.hex_view.search.input_text = "\u{e9}".to_string();
    assert_eq!(search_needle(&app), Some(vec![0xc3, 0xa9]));
}

#[test]
fn search_dialog_finds_reports_and_closes() {
    let mut app = open(b"one two three two".to_vec());
    hex_mode_events(&mut app, key(KeyCode::Char('/')));
    assert_eq!(app.state, UIState::DialogSearch);
    assert_eq!(app.dialog_renderer, Some(Dialog::Search));
    assert!(dialog_search_events(&mut app, key(KeyCode::Char('t')), String::new()));
    assert!(dialog_search_events(&mut app, key(KeyCode::Backspace), "t".to_string()));
    assert!(!dialog_search_events(&mut app, key(KeyCode::Enter), "two".to_string()));
    assert_eq!(app.state, UIState::Normal);
    assert_eq!(app.dialog_renderer, None);
    assert_eq!(app.hex_view.offset, 4);
    assert_eq!(app.hex_view.search.input_text, "two");
    app.state = UIState::DialogSearch;
    assert!(!dialog_search_events(&mut app, key(KeyCode::Enter), "four".to_string()));
    assert_eq!(app.dialog_renderer, Some(Dialog::PatternNotFound));
    assert_eq!(app.state, UIState::Normal);
    assert_eq!(app.hex_view.offset, 4);
    app.state = UIState::DialogSearch;
    assert!(!dialog_search_events(&mut app, key(KeyCode::Enter), String::new()));
    assert_eq!(app.dialog_renderer, None);
    app.state = UIState::DialogSearch;
    app.dialog_renderer = Some(Dialog::Search);
    assert!(!dialog_search_events(&mut app, key(KeyCode::Backspace), String::new()));
    assert_eq!(app.state, UIState::Normal);
    assert_eq!(app.dialog_renderer, None);
}

#[test]
fn search_dialog_in_hexadecimal() {
    let mut app = open(vec![1, 2, 3, 0x74, 0x77, 0x6f]);
    app.state = UIState::DialogSearch;
    assert!(!dialog_search_events(&mut app, key(KeyCode::Tab), "kept".to_string()));
    assert_eq!(app.hex_view.search.mode, SearchMode::Hex);
    assert_eq!(app.hex_view.search.input_text, "kept");
    assert!(dialog_search_events(&mut app, key(KeyCode::Char('7')), String::new()));
    assert!(dialog_search_events(&mut app, key(KeyCode::Char('F')), "7".to_string()));
    assert!(!dialog_search_events(&mut app, key(KeyCode::Char('g')), "7".to_string()));
    assert!(dialog_search_events(&mut app, key(KeyCode::Left), "7".to_string()));
    assert!(!dialog_search_events(&mut app, key(KeyCode::Enter), "747".to_string()));
    assert_eq!(app.dialog_renderer, Some(Dialog::InvalidPattern));
    assert_eq!(app.hex_view.offset, 0);
    app.state = UIState::DialogSearch;
    assert!(!dialog_search_events(&mut app, key(KeyCode::Enter), "7477".to_string()));
    assert_eq!(app.dialog_renderer, None);
    assert_eq!(app.hex_view.offset, 3);
    assert_eq!(app.hex_view.search.input_hex, "7477");
    app.state = UIState::DialogSearch;
    assert!(!dialog_search_events(&mut app, key(KeyCode::Esc), "74".to_string()));
    assert_eq!(app.state, UIState::Normal);
    assert_eq!(app.hex_view.search.input_hex, "74");
}
