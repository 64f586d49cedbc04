use dz6::app::App;
use dz6::commands::Commands;
use dz6::database::{database_file_name, Database};
use dz6::editor::{Dialog, UIState};
use dz6::events::{KeyCode, KeyEvent, KeyModifiers};
use dz6::hex::comment::{dialog_comment_events, Comment};
use dz6::hex::events::hex_mode_events;
use dz6::hex::names::{
    dialog_names_events, dialog_names_regex_events, sort_comments, text_before,
};

fn open(bytes: Vec<u8>) -> App {
    let mut app = App::new();
    app.load_file("/tmp/sample.bin".to_string(), "sample.bin".to_string(), bytes, false, 0);
    app.set_page_size(4);
    app
}

fn key(code: KeyCode) -> KeyEvent {
    KeyEvent::new(code)
}

fn alt(code: KeyCode) -> KeyEvent {
    KeyEvent { code, modifiers: KeyModifiers { control: false, alt: true } }
}

fn names(app: &App) -> Vec<(usize, String)> {
    app.hex_view.comment_name_list.iter().map(|c| (c.offset, c.comment.clone())).collect()
}

fn check_comments(app: &App) {
    let list = &app.hex_view.comment_name_list;
    assert_eq!(list.len(), app.hex_view.comments.len());
    for (i, c) in list.iter().enumerate() {
        assert_eq!(app.hex_view.comments.get(&c.offset), Some(&c.comment));
        assert!(!c.comment.is_empty());
        for d in &list[i + 1..] {
            assert!(c.offset != d.offset);
        }
    }
}

#[test]
fn there_are_never_more_than_eight_bookmarks() {
    let mut app = open(vec![0u8; 64]);
    for k in 0..20 {
        app.goto(k);
        hex_mode_events(&mut app, key(KeyCode::Char('+')));
        assert!(app.hex_view.bookmarks.len() <= 8);
    }
    assert_eq!(app.hex_view.bookmarks, vec![0, 1, 2, 3, 4, 5, 6, 7]);
    app.add_bookmark();
    assert_eq!(app.hex_view.bookmarks.len(), 8);
}

#[test]
fn bookmarks_are_kept_in_the_order_they_were_added() {
    let mut app = open(vec![0u8; 64]);
    for k in [30usize, 10, 20, 10] {
        app.goto(k);
        app.add_bookmark();
    }
    assert_eq!(app.hex_view.bookmarks, vec![30, 10, 20, 10]);
    app.remove_last_bookmark();
    assert_eq!(app.hex_view.bookmarks, vec![30, 10, 20]);
    app.goto(10);
    app.remove_bookmark_at_cursor();
    assert_eq!(app.hex_view.bookmarks, vec![30, 10, 20]);
    hex_mode_events(&mut app, alt(KeyCode::Char('-')));
    assert_eq!(app.hex_view.bookmarks, vec![30, 10, 20]);
    app.goto(20);
    hex_mode_events(&mut app, alt(KeyCode::Char('-')));
    assert_eq!(app.hex_view.bookmarks, vec![30, 10]);
    app.clear_bookmarks();
    assert!(app.hex_view.bookmarks.is_empty());
    app.remove_last_bookmark();
    app.remove_bookmark_at_cursor();
    assert!(app.hex_view.bookmarks.is_empty());
}

#[test]
fn keys_go_to_bookmarks() {
    let mut app = open(vec![0u8; 64]);
    for k in [30usize, 10, 20] {
        app.goto(k);
        app.add_bookmark();
    }
    app.goto(0);
    hex_mode_events(&mut app, key(KeyCode::Char('-')));
    assert_eq!(app.hex_view.offset, 20);
    assert_eq!(app.hex_view.bookmarks.len(), 3);
    hex_mode_events(&mut app, alt(KeyCode::Char('1')));
    assert_eq!(app.hex_view.offset, 30);
    hex_mode_events(&mut app, alt(KeyCode::Char('2')));
    assert_eq!(app.hex_view.offset, 10);
    hex_mode_events(&mut app, alt(KeyCode::Char('3')));
    assert_eq!(app.hex_view.offset, 20);
    hex_mode_events(&mut app, alt(KeyCode::Char('4')));
    hex_mode_events(&mut app, alt(KeyCode::Char('8')));
    hex_mode_events(&mut app, key(KeyCode::Char('1')));
    assert_eq!(app.hex_view.offset, 20);
    app.go_to_bookmark(0);
    assert_eq!(app.hex_view.offset, 30);
    app.go_to_bookmark(3);
    assert_eq!(app.hex_view.offset, 30);
    hex_mode_events(&mut app, alt(KeyCode::Char('0')));
    assert!(app.hex_view.bookmarks.is_empty());
    hex_mode_events(&mut app, key(KeyCode::Char('-')));
    assert_eq!(app.hex_view.offset, 30);
}

#[test]
fn highlights_are_toggled_by_byte_value() {
    let mut app = open(vec![5, 6, 5]);
    hex_mode_events(&mut app, alt(KeyCode::Char('h')));
    assert!(app.hex_view.highlights.contains(&5));
    assert_eq!(app.hex_view.offset, 0);
    app.goto(1);
    hex_mode_events(&mut app, alt(KeyCode::Char('h')));
    assert_eq!(app.hex_view.highlights.len(), 2);
    app.goto(2);
    hex_mode_events(&mut app, alt(KeyCode::Char('h')));
    assert!(!app.hex_view.highlights.contains(&5));
    assert!(app.hex_view.highlights.contains(&6));
}

#[test]
fn one_comment_for_each_offset_and_the_last_one_counts() {
    let mut app = open(vec![0u8; 64]);
    app.state = UIState::DialogComment;
    app.dialog_renderer = Some(Dialog::Comment);
    Commands::comment(&mut app, 10, "first".to_string());
    assert_eq!(app.state, UIState::Normal);
    assert_eq!(app.dialog_renderer, None);
    Commands::comment(&mut app, 20, "second".to_string());
    Commands::comment(&mut app, 30, "third".to_string());
    assert_eq!(
        names(&app),
        vec![(10, "first".to_string()), (20, "second".to_string()), (30, "third".to_string())]
    );
    Commands::comment(&mut app, 10, "again".to_string());
    assert_eq!(
        names(&app),
        vec![(20, "second".to_string()), (30, "third".to_string()), (10, "again".to_string())]
    );
    assert_eq!(app.hex_view.comments[&10], "again");
    check_comments(&app);
    Commands::comment(&mut app, 20, String::new());
    assert_eq!(names(&app), vec![(30, "third".to_string()), (10, "again".to_string())]);
    assert!(!app.hex_view.comments.contains_key(&20));
    Commands::comment(&mut app, 99, String::new());
    assert_eq!(names(&app).len(), 2);
    check_comments(&app);
    app.clear_comments();
    assert!(names(&app).is_empty());
    assert!(app.hex_view.comments.is_empty());
}

#[test]
fn a_comment_is_set_where_it_is_asked_not_where_the_cursor_is() {
    let mut app = open(vec![0u8; 64]);
    app.goto(5);
    app.set_comment(5, "here".to_string());
    app.set_comment(7, "there".to_string());
    assert_eq!(names(&app), vec![(5, "here".to_string()), (7, "there".to_string())]);
    app.set_comment(7, "moved".to_string());
    assert_eq!(names(&app), vec![(5, "here".to_string()), (7, "moved".to_string())]);
    check_comments(&app);
}

#[test]
fn comment_dialog_sets_the_comment_at_the_cursor() {
    let mut app = open(vec![0u8; 64]);
    app.goto(12);
    hex_mode_events(&mut app, key(KeyCode::Char(';')));
    assert_eq!(app.state, UIState::DialogComment);
    let input = dialog_comment_events(&mut app, key(KeyCode::Char('x')), String::new());
    assert!(matches!(input, dz6::events::InputAction::Forward));
    let input = dialog_comment_events(&mut app, key(KeyCode::Enter), "entry".to_string());
    assert!(matches!(input, dz6::events::InputAction::Reset));
    assert_eq!(names(&app), vec![(12, "entry".to_string())]);
    assert_eq!(app.state, UIState::Normal);
    hex_mode_events(&mut app, key(KeyCode::Char(';')));
    let input = dialog_comment_events(&mut app, key(KeyCode::Esc), "dropped".to_string());
    assert!(matches!(input, dz6::events::InputAction::Keep));
    assert_eq!(names(&app), vec![(12, "entry".to_string())]);
    assert_eq!(app.state, UIState::Normal);
    let mut empty = open(Vec::new());
    hex_mode_events(&mut empty, key(KeyCode::Char(';')));
    assert_eq!(empty.state, UIState::Normal);
}

#[test]
fn names_dialog_sorts_and_goes_to_comments() {
    let mut app = open(vec![0u8; 64]);
    for (offset, text) in [(30usize, "beta"), (10, "delta"), (20, "Alpha"), (40, "alpha")] {
        app.set_comment(offset, text.to_string());
    }
    hex_mode_events(&mut app, alt(KeyCode::Char('n')));
    assert_eq!(app.state, UIState::DialogNames);
    assert_eq!(app.dialog_renderer, Some(Dialog::Names));
    assert_eq!(app.hex_view.names_list_state.selected, Some(0));
    dialog_names_events(&mut app, key(KeyCode::Char('o')));
    assert_eq!(
        names(&app),
        vec![
            (10, "delta".to_string()),
            (20, "Alpha".to_string()),
            (30, "beta".to_string()),
            (40, "alpha".to_string())
        ]
    );
    check_comments(&app);
    dialog_names_events(&mut app, key(KeyCode::Char('n')));
    assert_eq!(
        names(&app),
        vec![
            (20, "Alpha".to_string()),
            (40, "alpha".to_string()),
            (30, "beta".to_string()),
            (10, "delta".to_string())
        ]
    );
    check_comments(&app);
    dialog_names_events(&mut app, key(KeyCode::Down));
    dialog_names_events(&mut app, key(KeyCode::Down));
    assert_eq!(app.hex_view.names_list_state.selected, Some(2));
    assert!(!dialog_names_events(&mut app, key(KeyCode::Enter)));
    assert_eq!(app.hex_view.offset, 30);
    assert_eq!(app.state, UIState::Normal);
    app.state = UIState::DialogNames;
    app.hex_view.names_list_state.select(Some(4));
    assert!(dialog_names_events(&mut app, key(KeyCode::Enter)));
    assert_eq!(app.state, UIState::DialogNames);
    app.hex_view.names_list_state.select(None);
    assert!(!dialog_names_events(&mut app, key(KeyCode::Enter)));
    assert_eq!(app.state, UIState::Normal);
    app.state = UIState::DialogNames;
    dialog_names_events(&mut app, key(KeyCode::Char('D')));
    assert!(names(&app).is_empty());
    assert!(app.hex_view.comments.is_empty());
    dialog_names_events(&mut app, key(KeyCode::Char('f')));
    assert_eq!(app.state, UIState::DialogNamesRegex);
    assert_eq!(app.dialog_2nd_renderer, Some(Dialog::NamesRegex));
    dialog_names_regex_events(&mut app, key(KeyCode::Char('q')), "a".to_string());
    assert_eq!(app.hex_view.names_regex, "");
    dialog_names_regex_events(&mut app, key(KeyCode::Enter), "abc".to_string());
    assert_eq!(app.hex_view.names_regex, "abc");
    assert_eq!(app.state, UIState::DialogNames);
    assert_eq!(app.dialog_2nd_renderer, None);
    app.state = UIState::DialogNamesRegex;
    dialog_names_regex_events(&mut app, key(KeyCode::Esc), "zzz".to_string());
    assert_eq!(app.hex_view.names_regex, "abc");
    assert_eq!(app.state, UIState::DialogNames);
    dialog_names_events(&mut app, key(KeyCode::Esc));
    assert_eq!(app.state, UIState::Normal);
}

#[test]
fn sorting_keeps_equal_comments_in_their_order() {
    let make = |offset: usize, text: &str| Comment { offset, comment: text.to_string() };
    let mut list = vec![make(3, "b"), make(1, "b"), make(2, "a"), make(1, "c"), make(0, "b")];
    sort_comments(&mut list, true);
    let got: Vec<(usize, String)> = list.iter().map(|c| (c.offset, c.comment.clone())).collect();
    assert_eq!(
        got,
        vec![
            (2, "a".to_string()),
            (3, "b".to_string()),
            (1, "b".to_string()),
            (0, "b".to_string()),
            (1, "c".to_string())
        ]
    );
    sort_comments(&mut list, false);
    let got: Vec<(usize, String)> = list.iter().map(|c| (c.offset, c.comment.clone())).collect();
    assert_eq!(
        got,
        vec![
            (0, "b".to_string()),
            (1, "b".to_string()),
            (1, "c".to_string()),
            (2, "a".to_string()),
            (3, "b".to_string())
        ]
    );
    let mut texts = vec![make(0, "ab"), make(1, "a"), make(2, ""), make(3, "\u{e9}"), make(4, "z"), make(5, "B")];
    sort_comments(&mut texts, true);
    let order: Vec<usize> = texts.iter().map(|c| c.offset).collect();
    assert_eq!(order, vec![2, 5, 1, 0, 4, 3]);
    let mut none: Vec<Comment> = Vec::new();
    sort_comments(&mut none, true);
    assert!(none.is_empty());
}

#[test]
fn nothing_is_kept_where_there_is_nothing_to_keep() {
    let app = open(vec![0u8; 8]);
    assert!(app.save_database().is_none());
    assert_eq!(database_file_name("sample.bin"), "sample.bin.dz6");
    assert_eq!(database_file_name(""), ".dz6");
}

#[test]
fn bookmarks_and_comments_come_back_as_they_were_kept() {
    let mut app = open(vec![0u8; 64]);
    app.goto(3);
    app.add_bookmark();
    app.goto(9);
    app.add_bookmark();
    app.set_comment(20, "twenty".to_string());
    app.set_comment(7, "seven".to_string());
    let kept = app.save_database().unwrap();
    assert_eq!(kept.bookmarks, vec![3, 9]);
    assert_eq!(kept.comments.len(), 2);
    let mut other = open(vec![0u8; 64]);
    other.set_comment(1, "old".to_string());
    other.goto(50);
    other.add_bookmark();
    other.load_database(kept);
    assert_eq!(other.hex_view.bookmarks, vec![3, 9]);
    assert_eq!(names(&other), vec![(20, "twenty".to_string()), (7, "seven".to_string())]);
    assert_eq!(other.hex_view.offset, 50);
    check_comments(&other);
    let only_bookmarks = Database { bookmarks: vec![1], comments: Vec::new() };
    other.load_database(only_bookmarks);
    assert!(other.save_database().is_some());
    assert!(names(&other).is_empty());
}

#[test]
fn what_is_loaded_is_put_in_order() {
    let mut app = open(vec![0u8; 64]);
    let kept = Database {
        bookmarks: (0..12).collect(),
        comments: vec![
            Comment { offset: 5, comment: "a".to_string() },
            Comment { offset: 6, comment: "b".to_string() },
            Comment { offset: 5, comment: "c".to_string() },
            Comment { offset: 7, comment: String::new() },
            Comment { offset: 6, comment: String::new() },
        ],
    };
    app.load_database(kept);
    assert_eq!(app.hex_view.bookmarks, vec![0, 1, 2, 3, 4, 5, 6, 7]);
    assert_eq!(names(&app), vec![(5, "c".to_string())]);
    check_comments(&app);
}

#[test]
fn texts_are_set_in_the_order_of_their_bytes() {
    let texts = ["", "a", "A", "ab", "abc", "b", "B", "\u{e9}", "e", "z", "\u{7f}", "\u{80}", "\u{10ffff}", "\u{ffff}", "a\u{0}", "a "];
    for a in texts {
        for b in texts {
            assert_eq!(text_before(a, b), a <= b, "{:?} {:?}", a, b);
        }
    }
    assert!(text_before("", ""));
    assert!(text_before("a", "ab"));
    assert!(!text_before("ab", "a"));
    assert!(text_before("B", "a"));
    assert!(!text_before("\u{e9}", "z"));
}

#[test]
fn sorting_twice_changes_nothing_more() {
    let make = |offset: usize, text: &str| Comment { offset, comment: text.to_string() };
    let mut list = vec![make(9, "k"), make(4, "k"), make(7, "k"), make(4, "a"), make(9, "a")];
    sort_comments(&mut list, true);
    let once: Vec<(usize, String)> = list.iter().map(|c| (c.offset, c.comment.clone())).collect();
    assert_eq!(
        once,
        vec![
            (4, "a".to_string()),
            (9, "a".to_string()),
            (9, "k".to_string()),
            (4, "k".to_string()),
            (7, "k".to_string())
        ]
    );
    sort_comments(&mut list, true);
    let twice: Vec<(usize, String)> = list.iter().map(|c| (c.offset, c.comment.clone())).collect();
    assert_eq!(once, twice);
}
