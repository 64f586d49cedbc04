use dz6::app::App;
use dz6::events::{Effect, KeyCode, KeyEvent, KeyModifiers};
use dz6::hex::events::hex_mode_events;
use dz6::reader::Reader;

fn open(bytes: Vec<u8>, rows: usize) -> App {
    let mut app = App::new();
    app.load_file("/tmp/sample.bin".to_string(), "sample.bin".to_string(), bytes, false, 0);
    app.set_page_size(rows);
    app
}

fn key(code: KeyCode) -> KeyEvent {
    KeyEvent::new(code)
}

fn alt(code: KeyCode) -> KeyEvent {
    KeyEvent { code, modifiers: KeyModifiers { control: false, alt: true } }
}

fn ctrl(code: KeyCode) -> KeyEvent {
    KeyEvent { code, modifiers: KeyModifiers { control: true, alt: false } }
}

fn check_cursor(app: &App, offset: usize) {
    let line = app.config.hex_mode_bytes_per_line;
    assert_eq!(app.hex_view.offset, offset);
    assert!(app.reader.page_start <= offset && offset <= app.reader.page_end);
    assert_eq!(
        offset,
        app.reader.page_start + app.hex_view.cursor.y * line + app.hex_view.cursor.x
    );
    assert!(app.hex_view.cursor.x < line);
    assert!(app.reader.page_end < app.file_info.size());
}

#[test]
fn reader_starts_with_a_one_byte_page() {
    let r = Reader::new();
    assert_eq!(r.page_current_size, 1);
    assert_eq!(r.page_start, 0);
    assert_eq!(r.page_end, 0);
}

#[test]
fn goto_start_of_sixteen_byte_file() {
    let mut app = open((0u8..16).collect(), 1);
    assert_eq!(app.config.hex_mode_bytes_per_line, 16);
    app.goto(0);
    assert_eq!((app.hex_view.cursor.x, app.hex_view.cursor.y), (0, 0));
    assert_eq!(app.reader.page_start, 0);
    assert_eq!(app.reader.page_end, 15);
}

#[test]
fn goto_start_of_sixteen_byte_file_on_a_tall_screen() {
    let mut app = open((0u8..16).collect(), 40);
    app.goto(0);
    assert_eq!((app.hex_view.cursor.x, app.hex_view.cursor.y), (0, 0));
    assert_eq!(app.reader.page_start, 0);
    assert_eq!(app.reader.page_end, 15);
}

#[test]
fn goto_keeps_the_cursor_on_the_page_everywhere() {
    for size in [1usize, 15, 16, 17, 100, 257] {
        for rows in [1usize, 2, 7] {
            let mut app = open(vec![0u8; size], rows);
            for target in 0..size {
                app.goto(target);
                check_cursor(&app, target);
            }
            for target in (0..size).rev() {
                app.goto(target);
                check_cursor(&app, target);
            }
            for step in [3usize, 16, 31, 32, 33] {
                let mut target = 0;
                while target < size {
                    app.goto(target);
                    check_cursor(&app, target);
                    target += step;
                }
            }
        }
    }
}

#[test]
fn goto_snaps_to_the_page_of_the_offset() {
    let mut app = open(vec![0u8; 256], 2);
    assert_eq!(app.reader.page_current_size, 32);
    app.goto(70);
    assert_eq!(app.reader.page_start, 64);
    assert_eq!(app.reader.page_end, 95);
    assert_eq!((app.hex_view.cursor.x, app.hex_view.cursor.y), (6, 0));
    app.goto(95);
    assert_eq!(app.reader.page_start, 64);
    assert_eq!((app.hex_view.cursor.x, app.hex_view.cursor.y), (15, 1));
    app.goto(96);
    assert_eq!(app.reader.page_start, 96);
    assert_eq!(app.reader.page_end, 127);
    app.goto(0);
    assert_eq!(app.reader.page_start, 0);
    assert_eq!(app.reader.page_end, 31);
}

#[test]
fn goto_pulls_the_last_page_back_to_the_end_of_the_file() {
    let mut app = open(vec![0u8; 100], 2);
    app.goto(97);
    assert_eq!(app.reader.page_start, 80);
    assert_eq!(app.reader.page_end, 99);
    assert_eq!((app.hex_view.cursor.x, app.hex_view.cursor.y), (1, 1));
    app.goto(85);
    assert_eq!(app.reader.page_start, 80);
    assert_eq!(app.reader.page_end, 99);
}

#[test]
fn goto_outside_the_file_changes_nothing() {
    let mut app = open(vec![7u8; 40], 2);
    app.goto(33);
    let logs = app.logs.len();
    let before = (
        app.hex_view.offset,
        app.hex_view.last_visited_offset,
        app.hex_view.cursor,
        app.reader.page_start,
        app.reader.page_end,
        app.reader.page_current_size,
    );
    for target in [40usize, 41, 1000, usize::MAX] {
        app.goto(target);
        let after = (
            app.hex_view.offset,
            app.hex_view.last_visited_offset,
            app.hex_view.cursor,
            app.reader.page_start,
            app.reader.page_end,
            app.reader.page_current_size,
        );
        assert_eq!(before, after);
        assert_eq!(app.logs.len(), logs);
    }
}

#[test]
fn goto_on_an_empty_file_changes_nothing() {
    let mut app = open(Vec::new(), 2);
    app.goto(0);
    assert_eq!(app.hex_view.offset, 0);
    assert_eq!(app.file_info.size(), 0);
    assert_eq!(app.logs.len(), 1);
}

#[test]
fn goto_remembers_the_offset_it_left_and_logs_the_move() {
    let mut app = open(vec![0u8; 64], 2);
    app.goto(31);
    app.goto(5);
    assert_eq!(app.hex_view.last_visited_offset, 31);
    assert_eq!(app.logs.last().unwrap(), "goto: 5");
    app.goto(0x3f);
    assert_eq!(app.hex_view.last_visited_offset, 5);
    assert_eq!(app.logs.last().unwrap(), "goto: 3f");
}

#[test]
fn load_file_logs_the_size_and_tells_the_type() {
    let app = open(vec![0x7f, b'E', b'L', b'F'], 2);
    assert_eq!(app.logs[0], "filesize: 4 (0x4)");
    assert_eq!(app.file_info.kind.name(), "ELF");
    assert_eq!(open(vec![0xca, 0xfe], 1).file_info.kind.name(), "Mach-O");
    assert_eq!(open(vec![0xcf], 1).file_info.kind.name(), "Mach-O");
    assert_eq!(open(vec![0x4d, 0x5a], 1).file_info.kind.name(), "PE");
    assert_eq!(open(vec![0x00], 1).file_info.kind.name(), "");
    assert_eq!(open(Vec::new(), 1).file_info.kind.name(), "");
    let big = open(vec![0u8; 300], 1);
    assert_eq!(big.logs[0], "filesize: 300 (0x12c)");
    assert_eq!(big.file_info.name, "sample.bin");
    assert_eq!(big.file_info.path, "/tmp/sample.bin");
}

#[test]
fn load_file_goes_to_the_initial_offset() {
    let mut app = App::new();
    app.load_file("a".to_string(), "a".to_string(), vec![0u8; 64], true, 20);
    assert_eq!(app.hex_view.offset, 20);
    assert_eq!(app.hex_view.last_visited_offset, 0);
    assert!(app.file_info.is_read_only);
    let mut other = App::new();
    other.load_file("a".to_string(), "a".to_string(), vec![0u8; 8], false, 20);
    assert_eq!(other.hex_view.offset, 0);
}

#[test]
fn set_page_size_follows_the_rows() {
    let mut app = open(vec![0u8; 256], 2);
    app.goto(64);
    app.set_page_size(4);
    assert_eq!(app.reader.page_current_size, 64);
    assert_eq!(app.reader.page_start, 64);
    assert_eq!(app.reader.page_end, 127);
    app.set_page_size(0);
    assert_eq!(app.reader.page_current_size, 64);
    app.set_page_size(usize::MAX);
    assert_eq!(app.reader.page_current_size, 64);
    app.set_page_size(100);
    assert_eq!(app.reader.page_current_size, 1600);
    assert_eq!(app.reader.page_end, 255);
}

#[test]
fn arrows_and_letters_move_the_cursor() {
    let mut app = open((0..=255u8).collect(), 4);
    app.goto(100);
    hex_mode_events(&mut app, key(KeyCode::Left));
    assert_eq!(app.hex_view.offset, 99);
    hex_mode_events(&mut app, key(KeyCode::Char('h')));
    assert_eq!(app.hex_view.offset, 98);
    hex_mode_events(&mut app, key(KeyCode::Right));
    hex_mode_events(&mut app, key(KeyCode::Char('l')));
    assert_eq!(app.hex_view.offset, 100);
    hex_mode_events(&mut app, alt(KeyCode::Right));
    hex_mode_events(&mut app, alt(KeyCode::Char('l')));
    assert_eq!(app.hex_view.offset, 100);
    hex_mode_events(&mut app, key(KeyCode::Up));
    assert_eq!(app.hex_view.offset, 84);
    hex_mode_events(&mut app, key(KeyCode::Char('k')));
    assert_eq!(app.hex_view.offset, 68);
    hex_mode_events(&mut app, key(KeyCode::Down));
    hex_mode_events(&mut app, key(KeyCode::Char('j')));
    assert_eq!(app.hex_view.offset, 100);
    hex_mode_events(&mut app, key(KeyCode::Char('w')));
    assert_eq!(app.hex_view.offset, 102);
    hex_mode_events(&mut app, key(KeyCode::Char('d')));
    assert_eq!(app.hex_view.offset, 106);
    hex_mode_events(&mut app, key(KeyCode::Char('q')));
    assert_eq!(app.hex_view.offset, 114);
    hex_mode_events(&mut app, key(KeyCode::Char('Q')));
    hex_mode_events(&mut app, key(KeyCode::Char('D')));
    hex_mode_events(&mut app, key(KeyCode::Char('W')));
    assert_eq!(app.hex_view.offset, 100);
    hex_mode_events(&mut app, key(KeyCode::Backspace));
    assert_eq!(app.hex_view.offset, 102);
}

#[test]
fn moves_stop_at_the_ends_of_the_file() {
    let mut app = open((0..40u8).collect(), 2);
    hex_mode_events(&mut app, key(KeyCode::Left));
    assert_eq!(app.hex_view.offset, 0);
    hex_mode_events(&mut app, key(KeyCode::Up));
    assert_eq!(app.hex_view.offset, 0);
    app.goto(3);
    hex_mode_events(&mut app, key(KeyCode::Char('Q')));
    assert_eq!(app.hex_view.offset, 0);
    hex_mode_events(&mut app, key(KeyCode::Char('G')));
    assert_eq!(app.hex_view.offset, 39);
    hex_mode_events(&mut app, key(KeyCode::Right));
    hex_mode_events(&mut app, key(KeyCode::Down));
    hex_mode_events(&mut app, key(KeyCode::PageDown));
    assert_eq!(app.hex_view.offset, 39);
    hex_mode_events(&mut app, key(KeyCode::Char('g')));
    assert_eq!(app.hex_view.offset, 0);
    let mut empty = open(Vec::new(), 2);
    hex_mode_events(&mut empty, key(KeyCode::Char('G')));
    hex_mode_events(&mut empty, key(KeyCode::End));
    hex_mode_events(&mut empty, key(KeyCode::Char('o')));
    hex_mode_events(&mut empty, key(KeyCode::Char('O')));
    assert_eq!(empty.hex_view.offset, 0);
}

#[test]
fn home_end_and_pages() {
    let mut app = open(vec![0u8; 200], 2);
    app.goto(70);
    hex_mode_events(&mut app, key(KeyCode::Home));
    assert_eq!(app.hex_view.offset, 64);
    app.goto(70);
    hex_mode_events(&mut app, key(KeyCode::Char('0')));
    assert_eq!(app.hex_view.offset, 64);
    hex_mode_events(&mut app, key(KeyCode::End));
    assert_eq!(app.hex_view.offset, 79);
    app.goto(66);
    hex_mode_events(&mut app, key(KeyCode::Char('$')));
    assert_eq!(app.hex_view.offset, 79);
    hex_mode_events(&mut app, ctrl(KeyCode::End));
    assert_eq!(app.hex_view.offset, 199);
    hex_mode_events(&mut app, key(KeyCode::End));
    assert_eq!(app.hex_view.offset, 199);
    hex_mode_events(&mut app, ctrl(KeyCode::Home));
    assert_eq!(app.hex_view.offset, 0);
    hex_mode_events(&mut app, key(KeyCode::PageDown));
    assert_eq!(app.hex_view.offset, 32);
    hex_mode_events(&mut app, key(KeyCode::PageDown));
    assert_eq!(app.hex_view.offset, 64);
    hex_mode_events(&mut app, key(KeyCode::PageUp));
    assert_eq!(app.hex_view.offset, 32);
    hex_mode_events(&mut app, key(KeyCode::PageUp));
    assert_eq!(app.hex_view.offset, 0);
}

#[test]
fn other_byte_keys_skip_equal_bytes() {
    let mut app = open(vec![9, 1, 1, 1, 1, 2, 2, 2, 3], 1);
    app.goto(2);
    hex_mode_events(&mut app, key(KeyCode::Char('o')));
    assert_eq!(app.hex_view.offset, 5);
    hex_mode_events(&mut app, key(KeyCode::Char('o')));
    assert_eq!(app.hex_view.offset, 8);
    hex_mode_events(&mut app, key(KeyCode::Char('o')));
    assert_eq!(app.hex_view.offset, 8);
    hex_mode_events(&mut app, key(KeyCode::Char('O')));
    assert_eq!(app.hex_view.offset, 7);
    hex_mode_events(&mut app, key(KeyCode::Char('O')));
    assert_eq!(app.hex_view.offset, 4);
    hex_mode_events(&mut app, key(KeyCode::Char('O')));
    assert_eq!(app.hex_view.offset, 0);
    let mut same = open(vec![5, 5, 5, 5], 1);
    same.goto(3);
    hex_mode_events(&mut same, key(KeyCode::Char('O')));
    assert_eq!(same.hex_view.offset, 0);
}

#[test]
fn replace_key_beeps_on_a_read_only_file() {
    let mut app = App::new();
    app.load_file("a".to_string(), "a".to_string(), vec![1, 2, 3], true, 0);
    let (refused, effect) = hex_mode_events(&mut app, key(KeyCode::Char('r')));
    assert!(!refused);
    assert!(matches!(effect, Effect::Beep));
    assert_eq!(app.state, dz6::editor::UIState::Normal);
    let mut writable = open(vec![1, 2, 3], 1);
    let (_, effect) = hex_mode_events(&mut writable, key(KeyCode::Char('r')));
    assert!(matches!(effect, Effect::Nothing));
    assert_eq!(writable.state, dz6::editor::UIState::HexEditing);
}
