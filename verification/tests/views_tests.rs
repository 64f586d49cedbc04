use dz6::app::{App, Encoding, TextView};
use dz6::editor::{AppView, Dialog, UIState};
use dz6::events::{
    active_input, handle_dialog_error_events, handle_events, Effect, InputAction, InputField,
    KeyCode, KeyEvent, KeyModifiers,
};
use dz6::global::events::handle_global_events;
use dz6::global::goto::dialog_goto_events;
use dz6::global::log::dialog_log_events;
use dz6::hex::hex_view::{PendingEdit, Point};
use dz6::hex::search::SearchMode;
use dz6::text::dialog_encoding::{dialog_encoding_events, encoding_name};
use dz6::text::events::text_mode_events;
use dz6::util::{byte_to_hex, char_digit, hex_char, to_decimal, to_hex, to_radix};
use dz6::widgets::{ListState, Message, MessageType};

fn open(bytes: Vec<u8>) -> App {
    let mut app = App::new();
    app.load_file("/tmp/sample.bin".to_string(), "sample.bin".to_string(), bytes, false, 0);
    app.set_page_size(2);
    app
}

fn key(code: KeyCode) -> KeyEvent {
    KeyEvent::new(code)
}

fn alt(code: KeyCode) -> KeyEvent {
    KeyEvent { code, modifiers: KeyModifiers { control: false, alt: true } }
}

fn ctrl(code: KeyCode) -> KeyEvent {
    KeyEvent { code, modifiers: KeyModifiers { control: true, alt: false } }
}

#[test]
fn a_new_session_is_empty() {
    let app = App::new();
    assert!(app.running);
    assert_eq!(app.state, UIState::Normal);
    assert_eq!(app.editor_view, AppView::Hex);
    assert_eq!(app.dialog_renderer, None);
    assert_eq!(app.dialog_2nd_renderer, None);
    assert_eq!(app.file_info.size(), 0);
    assert!(!app.file_info.is_read_only);
    assert!(app.hex_view.editing_hex);
    assert_eq!(app.hex_view.cursor, Point::default());
    assert_eq!(app.hex_view.search.mode, SearchMode::Utf8);
    assert_eq!(app.config.hex_mode_bytes_per_line, 16);
    assert_eq!(app.config.hex_mode_non_graphic_char, '.');
    assert_eq!(app.config.maximum_strings_to_show, 3000);
    assert_eq!(app.config.minimum_string_length, 4);
    assert!(app.config.database && app.config.dim_zeroes && !app.config.dim_control_chars);
    assert!(!app.config.search_wrap);
    assert_eq!(app.reader.page_current_size, 1);
    assert_eq!(app.text_view.table, Encoding::Utf8);
    assert!(app.logs.is_empty() && app.strings.is_empty());
    assert_eq!(app.read_u8(0), None);
}

#[test]
fn views_alternate() {
    let mut view = AppView::Hex;
    view.next();
    assert_eq!(view, AppView::Text);
    view.next();
    assert_eq!(view, AppView::Hex);
}

#[test]
fn numbers_are_written_in_hexadecimal_and_decimal() {
    assert_eq!(to_hex(0, false), "0");
    assert_eq!(to_hex(0xf, false), "f");
    assert_eq!(to_hex(0x10, false), "10");
    assert_eq!(to_hex(0xdeadbeef, false), "deadbeef");
    assert_eq!(to_hex(0xdeadbeef, true), "DEADBEEF");
    assert_eq!(to_hex(usize::MAX, false), format!("{:x}", usize::MAX));
    assert_eq!(to_decimal(0), "0");
    assert_eq!(to_decimal(9), "9");
    assert_eq!(to_decimal(10), "10");
    assert_eq!(to_decimal(1234567890), "1234567890");
    assert_eq!(to_decimal(usize::MAX), usize::MAX.to_string());
    assert_eq!(to_radix(5, 2, false), "101");
    assert_eq!(to_radix(64, 8, false), "100");
    assert_eq!(byte_to_hex(0), "00");
    assert_eq!(byte_to_hex(0x0a), "0A");
    assert_eq!(byte_to_hex(0xff), "FF");
    assert_eq!(hex_char(11, true), 'B');
    assert_eq!(hex_char(11, false), 'b');
    assert_eq!(hex_char(7, true), '7');
    assert_eq!(char_digit('f', 16), Some(15));
    assert_eq!(char_digit('F', 16), Some(15));
    assert_eq!(char_digit('g', 16), None);
    assert_eq!(char_digit('9', 10), Some(9));
    assert_eq!(char_digit('a', 10), None);
    assert_eq!(char_digit('\u{661}', 10), None);
    assert_eq!(PendingEdit::Half(0xa).to_text(), "A");
    assert_eq!(PendingEdit::Full(0x0a).to_text(), "0A");
    assert_eq!(PendingEdit::Half(0xa).value(), 0x0a);
}

#[test]
fn list_state_moves_as_lists_do() {
    let mut list = ListState::new();
    assert_eq!(list.selected(), None);
    list.select_next();
    assert_eq!(list.selected, Some(0));
    list.select_next();
    assert_eq!(list.selected, Some(1));
    list.select_previous();
    list.select_previous();
    assert_eq!(list.selected, Some(0));
    list.select(None);
    list.select_previous();
    assert_eq!(list.selected, Some(usize::MAX));
    list.select_next();
    assert_eq!(list.selected, Some(usize::MAX));
    list.scroll_up_by(30);
    assert_eq!(list.selected, Some(usize::MAX - 30));
    list.select_first();
    list.scroll_up_by(30);
    assert_eq!(list.selected, Some(0));
    list.scroll_down_by(30);
    assert_eq!(list.selected, Some(30));
    list.select(None);
    list.scroll_down_by(7);
    assert_eq!(list.selected, Some(7));
    list.select_last();
    list.scroll_down_by(1);
    assert_eq!(list.selected, Some(usize::MAX));
}

#[test]
fn messages_inform_unless_told_otherwise() {
    let mut m = Message::from("Pattern not found");
    assert_eq!(m.buffer, "Pattern not found");
    assert_eq!(m.kind, MessageType::Info);
    m.kind = MessageType::Error;
    assert_eq!(m.kind, MessageType::Error);
}

#[test]
fn global_keys() {
    let mut app = open(vec![0u8; 8]);
    assert!(!handle_global_events(&mut app, key(KeyCode::Enter)));
    assert_eq!(app.editor_view, AppView::Text);
    app.switch_editor_mode();
    assert_eq!(app.editor_view, AppView::Hex);
    handle_global_events(&mut app, key(KeyCode::Char('l')));
    assert_eq!(app.state, UIState::Normal);
    handle_global_events(&mut app, alt(KeyCode::Char('l')));
    assert_eq!(app.state, UIState::DialogLog);
    assert_eq!(app.dialog_renderer, Some(Dialog::Log));
    handle_global_events(&mut app, key(KeyCode::Char('?')));
    assert_eq!(app.state, UIState::DialogCalculator);
    assert_eq!(app.dialog_renderer, Some(Dialog::Calculator));
    handle_global_events(&mut app, key(KeyCode::Esc));
    assert!(!app.running);
}

#[test]
fn log_and_message_keys() {
    let mut app = open(vec![0u8; 8]);
    app.state = UIState::DialogLog;
    dialog_log_events(&mut app, key(KeyCode::Up));
    assert_eq!(app.log_scroll_offset, (0, 0));
    dialog_log_events(&mut app, key(KeyCode::Down));
    dialog_log_events(&mut app, key(KeyCode::Down));
    assert_eq!(app.log_scroll_offset, (2, 0));
    dialog_log_events(&mut app, key(KeyCode::Up));
    assert_eq!(app.log_scroll_offset, (1, 0));
    app.log_scroll_offset.0 = u16::MAX;
    dialog_log_events(&mut app, key(KeyCode::Down));
    assert_eq!(app.log_scroll_offset.0, u16::MAX);
    dialog_log_events(&mut app, key(KeyCode::Esc));
    assert_eq!(app.state, UIState::Normal);
    app.state = UIState::DialogError;
    app.dialog_renderer = Some(Dialog::InvalidOffset);
    handle_dialog_error_events(&mut app, key(KeyCode::Char('x')));
    assert_eq!(app.state, UIState::DialogError);
    handle_dialog_error_events(&mut app, key(KeyCode::Enter));
    assert_eq!(app.state, UIState::Normal);
    assert_eq!(app.dialog_renderer, None);
    app.log("by hand".to_string());
    assert_eq!(app.logs.last().unwrap(), "by hand");
}

#[test]
fn text_view_scrolls() {
    let mut view = TextView {
        area_height: 10,
        lines_to_show: 25,
        scroll_offset: (0, 0),
        table: Encoding::Utf8,
    };
    view.scroll(key(KeyCode::Up));
    view.scroll(key(KeyCode::Left));
    assert_eq!(view.scroll_offset, (0, 0));
    view.scroll(key(KeyCode::Down));
    assert_eq!(view.scroll_offset, (1, 0));
    assert_eq!(view.lines_to_show, 26);
    view.scroll(key(KeyCode::Right));
    view.scroll(key(KeyCode::Right));
    assert_eq!(view.scroll_offset, (1, 2));
    view.scroll(key(KeyCode::Home));
    assert_eq!(view.scroll_offset, (1, 0));
    view.scroll(key(KeyCode::End));
    assert_eq!(view.scroll_offset, (1, 0));
    view.scroll(ctrl(KeyCode::End));
    assert_eq!(view.scroll_offset, (16, 0));
    view.scroll(key(KeyCode::Down));
    assert_eq!(view.scroll_offset, (16, 0));
    view.scroll(key(KeyCode::Right));
    view.scroll(ctrl(KeyCode::Home));
    assert_eq!(view.scroll_offset, (0, 0));
    view.lines_to_show = 5;
    view.scroll(ctrl(KeyCode::End));
    view.scroll(key(KeyCode::Down));
    assert_eq!(view.scroll_offset, (0, 0));
    view.lines_to_show = 0x1_0000 + 10 + 3;
    view.scroll(ctrl(KeyCode::End));
    assert_eq!(view.scroll_offset, (3, 0));
}

#[test]
fn text_mode_keys() {
    let mut app = open(vec![0u8; 100]);
    app.editor_view = AppView::Text;
    text_mode_events(&mut app, key(KeyCode::PageDown));
    assert_eq!(app.hex_view.offset, 32);
    text_mode_events(&mut app, key(KeyCode::PageDown));
    text_mode_events(&mut app, key(KeyCode::PageUp));
    assert_eq!(app.hex_view.offset, 32);
    text_mode_events(&mut app, key(KeyCode::PageUp));
    assert_eq!(app.hex_view.offset, 0);
    app.goto(10);
    text_mode_events(&mut app, key(KeyCode::PageUp));
    assert_eq!(app.hex_view.offset, 0);
    text_mode_events(&mut app, key(KeyCode::Right));
    assert_eq!(app.text_view.scroll_offset, (0, 1));
    text_mode_events(&mut app, key(KeyCode::Char('e')));
    assert_eq!(app.state, UIState::DialogEncoding);
    assert_eq!(app.dialog_renderer, Some(Dialog::Encoding));
}

#[test]
fn encoding_dialog_goes_round_the_list() {
    let mut app = open(vec![0u8; 8]);
    app.state = UIState::DialogEncoding;
    app.list_state.select_first();
    dialog_encoding_events(&mut app, key(KeyCode::Up));
    assert_eq!(app.list_state.selected, Some(usize::MAX));
    app.list_state.select(Some(4));
    dialog_encoding_events(&mut app, key(KeyCode::Char('j')));
    assert_eq!(app.list_state.selected, Some(0));
    dialog_encoding_events(&mut app, key(KeyCode::Down));
    dialog_encoding_events(&mut app, key(KeyCode::Down));
    dialog_encoding_events(&mut app, key(KeyCode::Char('k')));
    assert_eq!(app.list_state.selected, Some(1));
    dialog_encoding_events(&mut app, key(KeyCode::End));
    assert_eq!(app.list_state.selected, Some(usize::MAX));
    dialog_encoding_events(&mut app, key(KeyCode::PageUp));
    assert_eq!(app.list_state.selected, Some(0));
    let tables = [
        Encoding::Utf8,
        Encoding::Windows1252,
        Encoding::Iso8859_2,
        Encoding::Utf16Le,
        Encoding::Utf16Be,
        Encoding::Utf8,
    ];
    for (row, table) in tables.iter().enumerate() {
        app.state = UIState::DialogEncoding;
        app.list_state.select(Some(row));
        dialog_encoding_events(&mut app, key(KeyCode::Enter));
        assert_eq!(app.text_view.table, *table);
        assert_eq!(app.state, UIState::Normal);
    }
    app.list_state.select(None);
    app.text_view.table = Encoding::Utf16Be;
    dialog_encoding_events(&mut app, key(KeyCode::Enter));
    assert_eq!(app.text_view.table, Encoding::Utf8);
    app.state = UIState::DialogEncoding;
    dialog_encoding_events(&mut app, key(KeyCode::Esc));
    assert_eq!(app.state, UIState::Normal);
    assert_eq!(encoding_name(0), "UTF-8");
    assert_eq!(encoding_name(1), "ISO-8859-1");
    assert_eq!(encoding_name(2), "ISO-8859-2");
    assert_eq!(encoding_name(3), "UTF-16-LE");
    assert_eq!(encoding_name(4), "UTF-16-BE");
}

#[test]
fn goto_dialog_goes_to_the_offset() {
    let mut app = open(vec![0u8; 100]);
    app.state = UIState::DialogGoto;
    let input = dialog_goto_events(&mut app, key(KeyCode::Char('4')), "");
    assert!(matches!(input, InputAction::Forward));
    let input = dialog_goto_events(&mut app, key(KeyCode::Enter), "40");
    assert!(matches!(input, InputAction::Reset));
    assert_eq!(app.hex_view.offset, 0x40);
    assert_eq!(app.state, UIState::Normal);
    app.state = UIState::DialogGoto;
    dialog_goto_events(&mut app, key(KeyCode::Enter), "400");
    assert_eq!(app.dialog_renderer, Some(Dialog::InvalidOffset));
    app.state = UIState::DialogGoto;
    dialog_goto_events(&mut app, key(KeyCode::Esc), "1");
    assert_eq!(app.state, UIState::Normal);
    assert_eq!(app.hex_view.offset, 0x40);
}

#[test]
fn keys_go_to_the_handler_of_the_state() {
    let mut app = open((0..100u8).collect());
    assert_eq!(active_input(&app), None);
    let r = handle_events(&mut app, key(KeyCode::Right), String::new());
    assert!(!r.refused);
    assert!(matches!(r.effect, Effect::Nothing));
    assert!(matches!(r.input, InputAction::Keep));
    assert_eq!(app.hex_view.offset, 1);
    handle_events(&mut app, key(KeyCode::Char('r')), String::new());
    assert_eq!(app.state, UIState::HexEditing);
    handle_events(&mut app, key(KeyCode::Char('a')), String::new());
    handle_events(&mut app, key(KeyCode::Char('b')), String::new());
    assert_eq!(app.hex_view.changed_bytes[&1], PendingEdit::Full(0xab));
    handle_events(&mut app, key(KeyCode::Enter), String::new());
    assert_eq!(app.state, UIState::Normal);
    handle_events(&mut app, key(KeyCode::Char('v')), String::new());
    assert_eq!(app.state, UIState::HexSelection);
    handle_events(&mut app, key(KeyCode::Left), String::new());
    let r = handle_events(&mut app, key(KeyCode::Char('y')), String::new());
    match r.effect {
        Effect::Yank(text) => assert_eq!(text, "AB02"),
        other => panic!("{:?}", other),
    }
    assert_eq!(app.state, UIState::Normal);
    handle_events(&mut app, key(KeyCode::Char('/')), String::new());
    assert_eq!(active_input(&app), Some(InputField::SearchText));
    let r = handle_events(&mut app, key(KeyCode::Tab), String::new());
    assert!(matches!(r.input, InputAction::Keep));
    assert_eq!(active_input(&app), Some(InputField::SearchHex));
    let r = handle_events(&mut app, key(KeyCode::Char('1')), String::new());
    assert!(matches!(r.input, InputAction::Forward));
    handle_events(&mut app, key(KeyCode::Enter), "1011".to_string());
    assert_eq!(app.hex_view.offset, 0x10);
    assert_eq!(app.state, UIState::Normal);
    handle_events(&mut app, key(KeyCode::Char(';')), String::new());
    assert_eq!(active_input(&app), Some(InputField::Comment));
    let r = handle_events(&mut app, key(KeyCode::Enter), "noted".to_string());
    assert!(matches!(r.input, InputAction::Reset));
    assert_eq!(app.hex_view.comments[&0x10], "noted");
    handle_events(&mut app, key(KeyCode::Char('?')), String::new());
    assert_eq!(active_input(&app), Some(InputField::Calculator));
    handle_events(&mut app, key(KeyCode::Enter), "noted + 1".to_string());
    assert_eq!(app.calculator.result, 0x11);
    handle_events(&mut app, key(KeyCode::Esc), String::new());
    assert_eq!(app.state, UIState::Normal);
    handle_events(&mut app, key(KeyCode::Char('s')), String::new());
    assert_eq!(app.state, UIState::DialogStrings);
    handle_events(&mut app, key(KeyCode::Char('f')), String::new());
    assert_eq!(active_input(&app), Some(InputField::StringsRegex));
    handle_events(&mut app, key(KeyCode::Esc), String::new());
    handle_events(&mut app, key(KeyCode::Esc), String::new());
    assert_eq!(app.state, UIState::Normal);
    handle_events(&mut app, alt(KeyCode::Char('n')), String::new());
    assert_eq!(app.state, UIState::DialogNames);
    handle_events(&mut app, key(KeyCode::Char('f')), String::new());
    assert_eq!(active_input(&app), Some(InputField::NamesRegex));
    handle_events(&mut app, key(KeyCode::Esc), String::new());
    handle_events(&mut app, key(KeyCode::Esc), String::new());
    app.state = UIState::Command;
    assert_eq!(active_input(&app), Some(InputField::Command));
    let r = handle_events(&mut app, key(KeyCode::Enter), "wq".to_string());
    assert!(matches!(r.effect, Effect::Save));
    assert!(!app.running);
    app.state = UIState::DialogGoto;
    assert_eq!(active_input(&app), Some(InputField::Goto));
    handle_events(&mut app, key(KeyCode::Enter), "5".to_string());
    assert_eq!(app.hex_view.offset, 5);
    for state in [UIState::DialogHelp, UIState::DialogError, UIState::DialogLog] {
        app.state = state;
        handle_events(&mut app, key(KeyCode::Esc), String::new());
        assert_eq!(app.state, UIState::Normal);
    }
    app.state = UIState::DialogEncoding;
    handle_events(&mut app, key(KeyCode::Enter), String::new());
    assert_eq!(app.state, UIState::Normal);
}

#[test]
fn normal_mode_answers_global_keys_first() {
    let mut app = open((0..100u8).collect());
    handle_events(&mut app, key(KeyCode::Enter), String::new());
    assert_eq!(app.editor_view, AppView::Text);
    handle_events(&mut app, key(KeyCode::Char('j')), String::new());
    assert_eq!(app.hex_view.offset, 0);
    handle_events(&mut app, key(KeyCode::PageDown), String::new());
    assert_eq!(app.hex_view.offset, 32);
    handle_events(&mut app, key(KeyCode::Enter), String::new());
    assert_eq!(app.editor_view, AppView::Hex);
    handle_events(&mut app, key(KeyCode::Char('j')), String::new());
    assert_eq!(app.hex_view.offset, 48);
    handle_events(&mut app, key(KeyCode::F(1)), String::new());
    assert_eq!(app.state, UIState::DialogHelp);
    assert_eq!(app.dialog_renderer, Some(Dialog::Help));
    app.state = UIState::Normal;
    handle_events(&mut app, key(KeyCode::Esc), String::new());
    assert!(!app.running);
}
