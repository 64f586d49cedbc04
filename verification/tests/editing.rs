use dz6::app::{App, Write, WriteError};
use dz6::editor::UIState;
use dz6::events::{Effect, KeyCode, KeyEvent, KeyModifiers};
use dz6::hex::edit::{edit_events, fill_with};
use dz6::hex::events::hex_mode_events;
use dz6::hex::hex_view::PendingEdit;

fn open(bytes: Vec<u8>) -> App {
    let mut app = App::new();
    app.load_file("/tmp/sample.bin".to_string(), "sample.bin".to_string(), bytes, false, 0);
    app.set_page_size(4);
    app
}

fn key(code: KeyCode) -> KeyEvent {
    KeyEvent::new(code)
}

fn ctrl(code: KeyCode) -> KeyEvent {
    KeyEvent { code, modifiers: KeyModifiers { control: true, alt: false } }
}

fn apply(bytes: &mut Vec<u8>, plan: &[Write]) -> Vec<usize> {
    let mut lengths = Vec::new();
    for w in plan {
        bytes[w.offset] = w.byte;
        lengths.push(1);
    }
    lengths
}

#[test]
fn typing_two_digits_makes_one_byte() {
    let mut app = open(vec![0u8; 16]);
    app.goto(5);
    app.state = UIState::HexEditing;
    edit_events(&mut app, key(KeyCode::Char('F')));
    assert_eq!(app.hex_view.changed_bytes.len(), 1);
    assert_eq!(app.hex_view.changed_bytes[&5], PendingEdit::Half(15));
    assert_eq!(app.hex_view.changed_bytes[&5].to_text(), "F");
    assert_eq!(app.hex_view.offset, 5);
    edit_events(&mut app, key(KeyCode::Char('F')));
    assert_eq!(app.hex_view.changed_bytes.len(), 1);
    assert_eq!(app.hex_view.changed_bytes[&5], PendingEdit::Full(0xff));
    assert_eq!(app.hex_view.changed_bytes[&5].to_text(), "FF");
    assert_eq!(app.hex_view.offset, 6);
}

#[test]
fn commit_writes_the_byte_and_clears_the_edits() {
    let mut bytes = vec![0u8; 16];
    let mut app = open(bytes.clone());
    app.goto(5);
    edit_events(&mut app, key(KeyCode::Char('F')));
    edit_events(&mut app, key(KeyCode::Char('F')));
    let plan = app.pending_writes();
    assert_eq!(plan, vec![Write { offset: 5, byte: 0xff }]);
    let lengths = apply(&mut bytes, &plan);
    assert_eq!(app.write_to_file(&lengths), Ok(1));
    assert!(app.hex_view.changed_bytes.is_empty());
    assert_eq!(app.logs.last().unwrap(), "1 bytes written to file");
    assert_eq!(bytes[5], 0xff);
    app.reload_file(bytes);
    assert_eq!(app.read_u8(5), Some(0xff));
    assert_eq!(app.file_info.buffer[5], 0xff);
    assert!(app.hex_view.changed_bytes.is_empty());
    assert_eq!(app.hex_view.offset, 6);
}

#[test]
fn commit_round_trip_shows_the_same_bytes() {
    let mut bytes: Vec<u8> = (0..64u8).collect();
    let mut app = open(bytes.clone());
    for (offset, value) in [(3usize, 0x10u8), (40, 0xab), (63, 0x00), (0, 0x99)] {
        app.goto(offset);
        fill_with(&mut app, value, false);
    }
    app.goto(7);
    edit_events(&mut app, key(KeyCode::Char('c')));
    let seen: Vec<u8> = (0..64).map(|k| app.read_u8(k).unwrap()).collect();
    assert_eq!(seen[7], 0x0c);
    let plan = app.pending_writes();
    assert_eq!(plan.len(), 5);
    let lengths = apply(&mut bytes, &plan);
    assert_eq!(app.write_to_file(&lengths), Ok(5));
    app.reload_file(bytes.clone());
    assert_eq!(bytes, seen);
    let after: Vec<u8> = (0..64).map(|k| app.read_u8(k).unwrap()).collect();
    assert_eq!(after, seen);
}

#[test]
fn commit_fails_and_keeps_the_edits() {
    let mut app = open(vec![0u8; 16]);
    app.goto(2);
    fill_with(&mut app, 1, true);
    fill_with(&mut app, 2, true);
    assert_eq!(app.write_to_file(&[1, 0]), Err(WriteError::PartialWrite));
    assert_eq!(app.write_to_file(&[1, 2]), Err(WriteError::PartialWrite));
    assert_eq!(app.write_to_file(&[1]), Err(WriteError::PartialWrite));
    assert_eq!(app.write_to_file(&[1, 1, 1]), Err(WriteError::PartialWrite));
    assert_eq!(app.hex_view.changed_bytes.len(), 2);
    app.file_info.is_read_only = true;
    assert_eq!(app.write_to_file(&[1, 1]), Err(WriteError::NotOpen));
    assert_eq!(app.hex_view.changed_bytes.len(), 2);
    app.file_info.is_read_only = false;
    assert_eq!(app.write_to_file(&[1, 1]), Ok(2));
    assert!(app.hex_view.changed_bytes.is_empty());
    assert_eq!(app.write_to_file(&[]), Ok(0));
}

#[test]
fn a_digit_over_a_complete_byte_begins_it_again() {
    let mut app = open(vec![0u8; 16]);
    app.goto(4);
    edit_events(&mut app, key(KeyCode::Char('a')));
    edit_events(&mut app, key(KeyCode::Char('b')));
    assert_eq!(app.hex_view.changed_bytes[&4], PendingEdit::Full(0xab));
    edit_events(&mut app, key(KeyCode::Left));
    assert_eq!(app.hex_view.offset, 4);
    edit_events(&mut app, key(KeyCode::Char('7')));
    assert_eq!(app.hex_view.changed_bytes[&4], PendingEdit::Half(7));
    assert_eq!(app.hex_view.offset, 4);
    assert_eq!(app.read_u8(4), Some(7));
}

#[test]
fn fills_and_steps() {
    let mut app = open(vec![0x10, 0xff, 0x00, 0x41]);
    edit_events(&mut app, key(KeyCode::Char('z')));
    assert_eq!(app.hex_view.changed_bytes[&0], PendingEdit::Full(0));
    assert_eq!(app.hex_view.offset, 1);
    edit_events(&mut app, ctrl(KeyCode::Char('a')));
    assert_eq!(app.hex_view.changed_bytes[&1], PendingEdit::Full(0));
    assert_eq!(app.hex_view.offset, 1);
    edit_events(&mut app, ctrl(KeyCode::Char('a')));
    assert_eq!(app.hex_view.changed_bytes[&1], PendingEdit::Full(1));
    edit_events(&mut app, key(KeyCode::Right));
    edit_events(&mut app, ctrl(KeyCode::Char('x')));
    assert_eq!(app.hex_view.changed_bytes[&2], PendingEdit::Full(0xff));
    edit_events(&mut app, key(KeyCode::Char('n')));
    assert_eq!(app.hex_view.changed_bytes[&2], PendingEdit::Full(0x90));
    assert_eq!(app.hex_view.offset, 3);
    edit_events(&mut app, key(KeyCode::Tab));
    assert!(!app.hex_view.editing_hex);
    edit_events(&mut app, key(KeyCode::Char('z')));
    assert_eq!(app.hex_view.changed_bytes[&3], PendingEdit::Full(b'z'));
    assert_eq!(app.hex_view.offset, 3);
    edit_events(&mut app, key(KeyCode::Char('\u{141}')));
    assert_eq!(app.hex_view.changed_bytes[&3], PendingEdit::Full(0x41));
}

#[test]
fn escape_throws_the_edits_away_and_enter_keeps_them() {
    let mut app = open(vec![0u8; 8]);
    app.state = UIState::HexEditing;
    fill_with(&mut app, 5, true);
    edit_events(&mut app, key(KeyCode::Tab));
    edit_events(&mut app, key(KeyCode::Enter));
    assert_eq!(app.state, UIState::Normal);
    assert!(app.hex_view.editing_hex);
    assert_eq!(app.hex_view.changed_bytes.len(), 1);
    app.state = UIState::HexEditing;
    edit_events(&mut app, key(KeyCode::Esc));
    assert_eq!(app.state, UIState::Normal);
    assert!(app.hex_view.changed_bytes.is_empty());
}

#[test]
fn truncate_asks_to_cut_the_file_after_the_cursor() {
    let mut app = open(vec![0u8; 8]);
    app.state = UIState::HexEditing;
    app.goto(3);
    let (refused, effect) = edit_events(&mut app, key(KeyCode::Char('T')));
    assert!(!refused);
    assert!(matches!(effect, Effect::Truncate(4)));
    assert_eq!(app.state, UIState::Normal);
    app.reload_file(vec![0u8; 4]);
    assert_eq!(app.file_info.size(), 4);
    assert_eq!(app.hex_view.offset, 3);
    app.file_info.is_read_only = true;
    app.state = UIState::HexEditing;
    let (_, effect) = edit_events(&mut app, key(KeyCode::Char('T')));
    assert!(matches!(effect, Effect::Nothing));
    assert_eq!(app.state, UIState::HexEditing);
}

#[test]
fn reload_after_truncation_drops_the_edits() {
    let mut app = open(vec![1u8; 8]);
    app.goto(6);
    fill_with(&mut app, 9, false);
    app.goto(2);
    app.reload_file(vec![1u8; 3]);
    assert!(app.hex_view.changed_bytes.is_empty());
    assert_eq!(app.read_u8(2), Some(1));
    assert_eq!(app.read_u8(6), None);
}

#[test]
fn nothing_is_edited_outside_the_file() {
    let mut app = open(Vec::new());
    fill_with(&mut app, 1, true);
    edit_events(&mut app, key(KeyCode::Char('5')));
    edit_events(&mut app, ctrl(KeyCode::Char('a')));
    assert!(app.hex_view.changed_bytes.is_empty());
}

#[test]
fn zero_and_step_from_normal_mode() {
    let mut app = open(vec![7, 8, 9]);
    app.goto(0);
    fill_with(&mut app, 0x33, true);
    fill_with(&mut app, 0x55, false);
    assert_eq!(app.hex_view.offset, 1);
    hex_mode_events(&mut app, ctrl(KeyCode::Char('a')));
    assert_eq!(app.state, UIState::HexEditing);
    assert_eq!(app.hex_view.changed_bytes.len(), 2);
    assert_eq!(app.hex_view.changed_bytes[&0], PendingEdit::Full(0x33));
    assert_eq!(app.hex_view.changed_bytes[&1], PendingEdit::Full(0x56));
    app.state = UIState::Normal;
    hex_mode_events(&mut app, ctrl(KeyCode::Char('x')));
    hex_mode_events(&mut app, ctrl(KeyCode::Char('x')));
    assert_eq!(app.hex_view.changed_bytes[&1], PendingEdit::Full(0x54));
    assert_eq!(app.hex_view.offset, 1);
    app.state = UIState::Normal;
    hex_mode_events(&mut app, key(KeyCode::Char('z')));
    assert_eq!(app.hex_view.changed_bytes.len(), 2);
    assert_eq!(app.hex_view.changed_bytes[&0], PendingEdit::Full(0x33));
    assert_eq!(app.hex_view.changed_bytes[&1], PendingEdit::Full(0));
    assert_eq!(app.hex_view.offset, 2);
    app.state = UIState::Normal;
    hex_mode_events(&mut app, ctrl(KeyCode::Char('x')));
    assert_eq!(app.hex_view.changed_bytes.len(), 3);
    assert_eq!(app.hex_view.changed_bytes[&2], PendingEdit::Full(8));
    let mut locked = App::new();
    locked.load_file("a".to_string(), "a".to_string(), vec![1, 2], true, 0);
    hex_mode_events(&mut locked, key(KeyCode::Char('z')));
    hex_mode_events(&mut locked, ctrl(KeyCode::Char('a')));
    assert!(locked.hex_view.changed_bytes.is_empty());
    assert_eq!(locked.state, UIState::Normal);
}

#[test]
fn reads_are_little_endian_and_bounded() {
    let app = open(vec![0x01, 0x02, 0x03, 0x04, 0x05, 0x06, 0x07, 0x08, 0xff]);
    assert_eq!(app.read_u8(0), Some(1));
    assert_eq!(app.read_u8(8), Some(0xff));
    assert_eq!(app.read_u8(9), None);
    assert_eq!(app.read_i8(8), Some(-1));
    assert_eq!(app.read_i8(0), Some(1));
    assert_eq!(app.read_u16(0), Some(0x0201));
    assert_eq!(app.read_u16(7), Some(0xff08));
    assert_eq!(app.read_i16(7), Some(-248));
    assert_eq!(app.read_u16(8), None);
    assert_eq!(app.read_u32(0), Some(0x04030201));
    assert_eq!(app.read_u32(5), Some(0xff080706));
    assert_eq!(app.read_i32(5), Some(0xff080706u32 as i32));
    assert_eq!(app.read_u32(6), None);
    assert_eq!(app.read_u64(0), Some(0x0807060504030201));
    assert_eq!(app.read_u64(1), Some(0xff08070605040302));
    assert_eq!(app.read_i64(1), Some(0xff08070605040302u64 as i64));
    assert_eq!(app.read_i64(0), Some(0x0807060504030201));
    assert_eq!(app.read_u64(2), None);
    assert_eq!(app.read_u64(usize::MAX), None);
    assert_eq!(app.read_u16(usize::MAX), None);
    assert_eq!(app.read_u8(usize::MAX), None);
    assert_eq!(app.read_u8(0), Some(1));
}

#[test]
fn the_file_itself_is_read_without_the_edits() {
    let mut app = open(vec![0x11, 0x22, 0x33, 0x44, 0x55, 0x66, 0x77, 0x88, 0x99]);
    app.goto(1);
    fill_with(&mut app, 0xaa, false);
    let file = &app.file_info;
    assert_eq!(file.read_u8(1), Some(0x22));
    assert_eq!(file.read_u8(9), None);
    assert_eq!(file.read_i8(8), Some(0x99u8 as i8));
    assert_eq!(file.read_u16(0), Some(0x2211));
    assert_eq!(file.read_i16(7), Some(0x9988u16 as i16));
    assert_eq!(file.read_u16(8), None);
    assert_eq!(file.read_u32(0), Some(0x44332211));
    assert_eq!(file.read_i32(5), Some(0x99887766u32 as i32));
    assert_eq!(file.read_u32(6), None);
    assert_eq!(file.read_u64(0), Some(0x8877665544332211));
    assert_eq!(file.read_i64(1), Some(0x9988776655443322u64 as i64));
    assert_eq!(file.read_u64(2), None);
    assert_eq!(file.read_i64(usize::MAX), None);
    assert_eq!(dz6::app::u16_from_le([0x34, 0x12]), 0x1234);
    assert_eq!(dz6::app::u32_from_le([0x78, 0x56, 0x34, 0x12]), 0x12345678);
    assert_eq!(dz6::app::u64_from_le([1, 0, 0, 0, 0, 0, 0, 0x80]), 0x8000000000000001);
    assert_eq!(dz6::app::i8_of(0x80), -128);
    assert_eq!(dz6::app::i8_of(0x7f), 127);
    assert_eq!(dz6::app::i16_of(0xffff), -1);
    assert_eq!(dz6::app::i32_of(0x8000_0000), i32::MIN);
    assert_eq!(dz6::app::i64_of(u64::MAX), -1);
    assert_eq!(dz6::app::i64_of(5), 5);
}

#[test]
fn reads_show_the_unsaved_edits() {
    let mut app = open(vec![0x11, 0x22, 0x33, 0x44]);
    app.goto(1);
    fill_with(&mut app, 0xaa, false);
    assert_eq!(app.read_u8(1), Some(0xaa));
    assert_eq!(app.read_u16(0), Some(0xaa11));
    assert_eq!(app.read_u32(0), Some(0x4433aa11));
    assert_eq!(app.file_info.buffer[1], 0x22);
    assert_eq!(app.file_info.get_buffer(), &[0x11, 0x22, 0x33, 0x44]);
    assert_eq!(app.effective_byte(2), 0x33);
}

#[test]
fn nothing_is_written_before_a_file_is_loaded() {
    let mut app = App::new();
    assert!(!app.file_info.is_open);
    assert!(!app.file_info.is_read_only);
    assert!(app.pending_writes().is_empty());
    assert_eq!(app.write_to_file(&[]), Err(WriteError::NotOpen));
    assert!(app.logs.is_empty());
    app.load_file("a".to_string(), "a".to_string(), vec![1, 2], true, 0);
    assert!(app.file_info.is_open);
    assert_eq!(app.write_to_file(&[]), Err(WriteError::NotOpen));
    app.load_file("a".to_string(), "a".to_string(), vec![1, 2], false, 0);
    assert!(app.file_info.is_open);
    assert_eq!(app.write_to_file(&[]), Ok(0));
    app.reload_file(vec![3]);
    assert!(app.file_info.is_open);
}

#[test]
fn the_plan_has_one_write_for_each_edit() {
    let mut app = open(vec![0u8; 64]);
    for offset in [5usize, 63, 0, 17, 5, 40] {
        app.goto(offset);
        fill_with(&mut app, 0xa0 + (offset as u8 & 0xf), false);
    }
    let plan = app.pending_writes();
    assert_eq!(plan.len(), 5);
    assert_eq!(plan.len(), app.hex_view.changed_bytes.len());
    let mut offsets: Vec<usize> = plan.iter().map(|w| w.offset).collect();
    offsets.sort();
    assert_eq!(offsets, vec![0, 5, 17, 40, 63]);
    for w in &plan {
        assert_eq!(w.byte, 0xa0 + (w.offset as u8 & 0xf));
    }
}
