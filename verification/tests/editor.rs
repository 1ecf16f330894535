use ri::editor::{Editor, Mode, Theme};
use ri::event::{KeyCode, KeyEvent, KeyEventKind, KeyModifiers};
use ri::style::Color;
use std::borrow::Cow;

fn key(code: KeyCode) -> KeyEvent {
    KeyEvent::new(code, KeyModifiers::none())
}

fn ch(c: char) -> KeyEvent {
    key(KeyCode::Char(c))
}

fn feed(editor: &mut Editor, keys: &[KeyEvent]) {
    for k in keys {
        editor.handle_key_event(*k);
    }
}

fn in_mode(mode: Mode, cmd_buf: &str) -> Editor {
    let mut editor = Editor::new();
    editor.mode = mode;
    editor.cmd_buf = String::from(cmd_buf);
    editor
}

#[test]
fn new_editor_is_in_normal_mode_with_empty_command_line() {
    let editor = Editor::new();
    assert_eq!(editor.mode, Mode::Normal);
    assert_eq!(editor.theme, Theme::default());
    assert_eq!(editor.status_msg, None);
    assert_eq!(editor.cmd_buf, "");
}

#[test]
fn default_theme_is_black_with_near_black_status_bar() {
    let theme = Theme::default();
    assert_eq!(theme.default_bg, Color::Black);
    assert_eq!(theme.status_bar_bg, Color::Rgb { r: 0x14, g: 0x14, b: 0x16 });
}

#[test]
fn mode_labels_are_three_character_mnemonics() {
    assert_eq!(Mode::Normal.label(), "NOR");
    assert_eq!(Mode::Insert.label(), "INS");
    assert_eq!(Mode::Select.label(), "SEL");
    assert_eq!(Mode::Command.label(), "CMD");
    for mode in [Mode::Normal, Mode::Insert, Mode::Select, Mode::Command] {
        assert_eq!(mode.label().chars().count(), 3);
    }
}

#[test]
fn key_event_new_is_a_press() {
    let event = KeyEvent::new(KeyCode::Esc, KeyModifiers::control());
    assert_eq!(event.code, KeyCode::Esc);
    assert_eq!(event.kind, KeyEventKind::Press);
    assert!(event.modifiers.control);
    assert!(!event.modifiers.shift);
    assert_eq!(
        KeyModifiers::none(),
        KeyModifiers {
            shift: false,
            control: false,
            alt: false,
            super_key: false,
            hyper: false,
            meta: false
        }
    );
}

#[test]
fn colon_in_normal_mode_enters_command_mode() {
    let mut editor = Editor::new();
    editor.handle_key_event(ch(':'));
    assert_eq!(editor.mode, Mode::Command);
    assert_eq!(editor.cmd_buf, "");
}

#[test]
fn colon_clears_a_stale_command_line() {
    let mut editor = in_mode(Mode::Normal, "stale");
    editor.status_msg = Some(Cow::Borrowed("notes.txt"));
    editor.handle_key_event(ch(':'));
    assert_eq!(editor.mode, Mode::Command);
    assert_eq!(editor.cmd_buf, "");
    assert_eq!(editor.status_msg, Some(Cow::Borrowed("notes.txt")));
    assert_eq!(editor.theme, Theme::default());
}

#[test]
fn colon_with_shift_held_enters_command_mode() {
    let mut editor = in_mode(Mode::Normal, "old");
    let mut shift = KeyModifiers::none();
    shift.shift = true;
    editor.handle_key_event(KeyEvent::new(KeyCode::Char(':'), shift));
    assert_eq!(editor.mode, Mode::Command);
    assert_eq!(editor.cmd_buf, "");
}

#[test]
fn colon_after_keys_that_stay_in_normal_mode() {
    let mut editor = in_mode(Mode::Normal, "kept");
    feed(
        &mut editor,
        &[ch('x'), key(KeyCode::Esc), key(KeyCode::Backspace), key(KeyCode::Enter), key(KeyCode::Other)],
    );
    assert_eq!(editor, in_mode(Mode::Normal, "kept"));
    editor.handle_key_event(ch(':'));
    assert_eq!(editor.mode, Mode::Command);
    assert_eq!(editor.cmd_buf, "");
}

#[test]
fn second_colon_is_typed_into_the_command_line() {
    let mut editor = Editor::new();
    feed(&mut editor, &[ch(':'), ch(':')]);
    assert_eq!(editor.mode, Mode::Command);
    assert_eq!(editor.cmd_buf, ":");
}

#[test]
fn normal_mode_ignores_every_other_key() {
    let mut editor = in_mode(Mode::Normal, "abc");
    feed(
        &mut editor,
        &[ch('a'), ch('q'), key(KeyCode::Esc), key(KeyCode::Backspace), key(KeyCode::Enter), key(KeyCode::Other)],
    );
    assert_eq!(editor, in_mode(Mode::Normal, "abc"));
}

#[test]
fn typed_characters_are_appended_in_order() {
    let mut editor = in_mode(Mode::Command, "");
    feed(&mut editor, &[ch('w'), ch('r'), ch('i'), ch('t'), ch('e'), ch(' '), ch('\u{e9}')]);
    assert_eq!(editor.mode, Mode::Command);
    assert_eq!(editor.cmd_buf, "write \u{e9}");
}

#[test]
fn typed_characters_follow_what_was_there() {
    let mut editor = in_mode(Mode::Command, "ab");
    feed(&mut editor, &[ch('c'), ch('d')]);
    assert_eq!(editor.cmd_buf, "abcd");
}

#[test]
fn character_with_modifiers_is_appended() {
    let mut editor = in_mode(Mode::Command, "");
    let mut held = KeyModifiers::control();
    held.shift = true;
    editor.handle_key_event(KeyEvent::new(KeyCode::Char('c'), held));
    assert_eq!(editor.cmd_buf, "c");
}

#[test]
fn backspace_removes_the_last_character() {
    let mut editor = in_mode(Mode::Command, "ab\u{e9}");
    editor.handle_key_event(key(KeyCode::Backspace));
    assert_eq!(editor.cmd_buf, "ab");
    assert_eq!(editor.mode, Mode::Command);
}

#[test]
fn backspace_on_empty_command_line_does_nothing() {
    let mut editor = in_mode(Mode::Command, "");
    editor.handle_key_event(key(KeyCode::Backspace));
    assert_eq!(editor, in_mode(Mode::Command, ""));
    editor.handle_key_event(key(KeyCode::Backspace));
    assert_eq!(editor, in_mode(Mode::Command, ""));
}

#[test]
fn escape_returns_to_normal_mode_and_keeps_the_command_line() {
    let mut editor = in_mode(Mode::Command, "wq");
    editor.handle_key_event(key(KeyCode::Esc));
    assert_eq!(editor.mode, Mode::Normal);
    assert_eq!(editor.cmd_buf, "wq");
}

#[test]
fn enter_in_command_mode_does_nothing() {
    let mut editor = in_mode(Mode::Command, "wq");
    editor.handle_key_event(key(KeyCode::Enter));
    assert_eq!(editor, in_mode(Mode::Command, "wq"));
    editor.handle_key_event(key(KeyCode::Other));
    assert_eq!(editor, in_mode(Mode::Command, "wq"));
}

#[test]
fn insert_and_select_modes_handle_no_key() {
    for mode in [Mode::Insert, Mode::Select] {
        let mut editor = in_mode(mode, "x");
        feed(
            &mut editor,
            &[ch(':'), ch('a'), key(KeyCode::Esc), key(KeyCode::Backspace), key(KeyCode::Enter)],
        );
        assert_eq!(editor, in_mode(mode, "x"));
    }
}

#[test]
fn colon_q_escape_ends_in_normal_mode_with_q() {
    let mut editor = Editor::new();
    feed(&mut editor, &[ch(':'), ch('q'), key(KeyCode::Esc)]);
    assert_eq!(editor.mode, Mode::Normal);
    assert_eq!(editor.cmd_buf, "q");
}

#[test]
fn colon_a_b_backspace_ends_in_command_mode_with_a() {
    let mut editor = Editor::new();
    feed(&mut editor, &[ch(':'), ch('a'), ch('b'), key(KeyCode::Backspace)]);
    assert_eq!(editor.mode, Mode::Command);
    assert_eq!(editor.cmd_buf, "a");
}

#[test]
fn command_line_is_cleared_on_each_entry() {
    let mut editor = Editor::new();
    feed(&mut editor, &[ch(':'), ch('q'), key(KeyCode::Esc)]);
    assert_eq!(editor.cmd_buf, "q");
    editor.handle_key_event(ch(':'));
    assert_eq!(editor.mode, Mode::Command);
    assert_eq!(editor.cmd_buf, "");
}
