use repo_dash::branch_input::BranchInput;
use repo_dash::input::TextInput;
use repo_dash::keys::{should_handle_key, KeyCode, KeyEvent, KeyEventKind};

#[test]
fn spaces_and_dashes_insert_single_dash() {
    let mut input = BranchInput::default();
    input.handle_edit_key(KeyCode::Char('f'));
    input.handle_edit_key(KeyCode::Char(' '));
    input.handle_edit_key(KeyCode::Char('-'));

    assert_eq!(input.value, "f-");
    assert_eq!(input.cursor, 2);
}

#[test]
fn prevents_consecutive_dashes() {
    let mut input = BranchInput::default();
    input.handle_edit_key(KeyCode::Char('f'));
    input.handle_edit_key(KeyCode::Char('-'));
    input.handle_edit_key(KeyCode::Char(' '));
    input.handle_edit_key(KeyCode::Char('-'));

    assert_eq!(input.value, "f-");
    assert_eq!(input.cursor, 2);
}

#[test]
fn no_dash_next_to_a_dash_after_the_cursor() {
    let mut input = BranchInput::default();
    input.handle_edit_key(KeyCode::Char('a'));
    input.handle_edit_key(KeyCode::Char('-'));
    input.handle_edit_key(KeyCode::Char('b'));
    input.handle_edit_key(KeyCode::Left);
    input.handle_edit_key(KeyCode::Left);
    assert_eq!(input.cursor, 1);
    input.handle_edit_key(KeyCode::Char(' '));
    assert_eq!(input.value, "a-b");
    assert_eq!(input.cursor, 1);
}

#[test]
fn should_handle_press_and_repeat_keys() {
    let press = KeyEvent::new(KeyCode::Up);
    assert!(should_handle_key(&press));

    let repeat = KeyEvent::new_with_kind(KeyCode::Up, KeyEventKind::Repeat);
    assert!(should_handle_key(&repeat));

    let release = KeyEvent::new_with_kind(KeyCode::Up, KeyEventKind::Release);
    assert!(!should_handle_key(&release));
}

#[test]
fn insert_then_backspace_restores_multibyte_text() {
    let mut input = TextInput { value: "añ€😀z".to_string(), cursor: 0, error: None };
    input.handle_key(KeyCode::Right);
    input.handle_key(KeyCode::Right);
    assert_eq!(input.cursor, 3);
    input.handle_key(KeyCode::Char('😀'));
    assert_eq!(input.value, "añ😀€😀z");
    assert_eq!(input.cursor, 7);
    input.handle_key(KeyCode::Backspace);
    assert_eq!(input.value, "añ€😀z");
    assert_eq!(input.cursor, 3);
}

#[test]
fn cursor_steps_whole_characters() {
    let mut input = TextInput { value: "é€😀".to_string(), cursor: 0, error: None };
    let mut seen = vec![input.cursor];
    for _ in 0..4 {
        input.handle_key(KeyCode::Right);
        seen.push(input.cursor);
    }
    assert_eq!(seen, vec![0, 2, 5, 9, 9]);
    for _ in 0..4 {
        input.handle_key(KeyCode::Left);
        assert!(input.value.is_char_boundary(input.cursor));
    }
    assert_eq!(input.cursor, 0);
    input.handle_key(KeyCode::End);
    assert_eq!(input.cursor, 9);
    input.handle_key(KeyCode::Home);
    assert_eq!(input.cursor, 0);
}

#[test]
fn deletes_are_no_ops_at_the_edges() {
    let mut input = TextInput { value: "ab€".to_string(), cursor: 0, error: None };
    input.handle_key(KeyCode::Backspace);
    assert_eq!(input.value, "ab€");
    input.handle_key(KeyCode::Delete);
    assert_eq!(input.value, "b€");
    assert_eq!(input.cursor, 0);
    input.handle_key(KeyCode::End);
    input.handle_key(KeyCode::Delete);
    assert_eq!(input.value, "b€");
    input.handle_key(KeyCode::Backspace);
    assert_eq!(input.value, "b");
    assert_eq!(input.cursor, 1);
}

#[test]
fn control_characters_are_not_inserted() {
    let mut input = TextInput::default();
    input.handle_key(KeyCode::Char('\u{7}'));
    input.handle_key(KeyCode::Char('\u{85}'));
    input.handle_key(KeyCode::Tab);
    assert_eq!(input.value, "");
    input.handle_key(KeyCode::Char('x'));
    assert_eq!(input.value, "x");
}

#[test]
fn any_edit_sequence_keeps_cursor_on_boundaries() {
    let keys = [
        KeyCode::Char('ß'),
        KeyCode::Char('😀'),
        KeyCode::Left,
        KeyCode::Char('€'),
        KeyCode::Right,
        KeyCode::Right,
        KeyCode::Backspace,
        KeyCode::Left,
        KeyCode::Left,
        KeyCode::Delete,
        KeyCode::Char('x'),
        KeyCode::End,
        KeyCode::Backspace,
    ];
    let mut input = TextInput::default();
    for key in keys {
        input.handle_key(key);
        assert!(input.cursor <= input.value.len());
        assert!(input.value.is_char_boundary(input.cursor));
    }
    assert_eq!(input.value, "x");
}

#[test]
fn branch_edits_clear_the_error_only_when_text_changes() {
    let mut input = BranchInput {
        value: "ab".to_string(),
        error: Some("Branch name cannot be empty".to_string()),
        cursor: 2,
    };
    input.handle_edit_key(KeyCode::Right);
    assert!(input.error.is_some());
    input.handle_edit_key(KeyCode::Delete);
    assert!(input.error.is_some());
    input.handle_edit_key(KeyCode::Backspace);
    assert_eq!(input.value, "a");
    assert_eq!(input.error, None);
}

#[test]
fn clamp_cursor_snaps_to_a_boundary() {
    let mut input = BranchInput { value: "a€".to_string(), error: None, cursor: 10 };
    input.clamp_cursor();
    assert_eq!(input.cursor, 4);
    let mut inside = BranchInput { value: "a€".to_string(), error: None, cursor: 2 };
    inside.clamp_cursor();
    assert_eq!(inside.cursor, 1);
}

#[test]
fn typing_never_creates_a_double_dash() {
    let mut input = BranchInput::default();
    let keys = [
        KeyCode::Char('a'),
        KeyCode::Char(' '),
        KeyCode::Char('-'),
        KeyCode::Left,
        KeyCode::Char('-'),
        KeyCode::Char(' '),
        KeyCode::Right,
        KeyCode::Char('b'),
        KeyCode::Char('-'),
        KeyCode::Left,
        KeyCode::Char(' '),
    ];
    for key in keys {
        input.handle_edit_key(key);
        assert!(!input.value.contains("--"), "value {:?}", input.value);
    }
    assert_eq!(input.value, "a-b-");
}
