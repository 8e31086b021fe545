use modal_editor::editor::Editor;
use modal_editor::state::{Action, Key, Mode};

fn type_chars(ed: &mut Editor, s: &str) {
    for c in s.chars() {
        ed.handle_key(Key::Char(c));
    }
}

fn line_str(ed: &Editor, i: usize) -> String {
    ed.line_text(i).iter().collect()
}

#[test]
fn new_editor_has_one_empty_line_in_command_mode() {
    let ed = Editor::new(80, 24);
    assert_eq!(ed.line_count(), 1);
    assert_eq!(ed.line_len(0), 0);
    assert_eq!(ed.line_pos(), 0);
    assert_eq!(ed.cursor_pos(), 0);
    assert_eq!(ed.scroll_offset(), 0);
    assert_eq!(ed.mode(), Mode::Command);
    assert!(ed.is_well_formed());
}

#[test]
fn new_editor_clamps_tiny_terminal_heights() {
    assert_eq!(Editor::new(10, 0).terminal_height(), 2);
    assert_eq!(Editor::new(10, 1).terminal_height(), 2);
    assert_eq!(Editor::new(10, 2).terminal_height(), 2);
    assert_eq!(Editor::new(10, 24).terminal_height(), 24);
    assert_eq!(Editor::new(33, 24).terminal_width(), 33);
}

#[test]
fn insert_type_split_type_escape() {
    let mut ed = Editor::new(80, 24);
    assert_eq!(ed.handle_key(Key::Char('i')), Action::Redraw);
    assert_eq!(ed.mode(), Mode::Insert);
    type_chars(&mut ed, "hi");
    assert_eq!(ed.handle_key(Key::Enter), Action::Redraw);
    type_chars(&mut ed, "bye");
    assert_eq!(ed.handle_key(Key::Esc), Action::Redraw);
    assert_eq!(ed.line_count(), 2);
    assert_eq!(line_str(&ed, 0), "hi");
    assert_eq!(line_str(&ed, 1), "bye");
    assert_eq!(ed.mode(), Mode::Command);
    assert_eq!(ed.line_pos(), 1);
    assert_eq!(ed.cursor_pos(), 3);
}

#[test]
fn right_three_times_then_backspace() {
    let mut ed = Editor::new(80, 24);
    ed.handle_key(Key::Char('i'));
    type_chars(&mut ed, "abc");
    for _ in 0..3 {
        ed.handle_key(Key::Left);
    }
    assert_eq!((ed.line_pos(), ed.cursor_pos()), (0, 0));
    for _ in 0..3 {
        assert_eq!(ed.handle_key(Key::Right), Action::Redraw);
    }
    assert_eq!(ed.handle_key(Key::Backspace), Action::Redraw);
    assert_eq!(line_str(&ed, 0), "ab");
    assert_eq!((ed.line_pos(), ed.cursor_pos()), (0, 2));
}

#[test]
fn backspace_at_column_zero_joins_lines() {
    let mut ed = Editor::new(80, 24);
    ed.handle_key(Key::Char('i'));
    type_chars(&mut ed, "a");
    ed.handle_key(Key::Enter);
    type_chars(&mut ed, "b");
    ed.handle_key(Key::Left);
    assert_eq!((ed.line_pos(), ed.cursor_pos()), (1, 0));
    assert_eq!(ed.handle_key(Key::Backspace), Action::Redraw);
    assert_eq!(ed.line_count(), 1);
    assert_eq!(line_str(&ed, 0), "ab");
    assert_eq!((ed.line_pos(), ed.cursor_pos()), (0, 1));
}

#[test]
fn splitting_past_the_viewport_scrolls_down_minimally() {
    let mut ed = Editor::new(80, 5);
    ed.handle_key(Key::Char('i'));
    for _ in 0..9 {
        ed.handle_key(Key::Enter);
    }
    assert_eq!(ed.line_count(), 10);
    assert_eq!(ed.line_pos(), 9);
    assert_eq!(ed.scroll_offset(), 6);
    ed.adjust_scroll();
    assert_eq!(ed.scroll_offset(), 6);
}

#[test]
fn moving_back_up_scrolls_up_minimally() {
    let mut ed = Editor::new(80, 5);
    ed.handle_key(Key::Char('i'));
    for _ in 0..9 {
        ed.handle_key(Key::Enter);
    }
    assert_eq!(ed.scroll_offset(), 6);
    for _ in 0..3 {
        ed.handle_key(Key::Up);
    }
    assert_eq!(ed.line_pos(), 6);
    assert_eq!(ed.scroll_offset(), 6);
    ed.handle_key(Key::Up);
    assert_eq!(ed.line_pos(), 5);
    assert_eq!(ed.scroll_offset(), 5);
}

#[test]
fn q_quits_only_in_command_mode() {
    let mut ed = Editor::new(80, 24);
    assert_eq!(ed.handle_key(Key::Char('q')), Action::Quit);
    assert_eq!(ed.line_count(), 1);
    assert_eq!(ed.mode(), Mode::Command);

    let mut ed = Editor::new(80, 24);
    ed.handle_key(Key::Char('i'));
    type_chars(&mut ed, "x");
    ed.handle_key(Key::Enter);
    assert_eq!(ed.handle_key(Key::Char('q')), Action::Redraw);
    assert_eq!(line_str(&ed, 1), "q");
    assert_eq!(ed.cursor_pos(), 1);
}

#[test]
fn escape_quits_from_command_mode_and_leaves_insert_mode() {
    let mut ed = Editor::new(80, 24);
    assert_eq!(ed.handle_key(Key::Esc), Action::Quit);
    ed.handle_key(Key::Char('i'));
    assert_eq!(ed.handle_key(Key::Esc), Action::Redraw);
    assert_eq!(ed.mode(), Mode::Command);
    assert_eq!(ed.handle_key(Key::Esc), Action::Quit);
}

#[test]
fn three_inserts_and_three_backspaces_round_trip() {
    let mut ed = Editor::new(80, 24);
    ed.handle_key(Key::Char('i'));
    type_chars(&mut ed, "xy");
    let col_before = ed.cursor_pos();
    type_chars(&mut ed, "abc");
    for _ in 0..3 {
        ed.handle_key(Key::Backspace);
    }
    assert_eq!(line_str(&ed, 0), "xy");
    assert_eq!(ed.cursor_pos(), col_before);
    assert_eq!(ed.mode(), Mode::Insert);
}

#[test]
fn left_at_the_origin_is_a_no_op() {
    let mut ed = Editor::new(80, 24);
    ed.handle_key(Key::Char('i'));
    type_chars(&mut ed, "z");
    ed.handle_key(Key::Left);
    for _ in 0..5 {
        assert_eq!(ed.handle_key(Key::Left), Action::NoChange);
        assert_eq!((ed.line_pos(), ed.cursor_pos()), (0, 0));
    }
    assert_eq!(line_str(&ed, 0), "z");
}

#[test]
fn horizontal_motion_crosses_line_boundaries() {
    let mut ed = Editor::new(80, 24);
    ed.handle_key(Key::Char('i'));
    type_chars(&mut ed, "ab");
    ed.handle_key(Key::Enter);
    type_chars(&mut ed, "cd");
    // Cursor sits at the end of the last line: Right is a no-op there.
    assert_eq!(ed.handle_key(Key::Right), Action::NoChange);
    ed.handle_key(Key::Left);
    ed.handle_key(Key::Left);
    assert_eq!((ed.line_pos(), ed.cursor_pos()), (1, 0));
    // Left at column 0 moves to the end of the previous line.
    ed.handle_key(Key::Left);
    assert_eq!((ed.line_pos(), ed.cursor_pos()), (0, 2));
    // Right at the end of a line moves to column 0 of the next one.
    ed.handle_key(Key::Right);
    assert_eq!((ed.line_pos(), ed.cursor_pos()), (1, 0));
}

#[test]
fn vertical_motion_clamps_the_column() {
    let mut ed = Editor::new(80, 24);
    ed.handle_key(Key::Char('i'));
    type_chars(&mut ed, "abcd");
    ed.handle_key(Key::Enter);
    type_chars(&mut ed, "x");
    ed.handle_key(Key::Up);
    // Column 1 fits in "abcd", so it is kept.
    assert_eq!((ed.line_pos(), ed.cursor_pos()), (0, 1));
    ed.handle_key(Key::Right);
    ed.handle_key(Key::Right);
    ed.handle_key(Key::Right);
    assert_eq!(ed.cursor_pos(), 4);
    ed.handle_key(Key::Down);
    // Column 4 does not fit in "x": clamped to its length.
    assert_eq!((ed.line_pos(), ed.cursor_pos()), (1, 1));
    // At the last line, Down is a no-op.
    assert_eq!(ed.handle_key(Key::Down), Action::NoChange);
    // Back at the first line, Up is a no-op.
    ed.handle_key(Key::Up);
    assert_eq!(ed.handle_key(Key::Up), Action::NoChange);
}

#[test]
fn deliberate_no_ops_change_nothing() {
    let mut ed = Editor::new(80, 24);
    // Enter, Backspace and plain characters do nothing in command mode.
    assert_eq!(ed.handle_key(Key::Enter), Action::NoChange);
    assert_eq!(ed.handle_key(Key::Backspace), Action::NoChange);
    assert_eq!(ed.handle_key(Key::Char('x')), Action::NoChange);
    assert_eq!(ed.handle_key(Key::Other), Action::NoChange);
    // Backspace at the very start of the buffer does nothing.
    ed.handle_key(Key::Char('i'));
    assert_eq!(ed.handle_key(Key::Backspace), Action::NoChange);
    assert_eq!(ed.line_count(), 1);
    assert_eq!(ed.line_len(0), 0);
    assert!(ed.is_well_formed());
}
