use modal_editor::editor::Editor;
use modal_editor::render::decimal_digits;
use modal_editor::state::Key;

fn type_chars(ed: &mut Editor, s: &str) {
    for c in s.chars() {
        ed.handle_key(Key::Char(c));
    }
}

fn chars_to_string(v: &Vec<char>) -> String {
    v.iter().collect()
}

#[test]
fn decimal_digits_are_exact() {
    assert_eq!(chars_to_string(&decimal_digits(0)), "0");
    assert_eq!(chars_to_string(&decimal_digits(7)), "7");
    assert_eq!(chars_to_string(&decimal_digits(10)), "10");
    assert_eq!(chars_to_string(&decimal_digits(99)), "99");
    assert_eq!(chars_to_string(&decimal_digits(305)), "305");
    assert_eq!(chars_to_string(&decimal_digits(18446744073709551615)), "18446744073709551615");
}

#[test]
fn screen_shows_numbered_lines_and_blank_rows() {
    let mut ed = Editor::new(80, 5);
    ed.handle_key(Key::Char('i'));
    type_chars(&mut ed, "hi");
    ed.handle_key(Key::Enter);
    type_chars(&mut ed, "bye");
    let s = ed.render();
    assert_eq!(s.rows.len(), 4);
    assert_eq!(chars_to_string(&s.rows[0]), "1 hi");
    assert_eq!(chars_to_string(&s.rows[1]), "2 bye");
    assert_eq!(chars_to_string(&s.rows[2]), "");
    assert_eq!(chars_to_string(&s.rows[3]), "");
}

#[test]
fn status_line_shows_mode_and_one_based_position() {
    let mut ed = Editor::new(80, 5);
    ed.handle_key(Key::Char('i'));
    type_chars(&mut ed, "hi");
    let s = ed.render();
    assert_eq!(chars_to_string(&s.status), "-- INSERT -- Line: 1, Col: 3");
    ed.handle_key(Key::Esc);
    let s = ed.render();
    assert_eq!(chars_to_string(&s.status), "-- COMMAND -- Line: 1, Col: 3");
}

#[test]
fn cursor_lands_after_the_line_number_prefix() {
    let mut ed = Editor::new(80, 5);
    ed.handle_key(Key::Char('i'));
    type_chars(&mut ed, "hi");
    let s = ed.render();
    // Prefix "1 " is two cells wide, the cursor column is 2.
    assert_eq!(s.cursor_row, 0);
    assert_eq!(s.cursor_col, 2 + 2);
}

#[test]
fn scrolled_screen_starts_at_the_offset_and_widens_the_prefix() {
    let mut ed = Editor::new(80, 5);
    ed.handle_key(Key::Char('i'));
    for _ in 0..9 {
        ed.handle_key(Key::Enter);
    }
    assert_eq!(ed.scroll_offset(), 6);
    let s = ed.render();
    assert_eq!(s.rows.len(), 4);
    assert_eq!(chars_to_string(&s.rows[0]), "7 ");
    assert_eq!(chars_to_string(&s.rows[1]), "8 ");
    assert_eq!(chars_to_string(&s.rows[2]), "9 ");
    assert_eq!(chars_to_string(&s.rows[3]), "10 ");
    assert_eq!(chars_to_string(&s.status), "-- INSERT -- Line: 10, Col: 1");
    assert_eq!(s.cursor_row, 3);
    // The prefix "10 " of the cursor's own line is three cells wide.
    assert_eq!(s.cursor_col, 3);
}
