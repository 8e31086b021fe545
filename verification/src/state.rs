//! The mathematical model of the editor: its state as plain ghost data,
//! the well-formedness invariant, the scroll policy, and the transition
//! function `step` that gives the meaning of every key press.

use vstd::prelude::*;

verus! {

/// A key event, as the engine sees it. `Other` stands for any key the
/// editor does not react to.
#[derive(Clone, Copy, PartialEq, Eq, Debug)]
pub enum Key {
    Char(char),
    Esc,
    Enter,
    Backspace,
    Left,
    Right,
    Up,
    Down,
    Other,
}

/// The editing mode: `Command` interprets keys as commands, `Insert`
/// inserts printable characters into the buffer.
#[derive(Clone, Copy, PartialEq, Eq, Debug)]
pub enum Mode {
    Command,
    Insert,
}

/// What the driver must do after a key was handled: stop the session,
/// repaint the screen, or nothing (the state did not change).
#[derive(Clone, Copy, PartialEq, Eq, Debug)]
pub enum Action {
    Quit,
    Redraw,
    NoChange,
}

/// The whole editor state as ghost data: the buffer lines, the cursor,
/// the viewport, the fixed terminal dimensions, and the mode.
#[verifier::ext_equal]
pub ghost struct EditorModel {
    pub lines: Seq<Seq<char>>,
    pub line_pos: int,
    pub cursor_pos: int,
    pub scroll_offset: int,
    pub height: int,
    pub width: int,
    pub mode: Mode,
}

/// Rows available for buffer lines: the last terminal row is reserved
/// for the status bar.
pub open spec fn content_height(m: EditorModel) -> int {
    m.height - 1
}

/// Everything the invariant asks of a state except the two scroll
/// bounds: at least one line, cursor inside the buffer (the column may
/// equal the line length: the append position), and a terminal tall
/// enough for one content row plus the status bar.
pub open spec fn wf_core(m: EditorModel) -> bool {
    &&& m.height >= 2
    &&& m.lines.len() >= 1
    &&& 0 <= m.line_pos < m.lines.len()
    &&& 0 <= m.cursor_pos <= m.lines[m.line_pos].len()
}

/// The full invariant: `wf_core` plus the viewport bounds, which keep
/// the cursor's line inside the visible window.
pub open spec fn wf(m: EditorModel) -> bool {
    &&& wf_core(m)
    &&& 0 <= m.scroll_offset <= m.line_pos
    &&& m.line_pos < m.scroll_offset + content_height(m)
}

/// The minimal-motion scroll policy: scroll down just enough to bring
/// the cursor's line onto the last visible content row, or up so it
/// becomes the first visible row; otherwise leave the offset alone.
pub open spec fn adjusted(m: EditorModel) -> EditorModel {
    if m.line_pos >= m.scroll_offset + content_height(m) {
        EditorModel { scroll_offset: m.line_pos - content_height(m) + 1, ..m }
    } else if m.line_pos < m.scroll_offset {
        EditorModel { scroll_offset: m.line_pos, ..m }
    } else {
        m
    }
}

/// Insert `c` at the cursor and advance the column by one.
pub open spec fn inserted_char(m: EditorModel, c: char) -> EditorModel {
    EditorModel {
        lines: m.lines.update(m.line_pos, m.lines[m.line_pos].insert(m.cursor_pos, c)),
        cursor_pos: m.cursor_pos + 1,
        ..m
    }
}

/// Delete the character just before the cursor and move the column
/// back by one.
pub open spec fn deleted_char(m: EditorModel) -> EditorModel {
    EditorModel {
        lines: m.lines.update(m.line_pos, m.lines[m.line_pos].remove(m.cursor_pos - 1)),
        cursor_pos: m.cursor_pos - 1,
        ..m
    }
}

/// Split the cursor's line at the cursor: the tail becomes a new
/// following line and the cursor moves to its column 0.
pub open spec fn split_at_cursor(m: EditorModel) -> EditorModel {
    EditorModel {
        lines: m.lines.update(m.line_pos, m.lines[m.line_pos].take(m.cursor_pos)).insert(
            m.line_pos + 1,
            m.lines[m.line_pos].skip(m.cursor_pos),
        ),
        line_pos: m.line_pos + 1,
        cursor_pos: 0,
        ..m
    }
}

/// Join the cursor's line onto the previous one: the cursor lands at
/// the join point, the column that was the previous line's length.
pub open spec fn joined_with_previous(m: EditorModel) -> EditorModel {
    EditorModel {
        lines: m.lines.remove(m.line_pos).update(
            m.line_pos - 1,
            m.lines[m.line_pos - 1] + m.lines[m.line_pos],
        ),
        line_pos: m.line_pos - 1,
        cursor_pos: m.lines[m.line_pos - 1].len() as int,
        ..m
    }
}

/// The transition table: what one key press does to a state, and what
/// the driver must do afterwards. Mirrors the dispatch order of the
/// editor: `q` quits only in command mode and is a literal character in
/// insert mode; `Esc` leaves insert mode and quits from command mode;
/// `i` enters insert mode; navigation works in both modes; `Enter` and
/// `Backspace` mutate only in insert mode.
pub open spec fn step(m: EditorModel, k: Key) -> (EditorModel, Action) {
    match k {
        Key::Char(c) => {
            if m.mode == Mode::Insert {
                (inserted_char(m, c), Action::Redraw)
            } else if c == 'q' {
                (m, Action::Quit)
            } else if c == 'i' {
                (EditorModel { mode: Mode::Insert, ..m }, Action::Redraw)
            } else {
                (m, Action::NoChange)
            }
        },
        Key::Esc => {
            if m.mode == Mode::Insert {
                (EditorModel { mode: Mode::Command, ..m }, Action::Redraw)
            } else {
                (m, Action::Quit)
            }
        },
        Key::Enter => {
            if m.mode == Mode::Insert {
                (adjusted(split_at_cursor(m)), Action::Redraw)
            } else {
                (m, Action::NoChange)
            }
        },
        Key::Backspace => {
            if m.mode == Mode::Insert {
                if m.cursor_pos > 0 {
                    (deleted_char(m), Action::Redraw)
                } else if m.line_pos > 0 {
                    (adjusted(joined_with_previous(m)), Action::Redraw)
                } else {
                    (m, Action::NoChange)
                }
            } else {
                (m, Action::NoChange)
            }
        },
        Key::Left => {
            if m.cursor_pos > 0 {
                (EditorModel { cursor_pos: m.cursor_pos - 1, ..m }, Action::Redraw)
            } else if m.line_pos > 0 {
                (
                    adjusted(
                        EditorModel {
                            line_pos: m.line_pos - 1,
                            cursor_pos: m.lines[m.line_pos - 1].len() as int,
                            ..m
                        },
                    ),
                    Action::Redraw,
                )
            } else {
                (m, Action::NoChange)
            }
        },
        Key::Right => {
            if m.cursor_pos < m.lines[m.line_pos].len() {
                (EditorModel { cursor_pos: m.cursor_pos + 1, ..m }, Action::Redraw)
            } else if m.line_pos + 1 < m.lines.len() {
                (
                    adjusted(EditorModel { line_pos: m.line_pos + 1, cursor_pos: 0, ..m }),
                    Action::Redraw,
                )
            } else {
                (m, Action::NoChange)
            }
        },
        Key::Up => {
            if m.line_pos > 0 {
                (adjusted(moved_to_line(m, m.line_pos - 1)), Action::Redraw)
            } else {
                (m, Action::NoChange)
            }
        },
        Key::Down => {
            if m.line_pos + 1 < m.lines.len() {
                (adjusted(moved_to_line(m, m.line_pos + 1)), Action::Redraw)
            } else {
                (m, Action::NoChange)
            }
        },
        Key::Other => (m, Action::NoChange),
    }
}

/// The state after one key press: the first half of `step`.
pub open spec fn step_state(m: EditorModel, k: Key) -> EditorModel {
    step(m, k).0
}

/// The driver's duty after one key press: the second half of `step`.
pub open spec fn step_action(m: EditorModel, k: Key) -> Action {
    step(m, k).1
}

/// Vertical cursor motion: move to line `l`, clamping the column to the
/// new line's length so it never lands out of bounds.
pub open spec fn moved_to_line(m: EditorModel, l: int) -> EditorModel {
    EditorModel {
        line_pos: l,
        cursor_pos: if m.cursor_pos < m.lines[l].len() {
            m.cursor_pos
        } else {
            m.lines[l].len() as int
        },
        ..m
    }
}

/// The scroll policy restores the viewport bounds from any offset, as
/// long as the rest of the state is sound.
pub proof fn lemma_adjusted_wf(m: EditorModel)
    requires
        wf_core(m),
        0 <= m.scroll_offset,
    ensures
        wf(adjusted(m)),
{
}

/// The state left by a freshly initialised editor: one empty line, the
/// cursor at the origin, no scrolling, command mode, and a height of at
/// least two rows (one content row plus the status bar).
pub open spec fn initial_model(width: int, height: int) -> EditorModel {
    EditorModel {
        lines: seq![Seq::<char>::empty()],
        line_pos: 0,
        cursor_pos: 0,
        scroll_offset: 0,
        height: if height < 2 {
            2
        } else {
            height
        },
        width: width,
        mode: Mode::Command,
    }
}

/// Every key press preserves the invariant: the cursor stays inside the
/// buffer and the viewport keeps the cursor's line visible, in every
/// reachable state.
pub proof fn lemma_step_preserves_wf(m: EditorModel, k: Key)
    requires
        wf(m),
    ensures
        wf(step(m, k).0),
{
    match k {
        Key::Char(c) => {},
        Key::Esc => {},
        Key::Enter => {
            if m.mode == Mode::Insert {
                lemma_adjusted_wf(split_at_cursor(m));
            }
        },
        Key::Backspace => {
            if m.mode == Mode::Insert && m.cursor_pos == 0 && m.line_pos > 0 {
                lemma_adjusted_wf(joined_with_previous(m));
            }
        },
        Key::Left => {
            if m.cursor_pos == 0 && m.line_pos > 0 {
                lemma_adjusted_wf(
                    EditorModel {
                        line_pos: m.line_pos - 1,
                        cursor_pos: m.lines[m.line_pos - 1].len() as int,
                        ..m
                    },
                );
            }
        },
        Key::Right => {
            if !(m.cursor_pos < m.lines[m.line_pos].len()) && m.line_pos + 1 < m.lines.len() {
                lemma_adjusted_wf(EditorModel { line_pos: m.line_pos + 1, cursor_pos: 0, ..m });
            }
        },
        Key::Up => {
            if m.line_pos > 0 {
                lemma_adjusted_wf(moved_to_line(m, m.line_pos - 1));
            }
        },
        Key::Down => {
            if m.line_pos + 1 < m.lines.len() {
                lemma_adjusted_wf(moved_to_line(m, m.line_pos + 1));
            }
        },
        Key::Other => {},
    }
}

proof fn lemma_insert_remove(s: Seq<char>, i: int, v: char)
    requires
        0 <= i <= s.len(),
    ensures
        s.insert(i, v).remove(i) =~= s,
{
}

/// Typing three characters and then pressing Backspace three times in
/// insert mode returns the editor to exactly the state it started in:
/// same buffer, same cursor, same viewport, same mode.
pub proof fn lemma_insert_backspace_round_trip(m: EditorModel, a: char, b: char, c: char)
    requires
        wf(m),
        m.mode == Mode::Insert,
    ensures
        ({
            let m1 = step(m, Key::Char(a)).0;
            let m2 = step(m1, Key::Char(b)).0;
            let m3 = step(m2, Key::Char(c)).0;
            let m4 = step(m3, Key::Backspace).0;
            let m5 = step(m4, Key::Backspace).0;
            let m6 = step(m5, Key::Backspace).0;
            m6 == m
        }),
{
    let lp = m.line_pos;
    let col = m.cursor_pos;
    let l0 = m.lines[lp];
    let l1 = l0.insert(col, a);
    let l2 = l1.insert(col + 1, b);
    let l3 = l2.insert(col + 2, c);
    let m1 = step(m, Key::Char(a)).0;
    let m2 = step(m1, Key::Char(b)).0;
    let m3 = step(m2, Key::Char(c)).0;
    let m4 = step(m3, Key::Backspace).0;
    let m5 = step(m4, Key::Backspace).0;
    let m6 = step(m5, Key::Backspace).0;
    assert(m2.lines =~= m.lines.update(lp, l2));
    assert(m3.lines =~= m.lines.update(lp, l3));
    lemma_insert_remove(l2, col + 2, c);
    assert(m4.lines =~= m.lines.update(lp, l2));
    lemma_insert_remove(l1, col + 1, b);
    assert(m5.lines =~= m.lines.update(lp, l1));
    lemma_insert_remove(l0, col, a);
    assert(m6.lines =~= m.lines.update(lp, l0));
    assert(m6.lines =~= m.lines);
    assert(m6 =~= m);
}

/// Pressing Left with the cursor at column 0 of the first line changes
/// nothing and asks for no repaint, however often it is repeated.
pub proof fn lemma_left_at_origin_is_noop(m: EditorModel)
    requires
        m.line_pos == 0,
        m.cursor_pos == 0,
    ensures
        step(m, Key::Left) == (m, Action::NoChange),
{
}

/// In command mode, `q` always ends the session, whatever the cursor
/// and the document hold, and leaves the state untouched.
pub proof fn lemma_q_quits_in_command_mode(m: EditorModel)
    requires
        m.mode == Mode::Command,
    ensures
        step(m, Key::Char('q')) == (m, Action::Quit),
{
}

/// In insert mode, `q` is a literal character: it is inserted at the
/// cursor like any other, and never quits.
pub proof fn lemma_q_inserts_in_insert_mode(m: EditorModel)
    requires
        m.mode == Mode::Insert,
    ensures
        step(m, Key::Char('q')) == (inserted_char(m, 'q'), Action::Redraw),
{
}

} // verus!
