//! The editor itself: the buffer, cursor, viewport and mode in one
//! owned value, a constructor, the scroll adjustment, and the key
//! dispatcher `handle_key`, whose behaviour is exactly the transition
//! function [`crate::state::step`].

use vstd::prelude::*;

use crate::document::Document;
use crate::state::{
    adjusted, initial_model, inserted_char, joined_with_previous, lemma_step_preserves_wf,
    moved_to_line, split_at_cursor, step_action, step_state, wf, Action, EditorModel, Key, Mode,
};

verus! {

/// A modal editing session: one document, one cursor, one viewport,
/// one mode. The terminal dimensions are fixed at construction.
pub struct Editor {
    doc: Document,
    cursor_pos: usize,
    line_pos: usize,
    terminal_height: u16,
    terminal_width: u16,
    scroll_offset: usize,
    mode: Mode,
}

impl View for Editor {
    type V = EditorModel;

    closed spec fn view(&self) -> EditorModel {
        EditorModel {
            lines: self.doc@,
            line_pos: self.line_pos as int,
            cursor_pos: self.cursor_pos as int,
            scroll_offset: self.scroll_offset as int,
            height: self.terminal_height as int,
            width: self.terminal_width as int,
            mode: self.mode,
        }
    }
}

impl Editor {
    /// A fresh session over one empty line, in command mode, with the
    /// given terminal dimensions. A height below two rows is raised to
    /// two, so that one content row and the status bar always exist.
    pub fn new(cols: u16, rows: u16) -> (e: Editor)
        ensures
            e@ == initial_model(cols as int, rows as int),
            wf(e@),
    {
        let height: u16 = if rows < 2 {
            2
        } else {
            rows
        };
        let e = Editor {
            doc: Document::new(),
            cursor_pos: 0,
            line_pos: 0,
            terminal_height: height,
            terminal_width: cols,
            scroll_offset: 0,
            mode: Mode::Command,
        };
        proof {
            assert(e@ =~= initial_model(cols as int, rows as int));
        }
        e
    }

    /// Recompute the scroll offset after the cursor's line changed:
    /// scroll just far enough to make the line visible again, and not
    /// at all when it already is.
    pub fn adjust_scroll(&mut self)
        requires
            old(self)@.height >= 2,
        ensures
            final(self)@ == adjusted(old(self)@),
    {
        let content_height = (self.terminal_height - 1) as usize;
        if self.line_pos < self.scroll_offset {
            self.scroll_offset = self.line_pos;
        } else if self.line_pos - self.scroll_offset >= content_height {
            self.scroll_offset = self.line_pos - content_height + 1;
        }
        proof {
            assert(self@ =~= adjusted(old(self)@));
        }
    }

    /// Insert `c` at the cursor and advance the column.
    fn insert_at_cursor(&mut self, c: char)
        requires
            wf(old(self)@),
        ensures
            final(self)@ == inserted_char(old(self)@, c),
    {
        self.doc.insert_char(self.line_pos, self.cursor_pos, c);
        let new_len = self.doc.line_len(self.line_pos);
        assert(self.cursor_pos < new_len);
        self.cursor_pos += 1;
        proof {
            assert(self@ =~= inserted_char(old(self)@, c));
        }
    }

    /// Dispatch one key press: mutate the state as the mode and the key
    /// demand, and report whether the driver must quit, repaint, or do
    /// nothing. The new state and the action are exactly those of the
    /// transition function `step`, and the invariant is preserved.
    pub fn handle_key(&mut self, k: Key) -> (act: Action)
        requires
            wf(old(self)@),
        ensures
            final(self)@ == step_state(old(self)@, k),
            act == step_action(old(self)@, k),
            wf(final(self)@),
    {
        let act = match k {
            Key::Char(c) => {
                if self.in_insert_mode() {
                    self.insert_at_cursor(c);
                    Action::Redraw
                } else if c == 'q' {
                    Action::Quit
                } else if c == 'i' {
                    self.mode = Mode::Insert;
                    Action::Redraw
                } else {
                    Action::NoChange
                }
            },
            Key::Esc => {
                if self.in_insert_mode() {
                    self.mode = Mode::Command;
                    Action::Redraw
                } else {
                    Action::Quit
                }
            },
            Key::Enter => {
                if self.in_insert_mode() {
                    self.doc.split_line(self.line_pos, self.cursor_pos);
                    let n = self.doc.num_lines();
                    assert(self.line_pos < n);
                    self.line_pos += 1;
                    self.cursor_pos = 0;
                    proof {
                        assert(self@ =~= split_at_cursor(old(self)@));
                    }
                    self.adjust_scroll();
                    Action::Redraw
                } else {
                    Action::NoChange
                }
            },
            Key::Backspace => {
                if self.in_insert_mode() {
                    if self.cursor_pos > 0 {
                        self.doc.delete_char(self.line_pos, self.cursor_pos);
                        self.cursor_pos -= 1;
                        Action::Redraw
                    } else if self.line_pos > 0 {
                        let plen = self.doc.line_len(self.line_pos - 1);
                        self.doc.join_with_previous(self.line_pos);
                        self.line_pos -= 1;
                        self.cursor_pos = plen;
                        proof {
                            assert(self@ =~= joined_with_previous(old(self)@));
                        }
                        self.adjust_scroll();
                        Action::Redraw
                    } else {
                        Action::NoChange
                    }
                } else {
                    Action::NoChange
                }
            },
            Key::Left => {
                if self.cursor_pos > 0 {
                    self.cursor_pos -= 1;
                    Action::Redraw
                } else if self.line_pos > 0 {
                    self.line_pos -= 1;
                    self.cursor_pos = self.doc.line_len(self.line_pos);
                    self.adjust_scroll();
                    Action::Redraw
                } else {
                    Action::NoChange
                }
            },
            Key::Right => {
                let llen = self.doc.line_len(self.line_pos);
                let n = self.doc.num_lines();
                if self.cursor_pos < llen {
                    self.cursor_pos += 1;
                    Action::Redraw
                } else if self.line_pos + 1 < n {
                    self.line_pos += 1;
                    self.cursor_pos = 0;
                    self.adjust_scroll();
                    Action::Redraw
                } else {
                    Action::NoChange
                }
            },
            Key::Up => {
                if self.line_pos > 0 {
                    self.line_pos -= 1;
                    let llen = self.doc.line_len(self.line_pos);
                    if self.cursor_pos > llen {
                        self.cursor_pos = llen;
                    }
                    proof {
                        assert(self@ =~= moved_to_line(old(self)@, old(self)@.line_pos - 1));
                    }
                    self.adjust_scroll();
                    Action::Redraw
                } else {
                    Action::NoChange
                }
            },
            Key::Down => {
                let n = self.doc.num_lines();
                if self.line_pos + 1 < n {
                    self.line_pos += 1;
                    let llen = self.doc.line_len(self.line_pos);
                    if self.cursor_pos > llen {
                        self.cursor_pos = llen;
                    }
                    proof {
                        assert(self@ =~= moved_to_line(old(self)@, old(self)@.line_pos + 1));
                    }
                    self.adjust_scroll();
                    Action::Redraw
                } else {
                    Action::NoChange
                }
            },
            Key::Other => Action::NoChange,
        };
        proof {
            lemma_step_preserves_wf(old(self)@, k);
        }
        act
    }

    /// Whether the session is in insert mode.
    pub fn in_insert_mode(&self) -> (b: bool)
        ensures
            b == (self@.mode == Mode::Insert),
    {
        match self.mode {
            Mode::Insert => true,
            Mode::Command => false,
        }
    }

    /// The current mode.
    pub fn mode(&self) -> (m: Mode)
        ensures
            m == self@.mode,
    {
        self.mode
    }

    /// The cursor's column.
    pub fn cursor_pos(&self) -> (n: usize)
        ensures
            n == self@.cursor_pos,
    {
        self.cursor_pos
    }

    /// The cursor's line index.
    pub fn line_pos(&self) -> (n: usize)
        ensures
            n == self@.line_pos,
    {
        self.line_pos
    }

    /// The index of the first visible line.
    pub fn scroll_offset(&self) -> (n: usize)
        ensures
            n == self@.scroll_offset,
    {
        self.scroll_offset
    }

    /// The terminal height in rows, as fixed at construction.
    pub fn terminal_height(&self) -> (n: u16)
        ensures
            n as int == self@.height,
    {
        self.terminal_height
    }

    /// The terminal width in columns, as fixed at construction.
    pub fn terminal_width(&self) -> (n: u16)
        ensures
            n as int == self@.width,
    {
        self.terminal_width
    }

    /// Number of lines in the document.
    pub fn line_count(&self) -> (n: usize)
        ensures
            n == self@.lines.len(),
    {
        self.doc.num_lines()
    }

    /// Length of line `line`.
    pub fn line_len(&self, line: usize) -> (n: usize)
        requires
            line < self@.lines.len(),
        ensures
            n == self@.lines[line as int].len(),
    {
        self.doc.line_len(line)
    }

    /// A copy of line `line` as a vector of characters.
    pub fn line_text(&self, line: usize) -> (r: Vec<char>)
        requires
            line < self@.lines.len(),
        ensures
            r@ == self@.lines[line as int],
    {
        self.doc.line_text(line)
    }

    /// Whether the state satisfies the editor invariant. True for every
    /// state this library constructs; an unverified caller can test it
    /// before dispatching a key.
    pub fn is_well_formed(&self) -> (b: bool)
        ensures
            b == wf(self@),
    {
        let nl = self.doc.num_lines();
        if !(self.terminal_height >= 2 && nl >= 1 && self.line_pos < nl) {
            return false;
        }
        let llen = self.doc.line_len(self.line_pos);
        let content_height = (self.terminal_height - 1) as usize;
        self.cursor_pos <= llen && self.scroll_offset <= self.line_pos && self.line_pos
            - self.scroll_offset < content_height
    }
}

} // verus!
