//! The renderer: from the editor state it decides the full screen
//! contents — one row per visible content line, prefixed with its
//! 1-based line number, blank rows past the end of the document, a
//! status line with the mode and the 1-based cursor position, and the
//! cell the terminal cursor must land on. It only decides what to
//! draw; painting is the driver's business.

use vstd::prelude::*;

use crate::editor::Editor;
use crate::state::{content_height, wf, EditorModel, Mode};

verus! {

/// What one redraw must put on the terminal: the content rows (one per
/// content row of the terminal, possibly empty), the status line, and
/// the cell for the terminal cursor.
pub struct Screen {
    pub rows: Vec<Vec<char>>,
    pub status: Vec<char>,
    pub cursor_row: usize,
    pub cursor_col: usize,
}

/// The decimal digit `d` as a character.
pub open spec fn digit_char(d: nat) -> char {
    if d == 0 {
        '0'
    } else if d == 1 {
        '1'
    } else if d == 2 {
        '2'
    } else if d == 3 {
        '3'
    } else if d == 4 {
        '4'
    } else if d == 5 {
        '5'
    } else if d == 6 {
        '6'
    } else if d == 7 {
        '7'
    } else if d == 8 {
        '8'
    } else {
        '9'
    }
}

/// The decimal digits of `n`, most significant first, with no leading
/// zeros (and `0` itself written as one digit).
pub open spec fn dec_digits(n: nat) -> Seq<char>
    decreases n,
{
    if n < 10 {
        seq![digit_char(n)]
    } else {
        dec_digits(n / 10).push(digit_char(n % 10))
    }
}

/// An integer clamped to what a `usize` can hold.
pub open spec fn sat_usize(n: int) -> int {
    if n <= usize::MAX {
        n
    } else {
        usize::MAX as int
    }
}

/// The name of a mode, as the status line shows it.
pub open spec fn mode_label(m: Mode) -> Seq<char> {
    match m {
        Mode::Command => seq!['C', 'O', 'M', 'M', 'A', 'N', 'D'],
        Mode::Insert => seq!['I', 'N', 'S', 'E', 'R', 'T'],
    }
}

/// The status line: the mode name and the 1-based line and column of
/// the cursor.
pub open spec fn status_view(m: EditorModel) -> Seq<char> {
    seq!['-', '-', ' '] + mode_label(m.mode) + seq![' ', '-', '-', ' ', 'L', 'i', 'n', 'e', ':', ' ']
        + dec_digits((m.line_pos + 1) as nat) + seq![',', ' ', 'C', 'o', 'l', ':', ' '] + dec_digits(
        sat_usize(m.cursor_pos + 1) as nat,
    )
}

/// Content row `i` of the screen: the line at `scroll_offset + i` with
/// its 1-based number and a separating space in front, or an empty row
/// where the document has no such line.
pub open spec fn row_view(m: EditorModel, i: int) -> Seq<char> {
    if m.scroll_offset + i < m.lines.len() {
        dec_digits((m.scroll_offset + i + 1) as nat) + seq![' '] + m.lines[m.scroll_offset + i]
    } else {
        Seq::empty()
    }
}

/// Where the terminal cursor lands inside its row: past the line-number
/// prefix of the *current* line (whose width varies with the digit
/// count) and the separating space, then the cursor column. Clamped to
/// `usize` in the unreachable case of an astronomically long line.
pub open spec fn cursor_col_view(m: EditorModel) -> int {
    sat_usize(dec_digits((m.line_pos + 1) as nat).len() + 1 + m.cursor_pos)
}

fn digit_char_of(d: usize) -> (c: char)
    requires
        d < 10,
    ensures
        c == digit_char(d as nat),
{
    if d == 0 {
        '0'
    } else if d == 1 {
        '1'
    } else if d == 2 {
        '2'
    } else if d == 3 {
        '3'
    } else if d == 4 {
        '4'
    } else if d == 5 {
        '5'
    } else if d == 6 {
        '6'
    } else if d == 7 {
        '7'
    } else if d == 8 {
        '8'
    } else {
        '9'
    }
}

/// The decimal digits of `n` as characters, most significant first.
pub fn decimal_digits(n: usize) -> (r: Vec<char>)
    ensures
        r@ == dec_digits(n as nat),
    decreases n,
{
    if n < 10 {
        let mut r: Vec<char> = Vec::new();
        r.push(digit_char_of(n));
        proof {
            assert(r@ =~= dec_digits(n as nat));
        }
        r
    } else {
        let mut r = decimal_digits(n / 10);
        r.push(digit_char_of(n % 10));
        r
    }
}

fn push_mode_label(v: &mut Vec<char>, m: Mode)
    ensures
        final(v)@ == old(v)@ + mode_label(m),
{
    match m {
        Mode::Command => {
            v.push('C');
            v.push('O');
            v.push('M');
            v.push('M');
            v.push('A');
            v.push('N');
            v.push('D');
        },
        Mode::Insert => {
            v.push('I');
            v.push('N');
            v.push('S');
            v.push('E');
            v.push('R');
            v.push('T');
        },
    }
    proof {
        assert(v@ =~= old(v)@ + mode_label(m));
    }
}

impl Editor {
    /// Decide the whole screen for the current state: every content
    /// row, the status line, and the terminal cursor cell.
    pub fn render(&self) -> (s: Screen)
        requires
            wf(self@),
        ensures
            s.rows@.len() == content_height(self@),
            forall|i: int|
                0 <= i < s.rows@.len() ==> (#[trigger] s.rows@[i])@ == row_view(self@, i),
            s.status@ == status_view(self@),
            s.cursor_row == self@.line_pos - self@.scroll_offset,
            s.cursor_col == cursor_col_view(self@),
    {
        let ch = (self.terminal_height() - 1) as usize;
        let nl = self.line_count();
        let so = self.scroll_offset();
        let visible: usize = if ch < nl - so {
            ch
        } else {
            nl - so
        };
        let mut rows: Vec<Vec<char>> = Vec::new();
        let mut i: usize = 0;
        while i < visible
            invariant
                wf(self@),
                ch == content_height(self@),
                nl == self@.lines.len(),
                so == self@.scroll_offset,
                visible <= ch,
                so + visible <= nl,
                visible == if ch < nl - so {
                    ch as int
                } else {
                    nl - so
                },
                i <= visible,
                rows@.len() == i,
                forall|j: int| 0 <= j < i ==> (#[trigger] rows@[j])@ == row_view(self@, j),
            decreases visible - i,
        {
            let line_idx = so + i;
            let mut row = decimal_digits(line_idx + 1);
            row.push(' ');
            let mut text = self.line_text(line_idx);
            row.append(&mut text);
            proof {
                assert(row@ =~= row_view(self@, i as int));
            }
            rows.push(row);
            i += 1;
        }
        while i < ch
            invariant
                wf(self@),
                ch == content_height(self@),
                nl == self@.lines.len(),
                so == self@.scroll_offset,
                visible <= i <= ch,
                so + visible <= nl,
                visible == if ch < nl - so {
                    ch as int
                } else {
                    nl - so
                },
                rows@.len() == i,
                forall|j: int| 0 <= j < i ==> (#[trigger] rows@[j])@ == row_view(self@, j),
            decreases ch - i,
        {
            let row: Vec<char> = Vec::new();
            proof {
                assert(so + i >= nl);
                assert(row@ =~= row_view(self@, i as int));
            }
            rows.push(row);
            i += 1;
        }
        let status = self.status_line();
        let prefix_width = decimal_digits(self.line_pos() + 1).len();
        let base: usize = if prefix_width < usize::MAX {
            prefix_width + 1
        } else {
            usize::MAX
        };
        let cursor_col: usize = if self.cursor_pos() <= usize::MAX - base {
            base + self.cursor_pos()
        } else {
            usize::MAX
        };
        Screen { rows, status, cursor_row: self.line_pos() - self.scroll_offset(), cursor_col }
    }

    /// The status line for the current state.
    pub fn status_line(&self) -> (r: Vec<char>)
        requires
            wf(self@),
        ensures
            r@ == status_view(self@),
    {
        let mut v: Vec<char> = Vec::new();
        v.push('-');
        v.push('-');
        v.push(' ');
        proof {
            assert(v@ =~= seq!['-', '-', ' ']);
        }
        push_mode_label(&mut v, self.mode());
        v.push(' ');
        v.push('-');
        v.push('-');
        v.push(' ');
        v.push('L');
        v.push('i');
        v.push('n');
        v.push('e');
        v.push(':');
        v.push(' ');
        proof {
            assert(v@ =~= seq!['-', '-', ' '] + mode_label(self@.mode) + seq![
                ' ', '-', '-', ' ', 'L', 'i', 'n', 'e', ':', ' '
            ]);
        }
        let nl = self.line_count();
        let lp = self.line_pos();
        assert(lp < nl);
        let mut line_digits = decimal_digits(lp + 1);
        v.append(&mut line_digits);
        v.push(',');
        v.push(' ');
        v.push('C');
        v.push('o');
        v.push('l');
        v.push(':');
        v.push(' ');
        let col_display: usize = if self.cursor_pos() < usize::MAX {
            self.cursor_pos() + 1
        } else {
            usize::MAX
        };
        let mut col_digits = decimal_digits(col_display);
        v.append(&mut col_digits);
        proof {
            assert(v@ =~= status_view(self@));
        }
        v
    }
}

} // verus!
