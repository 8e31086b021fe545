//! The text buffer: an ordered sequence of lines, each a sequence of
//! characters, with the four structural edits the editor needs. The
//! buffer never holds fewer than one line; bounds checking is the
//! caller's duty (the dispatcher guarantees them through the cursor
//! invariant), so no operation here has an error path.

use vstd::prelude::*;

verus! {

/// The buffer of text lines being edited.
pub struct Document {
    lines: Vec<Vec<char>>,
}

/// A `Document` is seen as the sequence of its lines' character
/// sequences.
pub open spec fn lines_view(s: Seq<Vec<char>>) -> Seq<Seq<char>> {
    s.map_values(|l: Vec<char>| l@)
}

impl View for Document {
    type V = Seq<Seq<char>>;

    closed spec fn view(&self) -> Seq<Seq<char>> {
        lines_view(self.lines@)
    }
}

proof fn lemma_view_update(s: Seq<Vec<char>>, i: int, v: Vec<char>)
    requires
        0 <= i < s.len(),
    ensures
        lines_view(s.update(i, v)) =~= lines_view(s).update(i, v@),
{
}

proof fn lemma_view_insert(s: Seq<Vec<char>>, i: int, v: Vec<char>)
    requires
        0 <= i <= s.len(),
    ensures
        lines_view(s.insert(i, v)) =~= lines_view(s).insert(i, v@),
{
}

proof fn lemma_view_remove(s: Seq<Vec<char>>, i: int)
    requires
        0 <= i < s.len(),
    ensures
        lines_view(s.remove(i)) =~= lines_view(s).remove(i),
{
}

impl Document {
    /// A fresh buffer: exactly one empty line.
    pub fn new() -> (d: Document)
        ensures
            d@ =~= seq![Seq::<char>::empty()],
    {
        let mut lines: Vec<Vec<char>> = Vec::new();
        lines.push(Vec::new());
        Document { lines }
    }

    /// Number of lines in the buffer.
    pub fn num_lines(&self) -> (n: usize)
        ensures
            n == self@.len(),
    {
        self.lines.len()
    }

    /// Length of line `line`.
    pub fn line_len(&self, line: usize) -> (n: usize)
        requires
            line < self@.len(),
        ensures
            n == self@[line as int].len(),
    {
        self.lines[line].len()
    }

    /// The character at column `col` of line `line`.
    pub fn char_at(&self, line: usize, col: usize) -> (c: char)
        requires
            line < self@.len(),
            col < self@[line as int].len(),
        ensures
            c == self@[line as int][col as int],
    {
        self.lines[line][col]
    }

    /// A copy of line `line` as its own vector of characters.
    pub fn line_text(&self, line: usize) -> (r: Vec<char>)
        requires
            line < self@.len(),
        ensures
            r@ == self@[line as int],
    {
        let mut r: Vec<char> = Vec::new();
        let len = self.lines[line].len();
        let mut j: usize = 0;
        while j < len
            invariant
                line < self.lines@.len(),
                len == self@[line as int].len(),
                j <= len,
                r@ =~= self@[line as int].take(j as int),
            decreases len - j,
        {
            r.push(self.lines[line][j]);
            j += 1;
        }
        proof {
            assert(self@[line as int].take(len as int) =~= self@[line as int]);
        }
        r
    }

    /// Insert `ch` at column `col` of line `line`, shifting the rest of
    /// the line right by one.
    pub fn insert_char(&mut self, line: usize, col: usize, ch: char)
        requires
            line < old(self)@.len(),
            col <= old(self)@[line as int].len(),
        ensures
            final(self)@ == old(self)@.update(line as int, old(self)@[line as int].insert(col as int, ch)),
    {
        self.lines[line].insert(col, ch);
        proof {
            lemma_view_update(
                old(self).lines@,
                line as int,
                self.lines@[line as int],
            );
        }
    }

    /// Remove the character just before column `col` of line `line`.
    pub fn delete_char(&mut self, line: usize, col: usize)
        requires
            line < old(self)@.len(),
            0 < col <= old(self)@[line as int].len(),
        ensures
            final(self)@ == old(self)@.update(line as int, old(self)@[line as int].remove(col as int - 1)),
    {
        self.lines[line].remove(col - 1);
        proof {
            lemma_view_update(
                old(self).lines@,
                line as int,
                self.lines@[line as int],
            );
        }
    }

    /// Split line `line` at column `col`: the line keeps the head, and
    /// the tail becomes a new line right after it.
    pub fn split_line(&mut self, line: usize, col: usize)
        requires
            line < old(self)@.len(),
            col <= old(self)@[line as int].len(),
        ensures
            final(self)@ == old(self)@.update(line as int, old(self)@[line as int].take(col as int))
                .insert(line as int + 1, old(self)@[line as int].skip(col as int)),
    {
        let tail = self.lines[line].split_off(col);
        proof {
            lemma_view_update(old(self).lines@, line as int, self.lines@[line as int]);
        }
        let ghost mid = self.lines@;
        let n = self.lines.len();
        assert(line < n);
        self.lines.insert(line + 1, tail);
        proof {
            lemma_view_insert(mid, line as int + 1, tail);
            assert(lines_view(mid)
                =~= lines_view(old(self).lines@).update(line as int, old(self)@[line as int].take(col as int)));
        }
    }

    /// Remove line `line` and append its full content to the end of
    /// line `line - 1`.
    pub fn join_with_previous(&mut self, line: usize)
        requires
            1 <= line < old(self)@.len(),
        ensures
            final(self)@ == old(self)@.remove(line as int).update(
                line as int - 1,
                old(self)@[line as int - 1] + old(self)@[line as int],
            ),
    {
        let mut cur = self.lines.remove(line);
        proof {
            lemma_view_remove(old(self).lines@, line as int);
        }
        let ghost mid = self.lines@;
        self.lines[line - 1].append(&mut cur);
        proof {
            lemma_view_update(mid, line as int - 1, self.lines@[line as int - 1]);
            assert(lines_view(mid) =~= lines_view(old(self).lines@).remove(line as int));
        }
    }
}

} // verus!
