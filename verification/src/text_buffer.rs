//! The text that the editor holds, and the cursor at its end.

use vstd::prelude::*;
use vstd::std_specs::iter::IteratorSpec;

verus! {

broadcast use vstd::string::group_string_axioms;

/// The text that a new buffer holds.
pub const GREETING: &'static str = "Beans on Toast";

/// A position in a text: a line, counted from zero, and the number of
/// characters before the position on that line.
#[derive(Clone, Copy, Debug, PartialEq, Eq, Structural)]
pub struct Cursor {
    pub line: usize,
    pub index: usize,
}

/// The characters that end a line.
pub open spec fn is_line_break(c: char) -> bool {
    c == '\n' || c == '\r'
}

/// The lines of a text: what stands between its line breaks. A text with
/// `n` line breaks has `n + 1` lines, some of which may be empty.
pub open spec fn lines_of(text: Seq<char>) -> Seq<Seq<char>>
    decreases text.len(),
{
    if text.len() == 0 {
        seq![Seq::<char>::empty()]
    } else {
        let before = lines_of(text.drop_last());
        if is_line_break(text.last()) {
            before.push(Seq::<char>::empty())
        } else {
            before.update(before.len() - 1, before.last().push(text.last()))
        }
    }
}

/// Whether `cursor` stands at the end of `text`: on its last line, behind
/// the last character of that line.
pub open spec fn at_end(cursor: Cursor, text: Seq<char>) -> bool {
    cursor.line == lines_of(text).len() - 1 && cursor.index == lines_of(text).last().len()
}

/// A text has at least one line, at most one line more than it has
/// characters, and no line is longer than the text.
pub proof fn lemma_lines_bounds(text: Seq<char>)
    ensures
        1 <= lines_of(text).len() <= text.len() + 1,
        lines_of(text).last().len() <= text.len(),
        lines_of(text).len() + lines_of(text).last().len() <= text.len() + 1,
    decreases text.len(),
{
    if text.len() > 0 {
        lemma_lines_bounds(text.drop_last());
    }
}

/// No line holds a line break.
pub proof fn lemma_lines_hold_no_break(text: Seq<char>, line: int, index: int)
    requires
        0 <= line < lines_of(text).len(),
        0 <= index < lines_of(text)[line].len(),
    ensures
        !is_line_break(lines_of(text)[line][index]),
    decreases text.len(),
{
    lemma_lines_bounds(text);
    if text.len() > 0 {
        let before = lines_of(text.drop_last());
        lemma_lines_bounds(text.drop_last());
        if is_line_break(text.last()) {
            if line < before.len() {
                lemma_lines_hold_no_break(text.drop_last(), line, index);
            }
        } else {
            if line < before.len() - 1 {
                lemma_lines_hold_no_break(text.drop_last(), line, index);
            } else if index < before.last().len() {
                lemma_lines_hold_no_break(text.drop_last(), line, index);
            }
        }
    }
}

/// An editable text. Text is only ever added at its end, where the cursor
/// stands.
pub struct TextBuffer {
    text: Vec<char>,
    cursor: Cursor,
}

impl View for TextBuffer {
    type V = Seq<char>;

    closed spec fn view(&self) -> Seq<char> {
        self.text@
    }
}

impl TextBuffer {
    /// The cursor stands at the end of the text.
    pub closed spec fn wf(&self) -> bool {
        at_end(self.cursor, self.text@)
    }

    /// Where the cursor stands.
    pub closed spec fn cursor_of(&self) -> Cursor {
        self.cursor
    }

    /// In a well-formed buffer the cursor names the last line and the length
    /// of that line, so it always points into the text.
    pub proof fn lemma_cursor_is_valid(&self)
        requires
            self.wf(),
        ensures
            at_end(self.cursor_of(), self@),
            0 <= self.cursor_of().line < lines_of(self@).len(),
            0 <= self.cursor_of().index <= lines_of(self@)[self.cursor_of().line as int].len(),
    {
        lemma_lines_bounds(self.text@);
    }

    /// An empty buffer: one empty line.
    pub fn empty() -> (buffer: TextBuffer)
        ensures
            buffer.wf(),
            buffer@ == Seq::<char>::empty(),
    {
        TextBuffer { text: Vec::new(), cursor: Cursor { line: 0, index: 0 } }
    }

    /// A buffer that holds the greeting.
    pub fn new() -> (buffer: TextBuffer)
        ensures
            buffer.wf(),
            buffer@ == GREETING@,
    {
        let mut buffer = TextBuffer::empty();
        buffer.insert_string(GREETING);
        assert(Seq::<char>::empty() + GREETING@ =~= GREETING@);
        buffer
    }

    /// Adds one character at the end.
    pub fn push(&mut self, c: char)
        requires
            old(self).wf(),
        ensures
            final(self).wf(),
            final(self)@ == old(self)@.push(c),
    {
        proof {
            lemma_lines_bounds(self.text@);
            assert(self.text@.push(c).drop_last() =~= self.text@);
        }
        self.text.push(c);
        proof {
            lemma_lines_bounds(self.text@);
            assert(self.text@.len() == self.text.len());
        }
        if c == '\n' || c == '\r' {
            self.cursor = Cursor { line: self.cursor.line + 1, index: 0 };
        } else {
            self.cursor = Cursor { line: self.cursor.line, index: self.cursor.index + 1 };
        }
    }

    /// Adds `data` at the end of the text and moves the cursor behind it.
    pub fn insert_string(&mut self, data: &str)
        requires
            old(self).wf(),
        ensures
            final(self).wf(),
            final(self)@ == old(self)@ + data@,
    {
        let mut rest = data.chars();
        let ghost mut taken: Seq<char> = Seq::empty();
        assert(self@ + taken =~= self@);
        loop
            invariant
                self.wf(),
                self@ == old(self)@ + taken,
                taken + rest.remaining() == data@,
                rest.obeys_prophetic_iter_laws(),
                rest.decrease() is Some,
            ensures
                self.wf(),
                self@ == old(self)@ + data@,
            decreases rest.decrease()->0,
        {
            let ghost before = rest;
            match rest.next() {
                Some(c) => {
                    self.push(c);
                    proof {
                        assert(before.remaining() =~= seq![c] + rest.remaining());
                        assert(old(self)@ + taken.push(c) =~= (old(self)@ + taken).push(c));
                        assert(taken.push(c) + rest.remaining() =~= taken + before.remaining());
                        taken = taken.push(c);
                    }
                },
                None => {
                    proof {
                        assert(taken =~= taken + before.remaining());
                    }
                    break ;
                },
            }
        }
    }

    /// The whole text, line breaks included.
    pub fn text(&self) -> (text: &Vec<char>)
        ensures
            text@ == self@,
    {
        &self.text
    }

    /// The number of characters in the text.
    pub fn len(&self) -> (n: usize)
        ensures
            n == self@.len(),
    {
        self.text.len()
    }

    /// The position of the cursor: the end of the text.
    pub fn cursor(&self) -> (cursor: Cursor)
        requires
            self.wf(),
        ensures
            cursor == self.cursor_of(),
            at_end(cursor, self@),
    {
        self.cursor
    }

    /// The lines of the text, without their line breaks.
    pub fn lines(&self) -> (lines: Vec<Vec<char>>)
        ensures
            lines@.len() == lines_of(self@).len(),
            forall|i: int| 0 <= i < lines@.len() ==> (#[trigger] lines@[i])@ == lines_of(self@)[i],
    {
        let mut done: Vec<Vec<char>> = Vec::new();
        let mut current: Vec<char> = Vec::new();
        let mut i: usize = 0;
        assert(self.text@.take(0) =~= Seq::<char>::empty());
        while i < self.text.len()
            invariant
                i <= self.text@.len(),
                lines_of(self.text@.take(i as int)).len() == done@.len() + 1,
                lines_of(self.text@.take(i as int)).last() == current@,
                forall|k: int|
                    0 <= k < done@.len() ==> (#[trigger] done@[k])@ == lines_of(
                        self.text@.take(i as int),
                    )[k],
            decreases self.text@.len() - i,
        {
            let c = self.text[i];
            proof {
                let before = self.text@.take(i as int);
                let after = self.text@.take(i + 1);
                assert(after.drop_last() =~= before);
                assert(after.last() == c);
            }
            if c == '\n' || c == '\r' {
                done.push(current);
                current = Vec::new();
            } else {
                current.push(c);
            }
            i += 1;
        }
        assert(self.text@.take(i as int) =~= self.text@);
        done.push(current);
        done
    }

    /// The index of the last line, which is the line of the cursor.
    pub fn last_line(&self) -> (line: usize)
        requires
            self.wf(),
        ensures
            line == lines_of(self@).len() - 1,
    {
        self.cursor.line
    }
}

} // verus!
