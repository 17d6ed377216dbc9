//! The character source: source text read one character at a time, with the
//! line and column of the current position.

use vstd::prelude::*;

verus! {

/// The text and how much of it has been consumed.
pub struct SourceView {
    pub text: Seq<char>,
    pub pos: int,
}

/// The line of index `p` in `t`, counting from 1.
pub open spec fn line_at(t: Seq<char>, p: int) -> int
    decreases p,
{
    if p <= 0 {
        1
    } else if t[p - 1] == '\n' {
        line_at(t, p - 1) + 1
    } else {
        line_at(t, p - 1)
    }
}

/// The column of index `p` in `t`, counting from 0.
pub open spec fn column_at(t: Seq<char>, p: int) -> int
    decreases p,
{
    if p <= 0 {
        0
    } else if t[p - 1] == '\n' {
        0
    } else {
        column_at(t, p - 1) + 1
    }
}

proof fn lemma_position_bounds(t: Seq<char>, p: int)
    requires
        0 <= p,
    ensures
        1 <= line_at(t, p) <= p + 1,
        0 <= column_at(t, p) <= p,
    decreases p,
{
    if p > 0 {
        lemma_position_bounds(t, p - 1);
    }
}

/// A fatal diagnostic: a message and the position where it was raised.
#[derive(Debug, PartialEq, Eq)]
pub struct Diagnostic {
    pub message: String,
    pub line: usize,
    pub column: usize,
}

/// Source text, consumed one character at a time.
pub struct InputStream {
    chars: Vec<char>,
    pos: usize,
    line: usize,
    col: usize,
}

impl View for InputStream {
    type V = SourceView;

    closed spec fn view(&self) -> SourceView {
        SourceView { text: self.chars@, pos: self.pos as int }
    }
}

impl InputStream {
    pub closed spec fn wf(&self) -> bool {
        &&& self.pos <= self.chars@.len() < usize::MAX
        &&& self.line == line_at(self.chars@, self.pos as int)
        &&& self.col == column_at(self.chars@, self.pos as int)
    }

    pub proof fn lemma_wf(&self)
        requires
            self.wf(),
        ensures
            0 <= self@.pos <= self@.text.len() < usize::MAX,
    {
    }

    /// A stream at the start of `text`.
    pub fn new(text: &str) -> (r: InputStream)
        requires
            text@.len() < usize::MAX,
        ensures
            r.wf(),
            r@.text == text@,
            r@.pos == 0,
    {
        let mut chars: Vec<char> = Vec::new();
        for c in it: text.chars()
            invariant
                chars@ == it.seq().take(it.index() as int),
        {
            chars.push(c);
        }
        assert(chars@ =~= text@);
        InputStream { chars, pos: 0, line: 1, col: 0 }
    }

    /// The next character, without consuming it.
    pub fn peek(&self) -> (r: Option<char>)
        requires
            self.wf(),
        ensures
            r == (if self@.pos < self@.text.len() {
                Some(self@.text[self@.pos])
            } else {
                None
            }),
    {
        if self.pos < self.chars.len() {
            Some(self.chars[self.pos])
        } else {
            None
        }
    }

    /// Consumes and returns the next character.
    pub fn next(&mut self) -> (r: Option<char>)
        requires
            old(self).wf(),
        ensures
            final(self).wf(),
            final(self)@.text == old(self)@.text,
            r == (if old(self)@.pos < old(self)@.text.len() {
                Some(old(self)@.text[old(self)@.pos])
            } else {
                None
            }),
            final(self)@.pos == (if old(self)@.pos < old(self)@.text.len() {
                old(self)@.pos + 1
            } else {
                old(self)@.pos
            }),
    {
        if self.pos < self.chars.len() {
            let c = self.chars[self.pos];
            proof {
                lemma_position_bounds(self.chars@, self.pos as int);
            }
            self.pos = self.pos + 1;
            if c == '\n' {
                self.line = self.line + 1;
                self.col = 0;
            } else {
                self.col = self.col + 1;
            }
            Some(c)
        } else {
            None
        }
    }

    /// Whether the whole text has been consumed.
    pub fn eof(&self) -> (r: bool)
        requires
            self.wf(),
        ensures
            r == (self@.pos >= self@.text.len()),
    {
        self.pos >= self.chars.len()
    }

    /// A diagnostic that carries `msg` and the current line and column.
    pub fn croak(&self, msg: String) -> (r: Diagnostic)
        requires
            self.wf(),
        ensures
            r.message == msg,
            r.line == line_at(self@.text, self@.pos),
            r.column == column_at(self@.text, self@.pos),
    {
        Diagnostic { message: msg, line: self.line, column: self.col }
    }
}

} // verus!
