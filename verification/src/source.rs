//! Positions and spans into a source text.
//!
//! A [`Position`] is a borrowed handle into an input text together with an
//! offset into its character sequence; it resolves to a 1-based line and
//! column and to the text of its line. A [`Span`] is an ordered pair of such
//! offsets into one text. Neither ever copies the input.

use vstd::prelude::*;
use vstd::string::*;

verus! {

/// Index of the first character of the line containing offset `p` of `s`:
/// one past the last newline strictly before `p`, or `0` when there is none.
pub open spec fn line_start_of(s: Seq<char>, p: int) -> int
    decreases p,
{
    if p <= 0 {
        0
    } else if s[p - 1] == '\n' {
        p
    } else {
        line_start_of(s, p - 1)
    }
}

/// Index one past the last character of the line containing offset `p` of
/// `s`: the first newline at or after `p`, or the length of `s`.
pub open spec fn line_end_of(s: Seq<char>, p: int) -> int
    decreases s.len() - p,
{
    if p < 0 || p >= s.len() {
        s.len() as int
    } else if s[p] == '\n' {
        p
    } else {
        line_end_of(s, p + 1)
    }
}

/// 1-based line number of offset `p` of `s`: one more than the number of
/// newlines strictly before `p`.
pub open spec fn line_number_of(s: Seq<char>, p: int) -> int
    decreases p,
{
    if p <= 0 {
        1
    } else if s[p - 1] == '\n' {
        line_number_of(s, p - 1) + 1
    } else {
        line_number_of(s, p - 1)
    }
}

/// 1-based column of offset `p` of `s`: distance to the start of its line,
/// plus one.
pub open spec fn column_of(s: Seq<char>, p: int) -> int {
    p - line_start_of(s, p) + 1
}

/// The text of the line containing offset `p` of `s`, without its
/// terminating newline.
pub open spec fn line_text_of(s: Seq<char>, p: int) -> Seq<char> {
    s.subrange(line_start_of(s, p), line_end_of(s, p))
}

proof fn lemma_line_start_bounds(s: Seq<char>, p: int)
    requires
        0 <= p,
    ensures
        0 <= line_start_of(s, p) <= p,
    decreases p,
{
    if p > 0 && s[p - 1] != '\n' {
        lemma_line_start_bounds(s, p - 1);
    }
}

proof fn lemma_line_end_bounds(s: Seq<char>, p: int)
    requires
        0 <= p <= s.len(),
    ensures
        p <= line_end_of(s, p) <= s.len(),
    decreases s.len() - p,
{
    if p < s.len() && s[p] != '\n' {
        lemma_line_end_bounds(s, p + 1);
    }
}

proof fn lemma_line_number_bounds(s: Seq<char>, p: int)
    requires
        0 <= p,
    ensures
        1 <= line_number_of(s, p) <= p + 1,
    decreases p,
{
    if p > 0 {
        lemma_line_number_bounds(s, p - 1);
    }
}

proof fn lemma_no_newline_before(s: Seq<char>, p: int)
    requires
        0 <= p,
    ensures
        forall|j: int| line_start_of(s, p) <= j < p ==> s[j] != '\n',
    decreases p,
{
    if p > 0 && s[p - 1] != '\n' {
        lemma_no_newline_before(s, p - 1);
    }
}

proof fn lemma_no_newline_after(s: Seq<char>, p: int)
    requires
        0 <= p <= s.len(),
    ensures
        forall|j: int| p <= j < line_end_of(s, p) ==> s[j] != '\n',
    decreases s.len() - p,
{
    if p < s.len() && s[p] != '\n' {
        lemma_no_newline_after(s, p + 1);
    }
}

/// A location in an input text: the borrowed text and an offset into its
/// character sequence, at a character or one past the last.
#[derive(Clone, Copy, Debug, PartialEq, Eq, Hash)]
pub struct Position<'i> {
    input: &'i str,
    pos: usize,
}

/// An ordered pair of offsets into one input text, `start <= end`.
#[derive(Clone, Copy, Debug, PartialEq, Eq, Hash)]
pub struct Span<'i> {
    input: &'i str,
    start: usize,
    end: usize,
}

impl<'i> Position<'i> {
    #[verifier::type_invariant]
    spec fn wf(self) -> bool {
        self.pos <= self.input@.len() < usize::MAX
    }

    /// The characters of the input text.
    pub closed spec fn text(self) -> Seq<char> {
        self.input@
    }

    /// The offset into the character sequence.
    pub closed spec fn offset(self) -> nat {
        self.pos as nat
    }

    /// The position at offset `pos` of `input`, or `None` when `pos` lies
    /// beyond the end of the text (or the text is too large to index).
    pub fn new(input: &'i str, pos: usize) -> (r: Option<Position<'i>>)
        ensures
            match r {
                Some(p) => p.text() == input@ && p.offset() == pos as nat,
                None => !(pos as nat <= input@.len() && input@.len() < usize::MAX),
            },
    {
        let n = input.unicode_len();
        if pos <= n && n < usize::MAX {
            Some(Position { input, pos })
        } else {
            None
        }
    }

    /// The offset, as a count of characters from the start of the text.
    pub fn pos(&self) -> (r: usize)
        ensures
            r as nat == self.offset(),
            self.offset() <= self.text().len(),
    {
        proof {
            use_type_invariant(self);
        }
        self.pos
    }

    /// The 1-based line and column of this position. The column points into
    /// the text of the position's line, or just past its end.
    pub fn line_col(&self) -> (r: (usize, usize))
        ensures
            r.0 as int == line_number_of(self.text(), self.offset() as int),
            r.1 as int == column_of(self.text(), self.offset() as int),
            r.0 >= 1,
            r.1 >= 1,
            r.1 - 1 <= line_text_of(self.text(), self.offset() as int).len(),
    {
        proof {
            use_type_invariant(self);
        }
        let inp: &'i str = self.input;
        let mut line: usize = 1;
        let mut col: usize = 1;
        let mut i: usize = 0;
        while i < self.pos
            invariant
                i <= self.pos,
                self.wf(),
                inp == self.input,
                line as int == line_number_of(inp@, i as int),
                col as int == column_of(inp@, i as int),
                line <= i + 1,
                col <= i + 1,
            decreases self.pos - i,
        {
            proof {
                lemma_line_start_bounds(inp@, i as int);
            }
            if inp.get_char(i) == '\n' {
                line = line + 1;
                col = 1;
            } else {
                col = col + 1;
            }
            i = i + 1;
        }
        proof {
            lemma_line_number_bounds(inp@, self.pos as int);
            lemma_line_start_bounds(inp@, self.pos as int);
            lemma_line_end_bounds(inp@, self.pos as int);
        }
        (line, col)
    }

    /// The text of the line containing this position, without its
    /// terminating newline; it holds no newline character at all.
    pub fn line_of(&self) -> (r: &'i str)
        ensures
            r@ == line_text_of(self.text(), self.offset() as int),
            forall|i: int| 0 <= i < r@.len() ==> r@[i] != '\n',
    {
        proof {
            use_type_invariant(self);
        }
        let inp: &'i str = self.input;
        let n = inp.unicode_len();
        let mut start: usize = 0;
        let mut i: usize = 0;
        while i < self.pos
            invariant
                i <= self.pos,
                self.wf(),
                inp == self.input,
                start as int == line_start_of(inp@, i as int),
            decreases self.pos - i,
        {
            if inp.get_char(i) == '\n' {
                start = i + 1;
            }
            i = i + 1;
        }
        let mut end: usize = self.pos;
        while end < n && inp.get_char(end) != '\n'
            invariant
                self.pos <= end <= n,
                self.wf(),
                inp == self.input,
                n == inp@.len(),
                line_end_of(inp@, end as int) == line_end_of(inp@, self.pos as int),
            decreases n - end,
        {
            end = end + 1;
        }
        proof {
            lemma_line_start_bounds(inp@, self.pos as int);
            lemma_line_end_bounds(inp@, self.pos as int);
            lemma_no_newline_before(inp@, self.pos as int);
            lemma_no_newline_after(inp@, self.pos as int);
        }
        inp.substring_char(start, end)
    }
}

impl<'i> Span<'i> {
    #[verifier::type_invariant]
    spec fn wf(self) -> bool {
        self.start <= self.end <= self.input@.len() < usize::MAX
    }

    /// The characters of the input text.
    pub closed spec fn text(self) -> Seq<char> {
        self.input@
    }

    /// The starting offset.
    pub closed spec fn spec_start(self) -> nat {
        self.start as nat
    }

    /// The ending offset.
    pub closed spec fn spec_end(self) -> nat {
        self.end as nat
    }

    /// The width of the span, in characters.
    pub open spec fn width(self) -> int {
        self.spec_end() - self.spec_start()
    }

    /// The span from offset `start` to offset `end` of `input`, or `None`
    /// when the offsets are out of order or lie beyond the end of the text
    /// (or the text is too large to index).
    pub fn new(input: &'i str, start: usize, end: usize) -> (r: Option<Span<'i>>)
        ensures
            match r {
                Some(sp) => sp.text() == input@ && sp.spec_start() == start as nat && sp.spec_end()
                    == end as nat,
                None => !(start <= end && end as nat <= input@.len() && input@.len() < usize::MAX),
            },
    {
        let n = input.unicode_len();
        if start <= end && end <= n && n < usize::MAX {
            Some(Span { input, start, end })
        } else {
            None
        }
    }

    /// The starting offset.
    pub fn start(&self) -> (r: usize)
        ensures
            r as nat == self.spec_start(),
            self.spec_start() <= self.spec_end() <= self.text().len(),
    {
        proof {
            use_type_invariant(self);
        }
        self.start
    }

    /// The ending offset.
    pub fn end(&self) -> (r: usize)
        ensures
            r as nat == self.spec_end(),
            self.spec_start() <= self.spec_end() <= self.text().len(),
    {
        proof {
            use_type_invariant(self);
        }
        self.end
    }

    /// The position of the span's start boundary.
    pub fn start_position(&self) -> (p: Position<'i>)
        ensures
            p.text() == self.text(),
            p.offset() == self.spec_start(),
    {
        proof {
            use_type_invariant(self);
        }
        Position { input: self.input, pos: self.start }
    }

    /// The position of the span's end boundary.
    pub fn end_position(&self) -> (p: Position<'i>)
        ensures
            p.text() == self.text(),
            p.offset() == self.spec_end(),
    {
        proof {
            use_type_invariant(self);
        }
        Position { input: self.input, pos: self.end }
    }

    /// The span's two boundary positions.
    pub fn split(self) -> (r: (Position<'i>, Position<'i>))
        ensures
            r.0.text() == self.text(),
            r.0.offset() == self.spec_start(),
            r.1.text() == self.text(),
            r.1.offset() == self.spec_end(),
    {
        (self.start_position(), self.end_position())
    }
}

} // verus!
