use vstd::prelude::*;

verus! {

/// A position in a source file, tracking the indentation of the current line.
#[derive(Clone, Copy, Debug, Eq, PartialEq, Ord, PartialOrd)]
pub struct IndentablePosition {
    /// Current line of the input
    pub line: u32,
    /// Current column of the input
    pub column: u32,
    /// Current indentation level, in columns (no indent is column 1)
    pub indent_col: u32,
    /// True at the beginning of each line, until the first non-space character.
    pub is_indenting: bool,
}

/// The position at the very start of a source file.
pub open spec fn start_position() -> IndentablePosition {
    IndentablePosition { line: 1, column: 1, indent_col: 1, is_indenting: true }
}

/// The position after reading one character `c` at position `p`.
pub open spec fn step_position(p: IndentablePosition, c: char) -> IndentablePosition
    recommends
        c == '\n' ==> p.line < u32::MAX,
        c != '\n' ==> p.column < u32::MAX,
{
    if c == '\n' {
        IndentablePosition { line: (p.line + 1) as u32, column: 1, indent_col: 1, is_indenting: true }
    } else if c == ' ' {
        IndentablePosition { column: (p.column + 1) as u32, ..p }
    } else if p.is_indenting {
        IndentablePosition {
            column: (p.column + 1) as u32,
            indent_col: p.column,
            is_indenting: false,
            ..p
        }
    } else {
        IndentablePosition { column: (p.column + 1) as u32, ..p }
    }
}

/// Reading `c` at `p` keeps line and column within `u32`.
pub open spec fn step_fits(p: IndentablePosition, c: char) -> bool {
    (c == '\n' ==> p.line < u32::MAX) && (c != '\n' ==> p.column < u32::MAX)
}

/// Reading `s` from `p` keeps line and column within `u32` at every step.
pub open spec fn fits(p: IndentablePosition, s: Seq<char>) -> bool
    decreases s.len(),
{
    s.len() == 0 || (fits(p, s.drop_last()) && step_fits(position_after(p, s.drop_last()), s.last()))
}

proof fn lemma_fits_prefix(p: IndentablePosition, s: Seq<char>, i: int)
    requires
        fits(p, s),
        0 <= i <= s.len(),
    ensures
        fits(p, s.subrange(0, i)),
    decreases s.len(),
{
    if i < s.len() {
        assert(s.drop_last().subrange(0, i) =~= s.subrange(0, i));
        lemma_fits_prefix(p, s.drop_last(), i);
    } else {
        assert(s.subrange(0, i) =~= s);
    }
}

/// The position after reading every character of `s`, in order, from `p`.
pub open spec fn position_after(p: IndentablePosition, s: Seq<char>) -> IndentablePosition
    decreases s.len(),
{
    if s.len() == 0 {
        p
    } else {
        step_position(position_after(p, s.drop_last()), s.last())
    }
}

impl Default for IndentablePosition {
    fn default() -> (r: Self)
        ensures
            r == start_position(),
    {
        IndentablePosition { line: 1, column: 1, indent_col: 1, is_indenting: true }
    }
}

impl IndentablePosition {
    pub fn new() -> (r: Self)
        ensures
            r == start_position(),
    {
        IndentablePosition { line: 1, column: 1, indent_col: 1, is_indenting: true }
    }

    /// The current position, as a value.
    pub fn position(&self) -> (r: IndentablePosition)
        ensures
            r == *self,
    {
        *self
    }

    /// Advances over one character.
    pub fn update(&mut self, item: char)
        requires
            item == '\n' ==> old(self).line < u32::MAX,
            item != '\n' ==> old(self).column < u32::MAX,
        ensures
            *final(self) == step_position(*old(self), item),
    {
        if item == '\n' {
            self.column = 1;
            self.line = self.line + 1;
            self.indent_col = 1;
            self.is_indenting = true;
        } else if item == ' ' {
            self.column = self.column + 1;
        } else {
            if self.is_indenting {
                // Only a non-space character ends the indentation: until then the
                // line is blank, not indented.
                self.indent_col = self.column;
                self.is_indenting = false;
            }
            self.column = self.column + 1;
        }
    }

    /// Advances over every character of `range`, in order.
    pub fn update_range(&mut self, range: &[char])
        requires
            fits(*old(self), range@),
        ensures
            *final(self) == position_after(*old(self), range@),
    {
        let ghost start = *self;
        let mut i: usize = 0;
        while i < range.len()
            invariant
                i <= range@.len(),
                fits(start, range@),
                *self == position_after(start, range@.subrange(0, i as int)),
            decreases range@.len() - i,
        {
            proof {
                let next = range@.subrange(0, i as int + 1);
                assert(next.drop_last() =~= range@.subrange(0, i as int));
                assert(next.last() == range@[i as int]);
                lemma_fits_prefix(start, range@, i as int + 1);
            }
            self.update(range[i]);
            i = i + 1;
        }
        assert(range@.subrange(0, i as int) =~= range@);
    }
}

} // verus!
