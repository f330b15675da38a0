use vstd::prelude::*;
use vstd::string::*;

use crate::casing::{snake_case, snakify_camel_ident};

verus! {

/// What a `Buf` holds, as mathematical values.
pub struct BufModel {
    /// The text written so far.
    pub text: Seq<char>,
    /// One space is owed before the next character.
    pub pending: bool,
    /// Nothing but indentation may still be written on the current line.
    pub bol: bool,
    /// Identifiers are converted to snake case as they are written.
    pub snakify: bool,
}

/// `b` holds the text of `a` and maybe more after it: writing only appends.
pub open spec fn grows(a: BufModel, b: BufModel) -> bool {
    a.text.len() <= b.text.len() && forall|k: int| 0 <= k < a.text.len() ==> #[trigger] b.text[k] == a.text[k]
}

pub open spec fn spaces_seq(n: nat) -> Seq<char> {
    Seq::new(n, |i: int| ' ')
}

pub open spec fn pending_seq(m: BufModel) -> Seq<char> {
    if m.pending { seq![' '] } else { Seq::empty() }
}

pub open spec fn m_push_str(m: BufModel, s: Seq<char>) -> BufModel {
    if s.len() == 0 {
        m
    } else {
        BufModel { text: m.text + pending_seq(m) + s, pending: false, bol: false, ..m }
    }
}

pub open spec fn m_push(m: BufModel, c: char) -> BufModel {
    m_push_str(m, seq![c])
}

pub open spec fn m_indent(m: BufModel, n: nat) -> BufModel {
    if m.bol {
        BufModel { text: m.text + spaces_seq(n), bol: false, ..m }
    } else {
        m
    }
}

pub open spec fn m_space(m: BufModel) -> BufModel {
    BufModel { pending: true, ..m }
}

pub open spec fn m_newline(m: BufModel) -> BufModel {
    BufModel { text: m.text.push('\n'), pending: false, bol: true, ..m }
}

pub open spec fn ends_with_newline(t: Seq<char>) -> bool {
    t.len() == 0 || t.last() == '\n'
}

pub open spec fn m_ensure_newline(m: BufModel) -> BufModel {
    if ends_with_newline(m.text) {
        m
    } else {
        m_newline(m)
    }
}

pub open spec fn m_ensure_whitespace(m: BufModel) -> BufModel {
    if m.text.len() > 0 && !m.pending && m.text.last() != ' ' && m.text.last() != '\n' {
        m_space(m)
    } else {
        m
    }
}

/// An identifier as it is written: in snake case when the buffer asks for it.
pub open spec fn ident_text(m: BufModel, s: Seq<char>) -> Seq<char> {
    if m.snakify { snake_case(s) } else { s }
}

pub open spec fn m_ident(m: BufModel, s: Seq<char>) -> BufModel {
    m_push_str(m, ident_text(m, s))
}

/// The output of a rendering: text that only grows, with the layout state that
/// decides where the next token goes.
pub struct Buf {
    text: Vec<char>,
    pending: bool,
    bol: bool,
    snakify: bool,
}

impl View for Buf {
    type V = BufModel;

    closed spec fn view(&self) -> BufModel {
        BufModel { text: self.text@, pending: self.pending, bol: self.bol, snakify: self.snakify }
    }
}

impl Buf {
    /// An empty buffer at the start of a line.
    pub fn new(snakify: bool) -> (r: Buf)
        ensures
            r@ == (BufModel { text: Seq::empty(), pending: false, bol: true, snakify }),
    {
        Buf { text: Vec::new(), pending: false, bol: true, snakify }
    }

    pub fn snakify(&self) -> (r: bool)
        ensures
            r == self@.snakify,
    {
        self.snakify
    }

    /// The text written so far.
    pub fn text(&self) -> (r: Vec<char>)
        ensures
            r@ == self@.text,
    {
        self.text.clone()
    }

    pub fn push(&mut self, c: char)
        ensures
            grows(old(self)@, final(self)@),
            final(self)@ == m_push(old(self)@, c),
    {
        let ghost m0 = self@;
        if self.pending {
            self.text.push(' ');
        }
        self.text.push(c);
        self.pending = false;
        self.bol = false;
        assert(self@.text =~= m_push(m0, c).text);
    }

    pub fn push_chars(&mut self, s: &Vec<char>)
        ensures
            grows(old(self)@, final(self)@),
            final(self)@ == m_push_str(old(self)@, s@),
    {
        let ghost m0 = self@;
        if s.len() == 0 {
            return;
        }
        if self.pending {
            self.text.push(' ');
        }
        let ghost t0 = self.text@;
        let mut i: usize = 0;
        while i < s.len()
            invariant
                i <= s@.len(),
                self.text@ == t0 + s@.subrange(0, i as int),
                t0 == m0.text + pending_seq(m0),
                self.snakify == m0.snakify,
            decreases s@.len() - i,
        {
            self.text.push(s[i]);
            proof {
                assert(s@.subrange(0, i as int + 1) =~= s@.subrange(0, i as int).push(s@[i as int]));
            }
            i = i + 1;
        }
        assert(s@.subrange(0, i as int) =~= s@);
        self.pending = false;
        self.bol = false;
        assert(self@.text =~= m_push_str(m0, s@).text);
    }

    pub fn push_str(&mut self, s: &str)
        ensures
            grows(old(self)@, final(self)@),
            final(self)@ == m_push_str(old(self)@, s@),
    {
        let ghost m0 = self@;
        let n = s.unicode_len();
        if n == 0 {
            return;
        }
        if self.pending {
            self.text.push(' ');
        }
        let ghost t0 = self.text@;
        let mut i: usize = 0;
        while i < n
            invariant
                n == s@.len(),
                i <= n,
                self.text@ == t0 + s@.subrange(0, i as int),
                t0 == m0.text + pending_seq(m0),
                self.snakify == m0.snakify,
            decreases n - i,
        {
            let c = s.get_char(i);
            self.text.push(c);
            proof {
                assert(s@.subrange(0, i as int + 1) =~= s@.subrange(0, i as int).push(c));
            }
            i = i + 1;
        }
        assert(s@.subrange(0, i as int) =~= s@);
        self.pending = false;
        self.bol = false;
        assert(self@.text =~= m_push_str(m0, s@).text);
    }

    /// Writes an identifier, in snake case when the buffer asks for it.
    pub fn push_ident(&mut self, s: &Vec<char>)
        ensures
            grows(old(self)@, final(self)@),
            final(self)@ == m_ident(old(self)@, s@),
    {
        if self.snakify {
            let t = snakify_camel_ident(s);
            self.push_chars(&t);
        } else {
            self.push_chars(s);
        }
    }

    /// Writes `n` columns of indentation, if nothing else is on the line yet.
    pub fn indent(&mut self, n: usize)
        ensures
            grows(old(self)@, final(self)@),
            final(self)@ == m_indent(old(self)@, n as nat),
    {
        if self.bol {
            let ghost t0 = self.text@;
            let mut i: usize = 0;
            while i < n
                invariant
                    i <= n,
                    self.text@ == t0 + spaces_seq(i as nat),
                    self.pending == old(self).pending,
                    self.snakify == old(self).snakify,
                    self.bol,
                decreases n - i,
            {
                self.text.push(' ');
                proof {
                    assert(spaces_seq(i as nat + 1) =~= spaces_seq(i as nat).push(' '));
                }
                i = i + 1;
            }
            self.bol = false;
            assert(self@.text =~= m_indent(old(self)@, n as nat).text);
        }
    }

    /// Asks for one space before the next character.
    pub fn spaces(&mut self)
        ensures
            grows(old(self)@, final(self)@),
            final(self)@ == m_space(old(self)@),
    {
        self.pending = true;
    }

    pub fn newline(&mut self)
        ensures
            grows(old(self)@, final(self)@),
            final(self)@ == m_newline(old(self)@),
    {
        self.text.push('\n');
        self.pending = false;
        self.bol = true;
    }

    pub fn ensure_ends_with_newline(&mut self)
        ensures
            grows(old(self)@, final(self)@),
            final(self)@ == m_ensure_newline(old(self)@),
    {
        let n = self.text.len();
        if n > 0 && self.text[n - 1] != '\n' {
            self.newline();
        }
    }

    pub fn ensure_ends_with_whitespace(&mut self)
        ensures
            grows(old(self)@, final(self)@),
            final(self)@ == m_ensure_whitespace(old(self)@),
    {
        let n = self.text.len();
        if n > 0 && !self.pending && self.text[n - 1] != ' ' && self.text[n - 1] != '\n' {
            self.pending = true;
        }
    }
}

} // verus!
