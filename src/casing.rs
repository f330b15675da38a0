use vstd::prelude::*;

verus! {

pub open spec fn is_upper(c: char) -> bool {
    'A' <= c && c <= 'Z'
}

pub open spec fn to_lower(c: char) -> char {
    if is_upper(c) { (((c as u32) + 32) as u8) as char } else { c }
}

/// What the character `c` becomes in snake case; `first` says whether it opens
/// the identifier.
pub open spec fn snake_piece(c: char, first: bool) -> Seq<char> {
    if is_upper(c) && !first {
        seq!['_', to_lower(c)]
    } else {
        seq![to_lower(c)]
    }
}

/// Camel case to snake case: every upper-case letter becomes lower case, and
/// one that does not open the identifier gets an underscore before it.
pub open spec fn snake_case(s: Seq<char>) -> Seq<char>
    decreases s.len(),
{
    if s.len() == 0 {
        Seq::empty()
    } else {
        snake_case(s.drop_last()) + snake_piece(s.last(), s.len() == 1)
    }
}

fn lower_char(c: char) -> (r: char)
    ensures
        r == to_lower(c),
{
    if 'A' <= c && c <= 'Z' {
        let code = (c as u32) + 32;
        (code as u8) as char
    } else {
        c
    }
}

pub fn snakify_camel_ident(s: &Vec<char>) -> (r: Vec<char>)
    ensures
        r@ == snake_case(s@),
{
    let mut out: Vec<char> = Vec::new();
    let mut i: usize = 0;
    while i < s.len()
        invariant
            i <= s@.len(),
            out@ == snake_case(s@.subrange(0, i as int)),
        decreases s@.len() - i,
    {
        let c = s[i];
        if 'A' <= c && c <= 'Z' && i > 0 {
            out.push('_');
        }
        out.push(lower_char(c));
        proof {
            let next = s@.subrange(0, i as int + 1);
            assert(next.drop_last() =~= s@.subrange(0, i as int));
            assert(next.last() == c);
            assert(out@ =~= snake_case(s@.subrange(0, i as int)) + snake_piece(c, i == 0));
        }
        i = i + 1;
    }
    assert(s@.subrange(0, i as int) =~= s@);
    out
}

} // verus!
