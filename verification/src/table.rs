//! Column layout for the tables the commands print.
//!
//! A cell written with `{:<w}` or `{:>w}` is padded with spaces to `w`
//! characters; a longer cell is written whole.
use vstd::prelude::*;
use vstd::string::*;
use crate::text::{chars_of, push_char};

verus! {

/// `n` spaces.
pub open spec fn spaces(n: nat) -> Seq<char> {
    Seq::new(n, |i: int| ' ')
}

/// `s` padded on the right with spaces to `w` characters (`{:<w}`).
pub open spec fn pad_right(s: Seq<char>, w: nat) -> Seq<char> {
    if s.len() < w { s + spaces((w - s.len()) as nat) } else { s }
}

/// `s` padded on the left with spaces to `w` characters (`{:>w}`).
pub open spec fn pad_left(s: Seq<char>, w: nat) -> Seq<char> {
    if s.len() < w { spaces((w - s.len()) as nat) + s } else { s }
}

fn push_spaces(out: &mut String, n: usize)
    ensures
        final(out)@ == old(out)@ + spaces(n as nat),
{
    let mut i: usize = 0;
    while i < n
        invariant
            i <= n,
            out@ == old(out)@ + spaces(i as nat),
        decreases n - i,
    {
        push_char(out, ' ');
        i = i + 1;
        assert(spaces(i as nat) == spaces((i - 1) as nat).push(' '));
    }
}

/// Appends `s` padded on the right to `w` characters.
pub fn push_padded_right(out: &mut String, s: &str, w: usize)
    ensures
        final(out)@ == old(out)@ + pad_right(s@, w as nat),
{
    let n = chars_of(s).len();
    out.append(s);
    if n < w {
        push_spaces(out, w - n);
        assert(old(out)@ + s@ + spaces((w - n) as nat) == old(out)@ + (s@ + spaces((w - n) as nat)));
    }
}

/// Appends `s` padded on the left to `w` characters.
pub fn push_padded_left(out: &mut String, s: &str, w: usize)
    ensures
        final(out)@ == old(out)@ + pad_left(s@, w as nat),
{
    let n = chars_of(s).len();
    if n < w {
        push_spaces(out, w - n);
    }
    out.append(s);
    if n < w {
        assert(old(out)@ + spaces((w - n) as nat) + s@ == old(out)@ + (spaces((w - n) as nat) + s@));
    }
}

} // verus!
