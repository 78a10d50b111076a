//! Shared helpers for command implementations.
use vstd::prelude::*;
use vstd::string::*;
use crate::text::{chars_of, string_of, utf8_len, utf8_width, lemma_encode_utf8_push};

verus! {

/// The ellipsis appended to truncated text.
pub open spec fn ellipsis() -> char {
    '\u{2026}'
}

/// `s` cut to its first `max_len` characters followed by `…`, when it has
/// more than `max_len` characters; else `s` itself.
pub open spec fn truncated(s: Seq<char>, max_len: nat) -> Seq<char> {
    if s.len() <= max_len {
        s
    } else {
        s.take(max_len as int).push(ellipsis())
    }
}

/// Truncates a string to `max_len` characters, appending "…" if truncated.
pub fn truncate(s: &str, max_len: usize) -> (r: String)
    ensures
        r@ == truncated(s@, max_len as nat),
{
    let v = chars_of(s);
    if v.len() <= max_len {
        return s.to_owned();
    }
    let mut out: Vec<char> = Vec::new();
    let mut j: usize = 0;
    while j < max_len
        invariant
            j <= max_len,
            max_len < v.len(),
            v@ == s@,
            out@ == v@.take(j as int),
        decreases max_len - j,
    {
        out.push(v[j]);
        j = j + 1;
        assert(v@.take(j as int) == v@.take(j - 1).push(v@[j - 1]));
    }
    out.push('\u{2026}');
    string_of(&out)
}

/// A prefix never takes more bytes than the whole.
proof fn lemma_prefix_utf8_len(s: Seq<char>, k: int)
    requires
        0 <= k <= s.len(),
    ensures
        utf8_len(s.take(k)) <= utf8_len(s),
    decreases s.len() - k,
{
    if k < s.len() {
        lemma_prefix_utf8_len(s, k + 1);
        lemma_encode_utf8_push(s.take(k), s[k]);
        assert(s.take(k + 1) == s.take(k).push(s[k]));
    } else {
        assert(s.take(k) == s);
    }
}

/// The UTF-8 length of `s` in bytes, or `cap` when it is longer.
pub fn byte_len_capped(s: &str, cap: usize) -> (r: usize)
    ensures
        r == (if utf8_len(s@) < cap { utf8_len(s@) } else { cap as nat }),
{
    let v = chars_of(s);
    let mut bytes: usize = 0;
    let mut i: usize = 0;
    if cap == 0 {
        return 0;
    }
    while i < v.len()
        invariant
            v@ == s@,
            i <= v.len(),
            bytes == utf8_len(v@.take(i as int)),
            bytes < cap,
        decreases v.len() - i,
    {
        let w = utf8_width(v[i]);
        proof {
            lemma_encode_utf8_push(v@.take(i as int), v@[i as int]);
            assert(v@.take(i + 1) == v@.take(i as int).push(v@[i as int]));
        }
        if w >= cap - bytes {
            proof { lemma_prefix_utf8_len(v@, i + 1); }
            return cap;
        }
        bytes = bytes + w;
        i = i + 1;
    }
    assert(v@.take(v@.len() as int) == v@);
    bytes
}

} // verus!
