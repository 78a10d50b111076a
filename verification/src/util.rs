//! Percent-encoding of label names and form values.
use vstd::prelude::*;
use vstd::string::*;
use vstd::utf8::*;
use crate::text::{chars_of, string_of, push_char};

verus! {

/// How a label name's character appears in an API path: `#`, space, `?`
/// and `&` are percent-encoded, every other character is kept.
pub open spec fn label_char_encoded(c: char) -> Seq<char> {
    if c == '#' {
        "%23"@
    } else if c == ' ' {
        "%20"@
    } else if c == '?' {
        "%3F"@
    } else if c == '&' {
        "%26"@
    } else {
        seq![c]
    }
}

/// A label name with each character encoded by [`label_char_encoded`].
pub open spec fn label_encoded(s: Seq<char>) -> Seq<char>
    decreases s.len(),
{
    if s.len() == 0 {
        Seq::<char>::empty()
    } else {
        label_encoded(s.drop_last()) + label_char_encoded(s.last())
    }
}

/// The value of a hexadecimal digit.
pub open spec fn hex_value(c: char) -> Option<nat> {
    if '0' <= c && c <= '9' {
        Some((c as nat - '0' as nat) as nat)
    } else if 'A' <= c && c <= 'F' {
        Some((c as nat - 'A' as nat + 10) as nat)
    } else if 'a' <= c && c <= 'f' {
        Some((c as nat - 'a' as nat + 10) as nat)
    } else {
        None
    }
}

/// `t` with each `%XX` (two hexadecimal digits naming an ASCII character)
/// replaced by that character; everything else is kept.
pub open spec fn percent_decoded(t: Seq<char>) -> Seq<char>
    decreases t.len(),
{
    if t.len() == 0 {
        Seq::<char>::empty()
    } else if t.len() >= 3 && t[0] == '%' && hex_value(t[1]) is Some && hex_value(t[2]) is Some
        && hex_value(t[1])->0 * 16 + hex_value(t[2])->0 < 128 {
        seq![((hex_value(t[1])->0 * 16 + hex_value(t[2])->0) as u32) as char] + percent_decoded(t.skip(3))
    } else {
        seq![t[0]] + percent_decoded(t.skip(1))
    }
}

proof fn lemma_label_encoded_front(s: Seq<char>)
    requires
        s.len() > 0,
    ensures
        label_encoded(s) == label_char_encoded(s[0]) + label_encoded(s.drop_first()),
    decreases s.len(),
{
    if s.len() == 1 {
        assert(s.drop_last() =~= Seq::<char>::empty());
        assert(s.drop_first() =~= Seq::<char>::empty());
        assert(label_encoded(s.drop_first()) == Seq::<char>::empty());
        assert(label_char_encoded(s[0]) + Seq::<char>::empty() =~= label_char_encoded(s[0]));
    } else {
        lemma_label_encoded_front(s.drop_last());
        assert(s.drop_last().drop_first() =~= s.drop_first().drop_last());
        assert(s.drop_first().last() == s.last());
        assert(s.drop_last()[0] == s[0]);
        assert(label_encoded(s.drop_first()) == label_encoded(s.drop_first().drop_last()) + label_char_encoded(s.drop_first().last()));
        assert((label_char_encoded(s[0]) + label_encoded(s.drop_last().drop_first())) + label_char_encoded(s.last())
            =~= label_char_encoded(s[0]) + (label_encoded(s.drop_first().drop_last()) + label_char_encoded(s.last())));
    }
}

proof fn lemma_decode_piece(c: char, rest: Seq<char>)
    requires
        c != '%',
    ensures
        percent_decoded(label_char_encoded(c) + rest) == seq![c] + percent_decoded(rest),
{
    reveal_strlit("%23");
    reveal_strlit("%20");
    reveal_strlit("%3F");
    reveal_strlit("%26");
    let t = label_char_encoded(c) + rest;
    if c == '#' || c == ' ' || c == '?' || c == '&' {
        assert(t.skip(3) =~= rest);
        assert(t[0] == '%');
    } else {
        assert(t[0] == c);
        assert(t.skip(1) =~= rest);
    }
}

/// Encoding a label name that holds no `%` leaves none of `#`, space, `?`
/// and `&` in it, and percent-decoding the result gives the name back.
pub proof fn law_label_encoding_decodes_back(s: Seq<char>)
    requires
        forall|i: int| 0 <= i < s.len() ==> s[i] != '%',
    ensures
        forall|i: int| 0 <= i < label_encoded(s).len() ==> {
            let c = #[trigger] label_encoded(s)[i];
            c != '#' && c != ' ' && c != '?' && c != '&'
        },
        percent_decoded(label_encoded(s)) == s,
    decreases s.len(),
{
    reveal_strlit("%23");
    reveal_strlit("%20");
    reveal_strlit("%3F");
    reveal_strlit("%26");
    if s.len() == 0 {
        assert(label_encoded(s) == Seq::<char>::empty());
    } else {
        let r = s.drop_first();
        assert forall|i: int| 0 <= i < r.len() implies r[i] != '%' by {
            assert(r[i] == s[i + 1]);
        }
        law_label_encoding_decodes_back(r);
        lemma_label_encoded_front(s);
        lemma_decode_piece(s[0], label_encoded(r));
        assert(seq![s[0]] + r =~= s);
        let p = label_char_encoded(s[0]);
        assert forall|i: int| 0 <= i < label_encoded(s).len() implies {
            let c = #[trigger] label_encoded(s)[i];
            c != '#' && c != ' ' && c != '?' && c != '&'
        } by {
            if i >= p.len() {
                assert(label_encoded(s)[i] == label_encoded(r)[i - p.len()]);
            }
        }
    }
}

/// Appends the characters of `t` to `out`.
pub fn push_all(out: &mut Vec<char>, t: &str)
    ensures
        final(out)@ == old(out)@ + t@,
{
    let v = chars_of(t);
    let mut i: usize = 0;
    while i < v.len()
        invariant
            v@ == t@,
            i <= v.len(),
            out@ == old(out)@ + v@.take(i as int),
        decreases v.len() - i,
    {
        out.push(v[i]);
        i = i + 1;
        assert(v@.take(i as int) == v@.take(i - 1).push(v@[i - 1]));
    }
    assert(v@.take(v@.len() as int) == v@);
}

/// URL-encode a label name for use in API paths.
///
/// GitHub API paths can contain special characters in label names that must
/// be percent-encoded: `#`, space, `?` and `&`.
pub fn urlencode_label_name(s: &str) -> (r: String)
    ensures
        r@ == label_encoded(s@),
{
    let v = chars_of(s);
    let mut out: Vec<char> = Vec::new();
    let mut i: usize = 0;
    while i < v.len()
        invariant
            v@ == s@,
            i <= v.len(),
            out@ == label_encoded(v@.take(i as int)),
        decreases v.len() - i,
    {
        let c = v[i];
        if c == '#' {
            push_all(&mut out, "%23");
        } else if c == ' ' {
            push_all(&mut out, "%20");
        } else if c == '?' {
            push_all(&mut out, "%3F");
        } else if c == '&' {
            push_all(&mut out, "%26");
        } else {
            out.push(c);
        }
        assert(v@.take(i + 1).drop_last() == v@.take(i as int));
        i = i + 1;
    }
    assert(v@.take(v@.len() as int) == v@);
    string_of(&out)
}

/// Whether byte `b` is kept as it is in form encoding: ASCII letters,
/// digits, `-`, `_`, `.` and `~`.
pub open spec fn is_unreserved(b: u8) -> bool {
    (65 <= b <= 90) || (97 <= b <= 122) || (48 <= b <= 57) || b == 45 || b == 95 || b == 46 || b == 126
}

/// The upper-case hexadecimal digit for `d` (0 to 15).
pub open spec fn hex_digit(d: nat) -> char {
    if d < 10 { ((d + 48) as u32) as char } else { ((d + 55) as u32) as char }
}

/// How one byte appears in form encoding: itself when unreserved, `+` for a
/// space, else `%` and two upper-case hex digits.
pub open spec fn form_byte(b: u8) -> Seq<char> {
    if is_unreserved(b) {
        seq![(b as u32) as char]
    } else if b == 32 {
        seq!['+']
    } else {
        seq!['%', hex_digit((b / 16) as nat), hex_digit((b % 16) as nat)]
    }
}

/// The form encoding of a byte string.
pub open spec fn form_encoded(bytes: Seq<u8>) -> Seq<char>
    decreases bytes.len(),
{
    if bytes.len() == 0 {
        Seq::<char>::empty()
    } else {
        form_encoded(bytes.drop_last()) + form_byte(bytes.last())
    }
}

fn hex_char(d: u8) -> (c: char)
    requires
        d < 16,
    ensures
        c == hex_digit(d as nat),
{
    if d < 10 {
        (d + 48) as char
    } else {
        (d + 55) as char
    }
}

/// Form-encodes the UTF-8 bytes of `s` (see [`form_encoded`]).
pub fn form_urlencode(s: &str) -> (r: String)
    ensures
        r@ == form_encoded(encode_utf8(s@)),
{
    let bytes = s.as_bytes();
    let mut out: Vec<char> = Vec::new();
    let mut i: usize = 0;
    while i < bytes.len()
        invariant
            bytes@ == encode_utf8(s@),
            i <= bytes@.len(),
            out@ == form_encoded(bytes@.take(i as int)),
        decreases bytes@.len() - i,
    {
        let b = bytes[i];
        if (b >= 65 && b <= 90) || (b >= 97 && b <= 122) || (b >= 48 && b <= 57) || b == 45 || b == 95
            || b == 46 || b == 126 {
            out.push(b as char);
        } else if b == 32 {
            out.push('+');
        } else {
            out.push('%');
            out.push(hex_char(b / 16));
            out.push(hex_char(b % 16));
        }
        assert(bytes@.take(i + 1).drop_last() == bytes@.take(i as int));
        i = i + 1;
    }
    assert(bytes@.take(bytes@.len() as int) == bytes@);
    string_of(&out)
}

} // verus!
