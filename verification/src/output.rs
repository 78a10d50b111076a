//! Date and number formatting used by the table views.
use vstd::prelude::*;
use vstd::string::*;
use vstd::utf8::*;
use vstd::arithmetic::power2::{lemma2_to64, lemma_pow2_pos, lemma_pow2_strictly_increases, lemma_pow2_unfold, pow2};
use crate::text::{chars_of, string_of, push_char};

verus! {

broadcast use vstd::utf8::encode_utf8_decode_utf8, vstd::utf8::encode_utf8_valid_utf8;

// ---------------------------------------------------------------------------
// Dates
// ---------------------------------------------------------------------------

/// The part of an ISO 8601 string that holds the date: its first ten bytes
/// when they end on a character boundary, else the whole string.
pub open spec fn date_part(s: Seq<char>) -> Seq<char> {
    let b = encode_utf8(s);
    if is_char_boundary(b, 10) {
        decode_utf8(b.subrange(0, 10))
    } else {
        s
    }
}

/// The pieces of `s` between occurrences of `sep` (as `str::split` yields
/// them, empty pieces included).
pub open spec fn split_on(s: Seq<char>, sep: char) -> Seq<Seq<char>>
    decreases s.len(),
{
    if s.len() == 0 {
        seq![Seq::<char>::empty()]
    } else {
        let prev = split_on(s.drop_last(), sep);
        if s.last() == sep {
            prev.push(Seq::<char>::empty())
        } else {
            prev.update(prev.len() - 1, prev.last().push(s.last()))
        }
    }
}

/// Whether `c` is an ASCII decimal digit.
pub open spec fn is_digit(c: char) -> bool {
    '0' <= c && c <= '9'
}

/// The numeric value of a digit character.
pub open spec fn digit_value(c: char) -> nat {
    (c as nat - '0' as nat) as nat
}

/// The value of a string of decimal digits.
pub open spec fn digits_value(s: Seq<char>) -> nat
    decreases s.len(),
{
    if s.len() == 0 {
        0
    } else {
        digits_value(s.drop_last()) * 10 + digit_value(s.last())
    }
}

/// The digits that an unsigned integer parse reads: a leading `+` is
/// allowed and skipped.
pub open spec fn unsigned_body(s: Seq<char>) -> Seq<char> {
    if s.len() > 0 && s[0] == '+' {
        s.drop_first()
    } else {
        s
    }
}

/// The month number that `s` denotes when it parses as an unsigned integer
/// (`None` when it does not parse; values too large for `u32` are never a
/// month, so their exact bound does not matter here).
pub open spec fn month_number(s: Seq<char>) -> Option<nat> {
    let d = unsigned_body(s);
    if d.len() > 0 && (forall|i: int| 0 <= i < d.len() ==> is_digit(#[trigger] d[i])) {
        Some(digits_value(d))
    } else {
        None
    }
}

/// The three-letter English abbreviation of month `m` (1 to 12).
pub open spec fn month_abbrev(m: nat) -> Seq<char> {
    if m == 1 { "Jan"@ }
    else if m == 2 { "Feb"@ }
    else if m == 3 { "Mar"@ }
    else if m == 4 { "Apr"@ }
    else if m == 5 { "May"@ }
    else if m == 6 { "Jun"@ }
    else if m == 7 { "Jul"@ }
    else if m == 8 { "Aug"@ }
    else if m == 9 { "Sep"@ }
    else if m == 10 { "Oct"@ }
    else if m == 11 { "Nov"@ }
    else { "Dec"@ }
}

/// `s` without its leading `'0'` characters.
pub open spec fn strip_leading_zeros(s: Seq<char>) -> Seq<char>
    decreases s.len(),
{
    if s.len() > 0 && s[0] == '0' {
        strip_leading_zeros(s.drop_first())
    } else {
        s
    }
}

/// Whether every character of `s` is a decimal digit.
pub open spec fn all_digits(s: Seq<char>) -> bool {
    forall|i: int| 0 <= i < s.len() ==> is_digit(#[trigger] s[i])
}

/// Whether `s` is a year: four decimal digits.
pub open spec fn is_year(s: Seq<char>) -> bool {
    s.len() == 4 && all_digits(s)
}

/// Whether `s` is a day of the month: one or two decimal digits, from 1 to 31.
pub open spec fn is_day(s: Seq<char>) -> bool {
    1 <= s.len() <= 2 && all_digits(s) && 1 <= digits_value(s) <= 31
}

/// Whether `s` is written as a month: one or two decimal digits.
pub open spec fn is_month_text(s: Seq<char>) -> bool {
    1 <= s.len() <= 2 && all_digits(s)
}

/// What `format_date` gives for an input with characters `s`: `Mon D, YYYY`
/// when the date part is `YYYY-MM-DD` (a four-digit year, a month number from
/// 1 to 12, a day from 1 to 31), else `s` unchanged.
pub open spec fn formatted_date(s: Seq<char>) -> Seq<char> {
    let parts = split_on(date_part(s), '-');
    if parts.len() != 3 || !is_year(parts[0]) || !is_month_text(parts[1]) || !is_day(parts[2]) {
        s
    } else {
        match month_number(parts[1]) {
            Some(m) if 1 <= m <= 12 =>
                month_abbrev(m) + " "@ + strip_leading_zeros(parts[2]) + ", "@ + parts[0],
            _ => s,
        }
    }
}

fn digits_only(v: &Vec<char>) -> (b: bool)
    ensures
        b == all_digits(v@),
{
    let mut i: usize = 0;
    while i < v.len()
        invariant
            i <= v@.len(),
            forall|k: int| 0 <= k < i ==> is_digit(#[trigger] v@[k]),
        decreases v.len() - i,
    {
        if v[i] < '0' || v[i] > '9' {
            assert(!is_digit(v@[i as int]));
            return false;
        }
        i = i + 1;
    }
    true
}

fn year_ok(v: &Vec<char>) -> (b: bool)
    ensures
        b == is_year(v@),
{
    v.len() == 4 && digits_only(v)
}

fn day_ok(v: &Vec<char>) -> (b: bool)
    ensures
        b == is_day(v@),
{
    if v.len() < 1 || v.len() > 2 || !digits_only(v) {
        return false;
    }
    let ghost s = v@;
    let first = (v[0] as u32) - ('0' as u32);
    assert(is_digit(s[0]));
    if v.len() == 1 {
        assert(s.drop_last().len() == 0);
        assert(digits_value(s.drop_last()) == 0);
        assert(s.last() == s[0]);
        assert(digits_value(s) == digit_value(s[0]));
        return first >= 1;
    }
    assert(is_digit(s[1]));
    let second = (v[1] as u32) - ('0' as u32);
    assert(s.drop_last() =~= seq![s[0]]);
    let ghost one = seq![s[0]];
    assert(one.drop_last() =~= Seq::<char>::empty());
    assert(digits_value(one.drop_last()) == 0);
    assert(one.last() == s[0]);
    assert(digits_value(one) == digit_value(s[0]));
    assert(digits_value(s) == digit_value(s[0]) * 10 + digit_value(s[1]));
    let value = first * 10 + second;
    1 <= value && value <= 31
}

/// Splits `v` on `sep` (as `str::split` does).
pub fn split_chars(v: &Vec<char>, sep: char) -> (parts: Vec<Vec<char>>)
    ensures
        parts@.len() == split_on(v@, sep).len(),
        forall|i: int| 0 <= i < parts@.len() ==> #[trigger] parts@[i]@ == split_on(v@, sep)[i],
{
    let mut parts: Vec<Vec<char>> = Vec::new();
    let mut cur: Vec<char> = Vec::new();
    let mut i: usize = 0;
    while i < v.len()
        invariant
            i <= v.len(),
            parts@.len() + 1 == split_on(v@.take(i as int), sep).len(),
            forall|j: int| 0 <= j < parts@.len() ==> #[trigger] parts@[j]@ == split_on(v@.take(i as int), sep)[j],
            cur@ == split_on(v@.take(i as int), sep).last(),
        decreases v.len() - i,
    {
        let ghost prev = split_on(v@.take(i as int), sep);
        assert(v@.take(i + 1).drop_last() == v@.take(i as int));
        if v[i] == sep {
            parts.push(cur);
            cur = Vec::new();
        } else {
            cur.push(v[i]);
        }
        i = i + 1;
        proof {
            let now = split_on(v@.take(i as int), sep);
            assert(now.len() == parts@.len() + 1);
            assert forall|j: int| 0 <= j < parts@.len() implies #[trigger] parts@[j]@ == now[j] by {
            }
        }
    }
    assert(v@.take(v@.len() as int) == v@);
    parts.push(cur);
    parts
}

/// Reads the month number in `s`, saturating at 13 (any value above 12).
fn month_of(s: &Vec<char>) -> (r: u32)
    ensures
        match month_number(s@) {
            Some(m) => if m <= 12 { r == m } else { r == 13 },
            None => r == 0,
        },
{
    let mut start: usize = 0;
    if s.len() > 0 && s[0] == '+' {
        start = 1;
    }
    let ghost d = unsigned_body(s@);
    assert(d == s@.skip(start as int));
    if start >= s.len() {
        return 0;
    }
    let mut acc: u32 = 0;
    let mut i: usize = start;
    while i < s.len()
        invariant
            start <= i <= s.len(),
            d == s@.skip(start as int),
            d == unsigned_body(s@),
            d.len() > 0,
            forall|j: int| start <= j < i ==> is_digit(#[trigger] s@[j]),
            acc == if digits_value(d.take(i - start)) <= 12 { digits_value(d.take(i - start)) } else { 13 },
        decreases s.len() - i,
    {
        let c = s[i];
        assert(d[i - start] == c);
        if c < '0' || c > '9' {
            assert(!is_digit(d[i - start]));
            return 0;
        }
        let dv = (c as u32) - ('0' as u32);
        assert(d.take(i - start + 1).drop_last() == d.take(i - start));
        if acc <= 12 {
            acc = acc * 10 + dv;
            if acc > 12 {
                acc = 13;
            }
        }
        i = i + 1;
    }
    assert(d.take(d.len() as int) == d);
    assert forall|k: int| 0 <= k < d.len() implies is_digit(#[trigger] d[k]) by {
        assert(s@[k + start] == d[k]);
    }
    acc
}

/// `v` without its leading zeros.
fn strip_zeros(v: &Vec<char>) -> (r: Vec<char>)
    ensures
        r@ == strip_leading_zeros(v@),
{
    let mut i: usize = 0;
    assert(v@.skip(0) == v@);
    while i < v.len() && v[i] == '0'
        invariant
            i <= v.len(),
            strip_leading_zeros(v@) == strip_leading_zeros(v@.skip(i as int)),
        decreases v.len() - i,
    {
        assert(v@.skip(i as int).drop_first() == v@.skip(i + 1));
        i = i + 1;
    }
    let mut r: Vec<char> = Vec::new();
    let mut j: usize = i;
    while j < v.len()
        invariant
            i <= j <= v.len(),
            r@ == v@.subrange(i as int, j as int),
        decreases v.len() - j,
    {
        r.push(v[j]);
        j = j + 1;
    }
    assert(r@ == v@.skip(i as int));
    r
}

fn month_abbrev_str(m: u32) -> (r: &'static str)
    requires
        1 <= m <= 12,
    ensures
        r@ == month_abbrev(m as nat),
{
    if m == 1 { "Jan" }
    else if m == 2 { "Feb" }
    else if m == 3 { "Mar" }
    else if m == 4 { "Apr" }
    else if m == 5 { "May" }
    else if m == 6 { "Jun" }
    else if m == 7 { "Jul" }
    else if m == 8 { "Aug" }
    else if m == 9 { "Sep" }
    else if m == 10 { "Oct" }
    else if m == 11 { "Nov" }
    else { "Dec" }
}

fn append_chars(s: &mut String, v: &Vec<char>)
    ensures
        final(s)@ == old(s)@ + v@,
{
    let mut i: usize = 0;
    while i < v.len()
        invariant
            i <= v.len(),
            s@ == old(s)@ + v@.take(i as int),
        decreases v.len() - i,
    {
        push_char(s, v[i]);
        i = i + 1;
        assert(v@.take(i as int) == v@.take(i - 1).push(v@[i - 1]));
    }
    assert(v@.take(v@.len() as int) == v@);
}

/// Format an ISO 8601 date string (`2024-01-15T10:30:00Z`) as `Jan 15, 2024`.
///
/// If the input cannot be read as a date, it is returned unchanged.
pub fn format_date(iso_date: &str) -> (r: String)
    ensures
        r@ == formatted_date(iso_date@),
{
    let date_str: &str = if iso_date.is_char_boundary(10) {
        let (head, _tail) = iso_date.split_at(10);
        assert(head@ == decode_utf8(encode_utf8(head@)));
        head
    } else {
        iso_date
    };
    assert(date_str@ == date_part(iso_date@));
    let chars = chars_of(date_str);
    let parts = split_chars(&chars, '-');
    if parts.len() != 3 || !year_ok(&parts[0]) || parts[1].len() < 1 || parts[1].len() > 2 || !digits_only(&parts[1])
        || !day_ok(&parts[2]) {
        return iso_date.to_owned();
    }
    let month = month_of(&parts[1]);
    if month < 1 || month > 12 {
        return iso_date.to_owned();
    }
    let day = strip_zeros(&parts[2]);
    let mut out = month_abbrev_str(month).to_owned();
    out.append(" ");
    append_chars(&mut out, &day);
    out.append(", ");
    append_chars(&mut out, &parts[0]);
    out
}

// ---------------------------------------------------------------------------
// Counts
// ---------------------------------------------------------------------------

/// The character of decimal digit `d` (0 to 9).
pub open spec fn digit_char(d: nat) -> char {
    ((d + 48) as u32) as char
}

/// The decimal representation of `n`, without leading zeros.
pub open spec fn decimal(n: nat) -> Seq<char>
    decreases n,
{
    if n < 10 {
        seq![digit_char(n)]
    } else {
        decimal(n / 10).push(digit_char(n % 10))
    }
}

/// `digits` with a comma before every group of three digits counted from
/// the right (`1234567` becomes `1,234,567`).
pub open spec fn group_thousands(digits: Seq<char>) -> Seq<char>
    decreases digits.len(),
{
    if digits.len() <= 3 {
        digits
    } else {
        group_thousands(digits.take(digits.len() - 3)) + seq![','] + digits.skip(digits.len() - 3)
    }
}

/// Grouping puts a comma before every group of three digits counted from
/// the right and nowhere else: counting from the last character, exactly
/// every fourth one is a comma, and one comma is added per full group
/// beyond the first.
pub proof fn law_commas_between_groups_of_three(digits: Seq<char>)
    requires
        digits.len() > 0,
        forall|i: int| 0 <= i < digits.len() ==> digits[i] != ',',
    ensures
        group_thousands(digits).len() == digits.len() + (digits.len() - 1) / 3,
        forall|k: int| 0 <= k < group_thousands(digits).len() ==>
            (#[trigger] group_thousands(digits)[group_thousands(digits).len() - 1 - k] == ',') == (k % 4 == 3),
    decreases digits.len(),
{
    let g = group_thousands(digits);
    if digits.len() > 3 {
        let head = digits.take(digits.len() - 3);
        let tail = digits.skip(digits.len() - 3);
        assert forall|i: int| 0 <= i < head.len() implies head[i] != ',' by {
            assert(head[i] == digits[i]);
        }
        law_commas_between_groups_of_three(head);
        let h = group_thousands(head);
        assert(g == h + seq![','] + tail);
        assert forall|k: int| 0 <= k < g.len() implies
            (#[trigger] g[g.len() - 1 - k] == ',') == (k % 4 == 3) by {
            if k < 3 {
                assert(g[g.len() - 1 - k] == tail[2 - k]);
                assert(tail[2 - k] == digits[digits.len() - 1 - k]);
            } else if k == 3 {
                assert(g[g.len() - 1 - k] == ',');
            } else {
                assert(g[g.len() - 1 - k] == h[h.len() - 1 - (k - 4)]);
                assert((k - 4) % 4 == k % 4);
            }
        }
    } else {
        assert forall|k: int| 0 <= k < g.len() implies
            (#[trigger] g[g.len() - 1 - k] == ',') == (k % 4 == 3) by {
            assert(g[g.len() - 1 - k] == digits[digits.len() - 1 - k]);
        }
    }
}

/// On a date part that is `YYYY-MM-DD` (four year digits, a month from 1
/// to 12 and a day from 1 to 31, written with two digits each), the date
/// reads `Mon D, YYYY`, with the day's leading zero dropped.
pub proof fn law_well_formed_date(s: Seq<char>, year: Seq<char>, month: Seq<char>, day: Seq<char>)
    requires
        split_on(date_part(s), '-') == seq![year, month, day],
        is_year(year),
        month.len() == 2 && all_digits(month),
        1 <= digits_value(month) <= 12,
        is_day(day),
    ensures
        formatted_date(s) == month_abbrev(digits_value(month)) + " "@ + strip_leading_zeros(day) + ", "@ + year,
{
    assert(unsigned_body(month) == month);
}

fn decimal_digits(n: u64) -> (v: Vec<char>)
    ensures
        v@ == decimal(n as nat),
    decreases n,
{
    let d = ((n % 10) as u32 + 48) as u8;
    let c = d as char;
    proof {
        assert(c == digit_char((n % 10) as nat));
    }
    if n < 10 {
        let mut v: Vec<char> = Vec::new();
        v.push(c);
        v
    } else {
        let mut v = decimal_digits(n / 10);
        v.push(c);
        v
    }
}

fn grouped(digits: &Vec<char>, end: usize) -> (r: Vec<char>)
    requires
        end <= digits@.len(),
    ensures
        r@ == group_thousands(digits@.take(end as int)),
    decreases end,
{
    if end <= 3 {
        let mut r: Vec<char> = Vec::new();
        let mut i: usize = 0;
        while i < end
            invariant
                i <= end <= digits@.len(),
                r@ == digits@.take(i as int),
            decreases end - i,
        {
            r.push(digits[i]);
            i = i + 1;
            assert(digits@.take(i as int) == digits@.take(i - 1).push(digits@[i - 1]));
        }
        r
    } else {
        let mut r = grouped(digits, end - 3);
        r.push(',');
        r.push(digits[end - 3]);
        r.push(digits[end - 2]);
        r.push(digits[end - 1]);
        proof {
            let t = digits@.take(end as int);
            assert(t.take(t.len() - 3) == digits@.take(end - 3));
            assert(t.skip(t.len() - 3) == seq![digits@[end - 3], digits@[end - 2], digits@[end - 1]]);
        }
        r
    }
}

/// The decimal representation of `n`, as `n.to_string()` gives it.
pub fn decimal_string(n: u64) -> (r: String)
    ensures
        r@ == decimal(n as nat),
{
    let digits = decimal_digits(n);
    string_of(&digits)
}

/// Format a number with comma separators for thousands (`1234` is `1,234`).
pub fn format_count(n: u64) -> (r: String)
    ensures
        r@ == group_thousands(decimal(n as nat)),
{
    let digits = decimal_digits(n);
    let g = grouped(&digits, digits.len());
    assert(digits@.take(digits@.len() as int) == digits@);
    string_of(&g)
}

/// The value that `str::parse::<u64>` reads from `s`: an optional `+`,
/// then one or more decimal digits, within `u64`.
pub open spec fn parsed_u64(s: Seq<char>) -> Option<u64> {
    let d = unsigned_body(s);
    if d.len() > 0 && (forall|i: int| 0 <= i < d.len() ==> is_digit(#[trigger] d[i])) && digits_value(d) <= u64::MAX {
        Some(digits_value(d) as u64)
    } else {
        None
    }
}

proof fn lemma_digits_prefix(d: Seq<char>, k: int)
    requires
        0 <= k <= d.len(),
    ensures
        digits_value(d.take(k)) <= digits_value(d),
    decreases d.len() - k,
{
    if k < d.len() {
        lemma_digits_prefix(d, k + 1);
        assert(d.take(k + 1).drop_last() == d.take(k));
    } else {
        assert(d.take(k) == d);
    }
}

/// Reads an unsigned integer as `str::parse::<u64>` does.
pub fn parse_u64(s: &str) -> (r: Option<u64>)
    ensures
        r == parsed_u64(s@),
{
    let v = chars_of(s);
    let mut start: usize = 0;
    if v.len() > 0 && v[0] == '+' {
        start = 1;
    }
    let ghost d = unsigned_body(s@);
    assert(d == v@.skip(start as int));
    if start >= v.len() {
        return None;
    }
    let mut acc: u64 = 0;
    let mut i: usize = start;
    while i < v.len()
        invariant
            v@ == s@,
            start <= i <= v.len(),
            d == v@.skip(start as int),
            d == unsigned_body(s@),
            d.len() > 0,
            forall|j: int| start <= j < i ==> is_digit(#[trigger] v@[j]),
            acc == digits_value(d.take(i - start)),
        decreases v.len() - i,
    {
        let c = v[i];
        assert(d[i - start] == c);
        assert(d.take(i - start + 1).drop_last() == d.take(i - start));
        if c < '0' || c > '9' {
            assert(!is_digit(d[i - start]));
            return None;
        }
        let dv = (c as u64) - ('0' as u64);
        if acc > (u64::MAX - dv) / 10 {
            proof {
                assert(acc * 10 + dv > u64::MAX) by (nonlinear_arith)
                    requires acc > (u64::MAX - dv) / 10, dv <= 9;
                lemma_digits_prefix(d, i - start + 1);
                assert(digits_value(d.take(i - start + 1)) == acc * 10 + dv);
            }
            return None;
        }
        assert(acc * 10 + dv <= u64::MAX) by (nonlinear_arith)
            requires acc <= (u64::MAX - dv) / 10, dv <= 9;
        acc = acc * 10 + dv;
        i = i + 1;
    }
    assert(d.take(d.len() as int) == d);
    assert forall|k: int| 0 <= k < d.len() implies is_digit(#[trigger] d[k]) by {
        assert(v@[k + start] == d[k]);
    }
    Some(acc)
}

// ---------------------------------------------------------------------------
// Sizes
// ---------------------------------------------------------------------------

/// The number of binary digits of `n` (0 for 0).
pub open spec fn bit_length(n: nat) -> nat
    decreases n,
{
    if n == 0 { 0 } else { 1 + bit_length(n / 2) }
}

/// The value that `n` takes as a double: `n` itself when it has at most 53
/// binary digits, else `n` rounded to its 53 leading binary digits, ties to
/// the even neighbour.
pub open spec fn double_of(n: nat) -> nat {
    let len = bit_length(n);
    if len <= 53 {
        n
    } else {
        let d = pow2((len - 53) as nat);
        let q = n / d;
        let r = n % d;
        (if r * 2 > d || (r * 2 == d && q % 2 == 1) { q + 1 } else { q }) * d
    }
}

/// `f / d` in tenths, rounded to the nearest tenth, ties to an even number
/// of tenths.
pub open spec fn rounded_tenths(f: nat, d: nat) -> nat {
    let t = f * 10 / d;
    let r = f * 10 % d;
    if r * 2 > d || (r * 2 == d && t % 2 == 1) { t + 1 } else { t }
}

/// A byte count as people read it: `N B` below 1024 bytes; else the count
/// taken as a double, in KB, MB or GB (the largest unit it reaches, GB at
/// most), with one decimal.
pub open spec fn human_size(bytes: u64) -> Seq<char> {
    if bytes < 1024 {
        decimal(bytes as nat) + " B"@
    } else {
        let f = double_of(bytes as nat);
        let (d, unit) = if f < 1048576 {
            (1024nat, "KB"@)
        } else if f < 1073741824 {
            (1048576nat, "MB"@)
        } else {
            (1073741824nat, "GB"@)
        };
        let t = rounded_tenths(f, d);
        decimal(t / 10) + "."@ + decimal(t % 10) + " "@ + unit
    }
}

proof fn lemma_bit_length_bound(n: nat, k: nat)
    requires
        n < pow2(k),
    ensures
        bit_length(n) <= k,
    decreases k,
{
    if n > 0 {
        if k == 0 {
            lemma2_to64();
        } else {
            lemma_pow2_unfold(k);
            lemma_bit_length_bound(n / 2, (k - 1) as nat);
        }
    }
}

/// [`double_of`] of a `u64`.
fn nearest_double(n: u64) -> (f: u128)
    ensures
        f == double_of(n as nat),
        f <= n + 2048,
{
    proof {
        lemma2_to64();
        lemma_bit_length_bound(n as nat, 64);
    }
    let mut x: u64 = n;
    let mut len: u64 = 0;
    while x > 0
        invariant
            len + bit_length(x as nat) == bit_length(n as nat),
            bit_length(n as nat) <= 64,
        decreases x,
    {
        x = x / 2;
        len = len + 1;
    }
    if len <= 53 {
        return n as u128;
    }
    let s: u64 = len - 53;
    let mut d: u128 = 1;
    let mut i: u64 = 0;
    proof {
        lemma2_to64();
    }
    while i < s
        invariant
            i <= s,
            s <= 11,
            d == pow2(i as nat),
            pow2(11) == 2048,
        decreases s - i,
    {
        proof {
            lemma_pow2_unfold((i + 1) as nat);
            if i + 1 < 11 {
                lemma_pow2_strictly_increases((i + 1) as nat, 11);
            }
        }
        d = d * 2;
        i = i + 1;
    }
    proof {
        lemma_pow2_pos(s as nat);
        if s < 11 {
            lemma_pow2_strictly_increases(s as nat, 11);
        }
    }
    let m: u128 = n as u128;
    let q: u128 = m / d;
    let r: u128 = m % d;
    proof {
        vstd::arithmetic::div_mod::lemma_fundamental_div_mod(m as int, d as int);
        vstd::arithmetic::div_mod::lemma_mod_bound(m as int, d as int);
        assert(q * d <= m) by (nonlinear_arith)
            requires
                m == d * q + r,
                r >= 0;
    }
    let q2: u128 = if r * 2 > d || (r * 2 == d && q % 2 == 1) { q + 1 } else { q };
    assert(q2 * d <= m + d) by (nonlinear_arith)
        requires
            q2 <= q + 1,
            q * d <= m,
            d >= 1;
    q2 * d
}

/// Writes a byte count as people read it (see [`human_size`]).
pub fn format_size(bytes: u64) -> (r: String)
    ensures
        r@ == human_size(bytes),
{
    if bytes < 1024 {
        let mut s = decimal_string(bytes);
        s.append(" B");
        return s;
    }
    let f = nearest_double(bytes);
    let (d, unit): (u128, &str) = if f < 1048576 {
        (1024, "KB")
    } else if f < 1073741824 {
        (1048576, "MB")
    } else {
        (1073741824, "GB")
    };
    let t0: u128 = f * 10 / d;
    let r: u128 = f * 10 % d;
    proof {
        vstd::arithmetic::div_mod::lemma_div_is_ordered_by_denominator((f * 10) as int, 1024, d as int);
        vstd::arithmetic::div_mod::lemma_div_is_ordered((f * 10) as int, (0x1_0000_0000_0000_0000int + 2048) * 10, 1024);
    }
    let t: u128 = if r * 2 > d || (r * 2 == d && t0 % 2 == 1) { t0 + 1 } else { t0 };
    let whole: u64 = (t / 10) as u64;
    let tenth: u64 = (t % 10) as u64;
    let mut s = decimal_string(whole);
    s.append(".");
    s.append(decimal_string(tenth).as_str());
    s.append(" ");
    s.append(unit);
    s
}

} // verus!
