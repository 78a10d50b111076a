//! The `gor api` subcommand: arbitrary REST API calls.
//!
//! Builds the request body from the command's fields, turns pagination
//! links into API paths, and decides what is printed.
use vstd::prelude::*;
use vstd::string::*;
use vstd::utf8::*;
use crate::cli::ApiCommand;
use crate::output::split_on;
use crate::text::{chars_of, string_of, find_in, find_first, join_with, join_strings, starts_with, trimmed, trim_chars};
use crate::output::split_chars;
use crate::util::{form_encoded, form_urlencode};
use crate::cmd::flow::{lines_of, one_line, push_line};
use crate::json::Json;
use crate::output::{decimal, decimal_string};
use crate::request::is_success;
use crate::text::{to_uppercase, uppercased};

verus! {

broadcast use vstd::utf8::encode_utf8_decode_utf8;

/// Simple URL-encoding for form field values: unreserved ASCII stays, a
/// space becomes `+`, every other byte becomes `%XX`.
pub fn urlencode(s: &str) -> (r: String)
    ensures
        r@ == form_encoded(encode_utf8(s@)),
{
    form_urlencode(s)
}

/// A `--field` entry as it appears in the body: key and value URL-encoded,
/// split at the first `=`; an entry without `=` is an empty-valued key.
pub open spec fn encoded_field(f: Seq<char>) -> Seq<char> {
    match find_first(f, "="@) {
        Some(i) => form_encoded(encode_utf8(f.take(i))) + "="@ + form_encoded(encode_utf8(f.skip(i + 1))),
        None => form_encoded(encode_utf8(f)) + "="@,
    }
}

/// A `--raw-field` entry as it appears in the body: unchanged when it holds
/// `=`, else followed by `=`.
pub open spec fn raw_field(f: Seq<char>) -> Seq<char> {
    match find_first(f, "="@) {
        Some(i) => f.take(i) + "="@ + f.skip(i + 1),
        None => f + "="@,
    }
}

/// The body text of `--field` entries: each encoded, joined by `&`.
pub open spec fn encoded_fields_body(fields: Seq<String>) -> Seq<char> {
    join_with(fields.map_values(|f: String| encoded_field(f@)), "&"@)
}

/// The body text of `--raw-field` entries, joined by `&`.
pub open spec fn raw_fields_body(fields: Seq<String>) -> Seq<char> {
    join_with(fields.map_values(|f: String| raw_field(f@)), "&"@)
}

/// The request body that `gor api` sends: when `--input` was given, the
/// contents the caller read from it (`input`); else the encoded `--field`s,
/// else the raw `--raw-field`s, else none.
pub open spec fn request_body(cmd: ApiCommand, input: Option<Seq<u8>>) -> Option<Seq<u8>> {
    if cmd.input is Some {
        input
    } else if cmd.fields.len() > 0 {
        Some(encode_utf8(encoded_fields_body(cmd.fields@)))
    } else if cmd.raw_fields.len() > 0 {
        Some(encode_utf8(raw_fields_body(cmd.raw_fields@)))
    } else {
        None
    }
}

/// The characters before and after the first `=` of `f`, if it has one.
fn split_at_equals(f: &String) -> (r: Option<(String, String)>)
    ensures
        match r {
            Some((k, v)) => find_first(f@, "="@) matches Some(i) && k@ == f@.take(i) && v@ == f@.skip(i + 1),
            None => find_first(f@, "="@) is None,
        },
{
    let chars = chars_of(f.as_str());
    let eq = chars_of("=");
    proof { reveal_strlit("="); }
    match find_in(&chars, &eq) {
        Some(i) => {
            let n = chars.len();
            assert(i < n);
            let mut k: Vec<char> = Vec::new();
            let mut j: usize = 0;
            while j < i
                invariant
                    j <= i < chars@.len(),
                    k@ == chars@.take(j as int),
                decreases i - j,
            {
                k.push(chars[j]);
                j = j + 1;
                assert(chars@.take(j as int) == chars@.take(j - 1).push(chars@[j - 1]));
            }
            let mut v: Vec<char> = Vec::new();
            assert(i < n);
            let mut j: usize = i + 1;
            while j < chars.len()
                invariant
                    i + 1 <= j <= chars@.len(),
                    v@ == chars@.subrange(i + 1, j as int),
                decreases chars.len() - j,
            {
                v.push(chars[j]);
                j = j + 1;
            }
            assert(v@ == chars@.skip(i + 1));
            Some((string_of(&k), string_of(&v)))
        },
        None => None,
    }
}

/// Copies the UTF-8 bytes of `s`.
fn bytes_of(s: &String) -> (r: Vec<u8>)
    ensures
        r@ == encode_utf8(s@),
{
    let b = s.as_str().as_bytes();
    let mut out: Vec<u8> = Vec::new();
    let mut i: usize = 0;
    while i < b.len()
        invariant
            i <= b@.len(),
            out@ == b@.take(i as int),
        decreases b@.len() - i,
    {
        out.push(b[i]);
        i = i + 1;
        assert(b@.take(i as int) == b@.take(i - 1).push(b@[i - 1]));
    }
    assert(b@.take(b@.len() as int) == b@);
    out
}

/// Build the request body.
///
/// Priority: `--input` (whose contents the caller has read and passes as
/// `input`) > `--field` > `--raw-field`.
pub fn build_body(cmd: &ApiCommand, input: Option<Vec<u8>>) -> (r: Option<Vec<u8>>)
    ensures
        match r {
            Some(b) => request_body(*cmd, match input { Some(d) => Some(d@), None => None }) == Some(b@),
            None => request_body(*cmd, match input { Some(d) => Some(d@), None => None }) is None,
        },
{
    if cmd.input.is_some() {
        return input;
    }
    if cmd.fields.len() > 0 {
        let ghost rendered = cmd.fields@.map_values(|f: String| encoded_field(f@));
        let mut parts: Vec<String> = Vec::new();
        let mut i: usize = 0;
        while i < cmd.fields.len()
            invariant
                i <= cmd.fields@.len(),
                rendered == cmd.fields@.map_values(|f: String| encoded_field(f@)),
                parts@.len() == i,
                forall|j: int| 0 <= j < i ==> #[trigger] parts@[j]@ == rendered[j],
            decreases cmd.fields.len() - i,
        {
            let f = &cmd.fields[i];
            let part = match split_at_equals(f) {
                Some((k, v)) => {
                    let mut p = urlencode(k.as_str());
                    p.append("=");
                    let ev = urlencode(v.as_str());
                    p.append(ev.as_str());
                    p
                },
                None => {
                    let mut p = urlencode(f.as_str());
                    p.append("=");
                    p
                },
            };
            parts.push(part);
            i = i + 1;
        }
        let body = join_strings(&parts, "&");
        assert(parts@.map_values(|p: String| p@) =~= rendered);
        return Some(bytes_of(&body));
    }
    if cmd.raw_fields.len() > 0 {
        let ghost rendered = cmd.raw_fields@.map_values(|f: String| raw_field(f@));
        let mut parts: Vec<String> = Vec::new();
        let mut i: usize = 0;
        while i < cmd.raw_fields.len()
            invariant
                i <= cmd.raw_fields@.len(),
                rendered == cmd.raw_fields@.map_values(|f: String| raw_field(f@)),
                parts@.len() == i,
                forall|j: int| 0 <= j < i ==> #[trigger] parts@[j]@ == rendered[j],
            decreases cmd.raw_fields.len() - i,
        {
            let f = &cmd.raw_fields[i];
            let part = match split_at_equals(f) {
                Some((k, v)) => {
                    let mut p = k;
                    p.append("=");
                    p.append(v.as_str());
                    p
                },
                None => {
                    let mut p = f.clone();
                    p.append("=");
                    p
                },
            };
            parts.push(part);
            i = i + 1;
        }
        let body = join_strings(&parts, "&");
        assert(parts@.map_values(|p: String| p@) =~= rendered);
        return Some(bytes_of(&body));
    }
    None
}

/// `v[from..to]` as a new vector.
fn slice_chars(v: &Vec<char>, from: usize, to: usize) -> (r: Vec<char>)
    requires
        from <= to <= v@.len(),
    ensures
        r@ == v@.subrange(from as int, to as int),
{
    let mut r: Vec<char> = Vec::new();
    let mut j: usize = from;
    while j < to
        invariant
            from <= j <= to <= v@.len(),
            r@ == v@.subrange(from as int, j as int),
        decreases to - j,
    {
        r.push(v[j]);
        j = j + 1;
    }
    r
}

/// Whether `v` starts with `p`.
fn has_prefix(v: &Vec<char>, p: &Vec<char>) -> (b: bool)
    ensures
        b == starts_with(v@, p@),
{
    if p.len() > v.len() {
        return false;
    }
    let mut i: usize = 0;
    while i < p.len()
        invariant
            p@.len() <= v@.len(),
            i <= p@.len(),
            forall|k: int| 0 <= k < i ==> v@[k] == p@[k],
        decreases p.len() - i,
    {
        if v[i] != p[i] {
            assert(v@.take(p@.len() as int)[i as int] != p@[i as int]);
            return false;
        }
        i = i + 1;
    }
    assert(v@.take(p@.len() as int) =~= p@);
    true
}

/// The API path of a full URL: what follows the host, without an `/api/v3`
/// or `/api` prefix. A URL without `://` and a host followed by `/` is
/// returned unchanged.
pub open spec fn api_path_of(url: Seq<char>) -> Seq<char> {
    match find_first(url, "://"@) {
        None => url,
        Some(p) => {
            let after = url.skip(p + 3);
            match find_first(after, "/"@) {
                None => url,
                Some(q) => {
                    let h = after.skip(q);
                    if starts_with(h, "/api/v3"@) {
                        h.skip(7)
                    } else if starts_with(h, "/api"@) {
                        h.skip(4)
                    } else {
                        h
                    }
                },
            }
        },
    }
}

/// Extract the API path from a full URL.
///
/// Given `https://api.github.com/repos/owner/repo/issues?page=2`, returns
/// `/repos/owner/repo/issues?page=2`.
pub fn extract_path_from_url(url: &str) -> (r: String)
    ensures
        r@ == api_path_of(url@),
{
    proof {
        reveal_strlit("://");
        reveal_strlit("/");
        reveal_strlit("/api/v3");
        reveal_strlit("/api");
    }
    let u = chars_of(url);
    let scheme = chars_of("://");
    if let Some(p) = find_in(&u, &scheme) {
        let n = u.len();
        let after = slice_chars(&u, p + 3, n);
        assert(after@ == u@.skip(p + 3));
        let slash = chars_of("/");
        if let Some(q) = find_in(&after, &slash) {
            let h = slice_chars(&after, q, after.len());
            assert(h@ == after@.skip(q as int));
            let v3 = chars_of("/api/v3");
            if has_prefix(&h, &v3) {
                let rest = slice_chars(&h, 7, h.len());
                assert(rest@ == h@.skip(7));
                return string_of(&rest);
            }
            let api = chars_of("/api");
            if has_prefix(&h, &api) {
                let rest = slice_chars(&h, 4, h.len());
                assert(rest@ == h@.skip(4));
                return string_of(&rest);
            }
            return string_of(&h);
        }
    }
    url.to_owned()
}

/// What a `Link` header says of the next page.
pub enum LinkScan {
    /// The URL of the next page.
    Found(Seq<char>),
    /// No part of the header is a usable next link.
    Absent,
    /// The first next-link part has its `>` before its `<`, so its URL
    /// cannot be cut out.
    Broken,
}

/// Whether a (trimmed) `Link` part is marked as the next page.
pub open spec fn is_next_part(t: Seq<char>) -> bool {
    find_first(t, "rel=\"next\""@) is Some || find_first(t, "rel=next"@) is Some
}

/// Scans the parts of a `Link` header from part `i` on: the first part
/// marked `rel="next"` (or `rel=next`) that holds a `<` and a `>` decides.
pub open spec fn scan_parts(parts: Seq<Seq<char>>, i: int) -> LinkScan
    decreases parts.len() - i,
{
    if i < 0 || i >= parts.len() {
        LinkScan::Absent
    } else {
        let t = trimmed(parts[i]);
        if is_next_part(t) && find_first(t, "<"@) is Some && find_first(t, ">"@) is Some {
            let a = find_first(t, "<"@)->0;
            let b = find_first(t, ">"@)->0;
            if a + 1 <= b {
                LinkScan::Found(t.subrange(a + 1, b))
            } else {
                LinkScan::Broken
            }
        } else {
            scan_parts(parts, i + 1)
        }
    }
}

/// What the `Link` header `link` says of the next page; its parts are
/// separated by `,`.
pub open spec fn next_link_scan(link: Seq<char>) -> LinkScan {
    scan_parts(split_on(link, ','), 0)
}

/// Whether the trimmed part `t` of a `Link` header is a usable next link:
/// marked `rel="next"` (or `rel=next`), with a `<` before its first `>`.
pub open spec fn usable_next(t: Seq<char>) -> bool {
    &&& is_next_part(t)
    &&& find_first(t, "<"@) is Some
    &&& find_first(t, ">"@) is Some
    &&& find_first(t, "<"@)->0 < find_first(t, ">"@)->0
}

/// Whether the trimmed part `t` is marked as the next link and holds both
/// angle brackets.
pub open spec fn marked_next(t: Seq<char>) -> bool {
    is_next_part(t) && find_first(t, "<"@) is Some && find_first(t, ">"@) is Some
}

proof fn lemma_scan_skips(parts: Seq<Seq<char>>, i: int, k: int)
    requires
        0 <= i <= k <= parts.len(),
        forall|j: int| i <= j < k ==> !marked_next(#[trigger] trimmed(parts[j])),
    ensures
        scan_parts(parts, i) == scan_parts(parts, k),
    decreases k - i,
{
    if i < k {
        lemma_scan_skips(parts, i + 1, k);
    }
}

/// Every comma-separated part of the `Link` header is looked at, in order:
/// when part `k` is the first marked as the next link, and its URL stands
/// between its first `<` and its first `>`, that URL is the next page,
/// whatever parts come before it (`rel="prev"`, `rel="first"`, ...).
pub proof fn law_first_next_part_decides(link: Seq<char>, k: int)
    requires
        0 <= k < split_on(link, ',').len(),
        usable_next(trimmed(split_on(link, ',')[k])),
        forall|j: int| 0 <= j < k ==> !marked_next(#[trigger] trimmed(split_on(link, ',')[j])),
    ensures
        ({
            let t = trimmed(split_on(link, ',')[k]);
            next_link_scan(link) == LinkScan::Found(t.subrange(find_first(t, "<"@)->0 + 1, find_first(t, ">"@)->0))
        }),
{
    lemma_scan_skips(split_on(link, ','), 0, k);
}

/// A header none of whose parts is marked as the next link has no next
/// page.
pub proof fn law_no_next_part(link: Seq<char>)
    requires
        forall|j: int| 0 <= j < split_on(link, ',').len() ==> !marked_next(#[trigger] trimmed(split_on(link, ',')[j])),
    ensures
        next_link_scan(link) == LinkScan::Absent,
{
    lemma_scan_skips(split_on(link, ','), 0, split_on(link, ',').len() as int);
}

enum Scanned {
    Found(String),
    Absent,
    Broken,
}

fn scan_link(link: &str) -> (r: Scanned)
    ensures
        match r {
            Scanned::Found(u) => next_link_scan(link@) == LinkScan::Found(u@),
            Scanned::Absent => next_link_scan(link@) == LinkScan::Absent,
            Scanned::Broken => next_link_scan(link@) == LinkScan::Broken,
        },
{
    proof {
        reveal_strlit("rel=\"next\"");
        reveal_strlit("rel=next");
        reveal_strlit("<");
        reveal_strlit(">");
    }
    let chars = chars_of(link);
    let parts = split_chars(&chars, ',');
    let ghost ps = split_on(link@, ',');
    let quoted = chars_of("rel=\"next\"");
    let bare = chars_of("rel=next");
    let open_angle = chars_of("<");
    let close_angle = chars_of(">");
    let mut i: usize = 0;
    while i < parts.len()
        invariant
            i <= parts@.len(),
            parts@.len() == ps.len(),
            forall|j: int| 0 <= j < parts@.len() ==> #[trigger] parts@[j]@ == ps[j],
            next_link_scan(link@) == scan_parts(ps, i as int),
            quoted@ == "rel=\"next\""@,
            bare@ == "rel=next"@,
            open_angle@ == "<"@,
            close_angle@ == ">"@,
        decreases parts.len() - i,
    {
        let t = trim_chars(&parts[i]);
        assert(t@ == trimmed(ps[i as int]));
        let is_next = find_in(&t, &quoted).is_some() || find_in(&t, &bare).is_some();
        if is_next {
            if let Some(a) = find_in(&t, &open_angle) {
                if let Some(b) = find_in(&t, &close_angle) {
                    if a < b {
                        let u = slice_chars(&t, a + 1, b);
                        return Scanned::Found(string_of(&u));
                    } else {
                        return Scanned::Broken;
                    }
                }
            }
        }
        i = i + 1;
    }
    Scanned::Absent
}

/// Parse a `Link` header value to find the next page URL.
///
/// The header reads like `<url>; rel="next", <url>; rel="last"`. The first
/// part marked as the next page gives the URL between its `<` and `>`.
pub fn parse_next_link(link: &str) -> (r: Option<String>)
    requires
        next_link_scan(link@) != LinkScan::Broken,
    ensures
        match next_link_scan(link@) {
            LinkScan::Found(u) => r matches Some(x) && x@ == u,
            _ => r is None,
        },
{
    match scan_link(link) {
        Scanned::Found(u) => Some(u),
        _ => None,
    }
}

/// Whether [`parse_next_link`] can read `link`: its first next-link part
/// does not have its `>` before its `<`.
pub fn next_link_readable(link: &str) -> (b: bool)
    ensures
        b == (next_link_scan(link@) != LinkScan::Broken),
{
    match scan_link(link) {
        Scanned::Broken => false,
        _ => true,
    }
}

/// The host a call goes to: the command's own, else the global one, else
/// `github.com`.
pub open spec fn api_host_of(own: Option<String>, global: Option<Seq<char>>) -> Seq<char> {
    match own {
        Some(h) => h@,
        None => match global {
            Some(g) => g,
            None => "github.com"@,
        },
    }
}

/// Decides [`api_host_of`].
pub fn api_host<'a>(own: &'a Option<String>, global: Option<&'a str>) -> (r: &'a str)
    ensures
        r@ == api_host_of(*own, match global { Some(g) => Some(g@), None => None }),
{
    match own {
        Some(h) => h.as_str(),
        None => match global {
            Some(g) => g,
            None => "github.com",
        },
    }
}

/// The method of a call: `GET` when none is given, else the given one in
/// upper case.
pub open spec fn api_method_of(method: Seq<char>) -> Seq<char> {
    if method.len() == 0 { "GET"@ } else { uppercased(method) }
}

/// Decides [`api_method_of`].
pub fn api_method(method: &str) -> (r: String)
    ensures
        r@ == api_method_of(method@),
{
    if method.is_empty() {
        "GET".to_owned()
    } else {
        to_uppercase(method)
    }
}

/// The endpoint of a call as a path: with a leading `/`.
pub open spec fn api_endpoint_of(endpoint: Seq<char>) -> Seq<char> {
    if endpoint.len() > 0 && endpoint[0] == '/' { endpoint } else { "/"@ + endpoint }
}

/// Decides [`api_endpoint_of`].
pub fn api_endpoint(endpoint: &str) -> (r: String)
    ensures
        r@ == api_endpoint_of(endpoint@),
{
    if endpoint.unicode_len() > 0 && endpoint.get_char(0) == '/' {
        endpoint.to_owned()
    } else {
        let mut e = "/".to_owned();
        e.append(endpoint);
        e
    }
}

/// A response header: its name, and its value when it is visible text.
#[derive(Debug)]
pub struct HeaderLine {
    pub name: String,
    pub value: Option<String>,
}

/// The header lines printed for `--include`: each header with a text value.
pub open spec fn header_lines(hs: Seq<HeaderLine>) -> Seq<Seq<char>>
    decreases hs.len(),
{
    if hs.len() == 0 {
        Seq::empty()
    } else {
        header_lines(hs.drop_last()) + match hs.last().value {
            Some(v) => seq![hs.last().name@ + ": "@ + v@],
            None => Seq::empty(),
        }
    }
}

/// What is printed before the body: with `--include`, the status line,
/// the headers and a blank line; else, unless `--silent`, the status of a
/// successful call (a failed one is reported as a warning instead).
pub open spec fn output_head(with_headers: bool, silent: bool, status: u16, reason: Option<String>, hs: Seq<HeaderLine>,
    paginated: bool) -> Seq<Seq<char>>
{
    if with_headers {
        seq!["HTTP/1.1 "@ + decimal(status as nat) + " "@ + match reason {
            Some(r) => r@,
            None => "Unknown"@,
        }] + header_lines(hs) + seq![Seq::empty()]
    } else if !silent && is_success(status) {
        seq!["HTTP "@ + decimal(status as nat) + if paginated { " (paginated)"@ } else { Seq::empty() }]
    } else {
        Seq::empty()
    }
}

/// Builds [`output_head`].
pub fn output_head_lines(with_headers: bool, silent: bool, status: u16, reason: &Option<String>, hs: &Vec<HeaderLine>,
    paginated: bool) -> (r: Vec<String>)
    ensures
        lines_of(r@) == output_head(with_headers, silent, status, *reason, hs@, paginated),
{
    if with_headers {
        let mut first = "HTTP/1.1 ".to_owned();
        first.append(decimal_string(status as u64).as_str());
        first.append(" ");
        match reason {
            Some(r) => first.append(r.as_str()),
            None => first.append("Unknown"),
        }
        let mut lines = one_line(first);
        let ghost head = lines_of(lines@);
        let mut i: usize = 0;
        while i < hs.len()
            invariant
                i <= hs@.len(),
                lines_of(lines@) == head + header_lines(hs@.take(i as int)),
            decreases hs@.len() - i,
        {
            assert(hs@.take(i + 1).drop_last() =~= hs@.take(i as int));
            match &hs[i].value {
                Some(v) => {
                    let mut l = hs[i].name.clone();
                    l.append(": ");
                    l.append(v.as_str());
                    push_line(&mut lines, l);
                },
                None => {},
            }
            assert(lines_of(lines@) =~= head + header_lines(hs@.take(i + 1)));
            i = i + 1;
        }
        assert(hs@.take(hs@.len() as int) == hs@);
        push_line(&mut lines, String::new());
        lines
    } else if !silent && 200 <= status && status <= 299 {
        let mut l = "HTTP ".to_owned();
        l.append(decimal_string(status as u64).as_str());
        if paginated {
            l.append(" (paginated)");
        }
        let lines = one_line(l);
        proof { reveal_strlit(""); }
        lines
    } else {
        let lines: Vec<String> = Vec::new();
        assert(lines_of(lines@) =~= Seq::<Seq<char>>::empty());
        lines
    }
}

/// The items of a page when it is a JSON array.
pub open spec fn page_items(page: Option<Json>) -> Option<Seq<Json>> {
    match page {
        Some(Json::Array(items)) => Some(items@),
        _ => None,
    }
}

/// Adds the items of a page to those collected; a page that is not a JSON
/// array adds nothing.
pub fn add_page(items: &mut Vec<Json>, page: Option<Json>)
    ensures
        final(items)@ == old(items)@ + match page_items(page) {
            Some(p) => p,
            None => Seq::empty(),
        },
{
    match page {
        Some(Json::Array(more)) => {
            let mut more = more;
            items.append(&mut more);
        },
        _ => {
            assert(items@ =~= old(items)@ + Seq::<Json>::empty());
        },
    }
}

} // verus!
