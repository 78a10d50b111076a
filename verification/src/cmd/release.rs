//! The `gor release` subcommand: asset names, MIME types and patterns.
use vstd::prelude::*;
use vstd::string::*;
use vstd::utf8::*;
use crate::text::{chars_of, str_eq, to_lowercase, lowercased, utf8_width, trim_str, trimmed};
use crate::cmd::flow::{Step, asks_fields, array_items, fails_with, http_failure, http_failure_message, json_output,
    lines_of, message_or, one_line, prints, push_line, reply_message, take_items};
use crate::cmd::issue::{check_status, repo_text, status_error, date_or_dash, names_or_dash};
use crate::cmd::keys::{dash, or_text};
use crate::cmd::util::{truncate, truncated};
use crate::json::{Json, JsonValue, take_member, bool_member, member, members_of, no_members, optional_member, push_member,
    str_member, str_value, string_json, u64_member, value_of, values_of};
use crate::output::{decimal, decimal_string, format_date, format_size, human_size, parse_u64, parsed_u64};
use crate::text::{replace_all, replaced, contains_text};
use crate::repository::{RepoSplit, repo_path, repo_prefix};
use crate::request::{ApiResponse, is_success};
use crate::table::{pad_left, pad_right, push_padded_left, push_padded_right};

verus! {

/// What `Path::extension` gives for a path, as text.
pub uninterp spec fn path_extension(path: Seq<char>) -> Option<Seq<char>>;

/// std's `Path::new(p).extension()`, read as UTF-8 text (the input is
/// UTF-8, so the text is whole); the result is named [`path_extension`] of
/// the path's characters and nothing more is claimed of it.
#[verifier::external_body]
fn file_extension(path: &str) -> (r: Option<String>)
    ensures
        match r {
            Some(e) => path_extension(path@) == Some(e@),
            None => path_extension(path@) is None,
        },
{
    std::path::Path::new(path).extension().and_then(|e| e.to_str()).map(|e| e.to_string())
}

/// The MIME type that belongs to a lower-cased file extension.
pub open spec fn mime_for(ext: Seq<char>) -> Seq<char> {
    if ext == "zip"@ { "application/zip"@ }
    else if ext == "tar"@ { "application/x-tar"@ }
    else if ext == "gz"@ || ext == "tgz"@ { "application/gzip"@ }
    else if ext == "bz2"@ { "application/x-bzip2"@ }
    else if ext == "xz"@ { "application/x-xz"@ }
    else if ext == "dmg"@ { "application/x-apple-diskimage"@ }
    else if ext == "deb"@ { "application/vnd.debian.binary-package"@ }
    else if ext == "rpm"@ { "application/x-rpm"@ }
    else if ext == "msi"@ { "application/x-msi"@ }
    else if ext == "exe"@ { "application/x-msdownload"@ }
    else if ext == "apk"@ { "application/vnd.android.package-archive"@ }
    else if ext == "jar"@ { "application/java-archive"@ }
    else if ext == "txt"@ { "text/plain"@ }
    else if ext == "md"@ { "text/markdown"@ }
    else if ext == "json"@ { "application/json"@ }
    else if ext == "xml"@ { "application/xml"@ }
    else if ext == "html"@ { "text/html"@ }
    else if ext == "css"@ { "text/css"@ }
    else if ext == "js"@ { "application/javascript"@ }
    else if ext == "wasm"@ { "application/wasm"@ }
    else if ext == "png"@ { "image/png"@ }
    else if ext == "jpg"@ || ext == "jpeg"@ { "image/jpeg"@ }
    else if ext == "gif"@ { "image/gif"@ }
    else if ext == "svg"@ { "image/svg+xml"@ }
    else if ext == "ico"@ { "image/x-icon"@ }
    else if ext == "pdf"@ { "application/pdf"@ }
    else { "application/octet-stream"@ }
}

/// The MIME type of a file name: that of its lower-cased extension (none
/// counts as the empty extension).
pub open spec fn mime_type_of(filename: Seq<char>) -> Seq<char> {
    mime_for(lowercased(match path_extension(filename) { Some(e) => e, None => Seq::<char>::empty() }))
}

fn mime_for_str(ext: &str) -> (r: &'static str)
    ensures
        r@ == mime_for(ext@),
{
    if str_eq(ext, "zip") { "application/zip" }
    else if str_eq(ext, "tar") { "application/x-tar" }
    else if str_eq(ext, "gz") || str_eq(ext, "tgz") { "application/gzip" }
    else if str_eq(ext, "bz2") { "application/x-bzip2" }
    else if str_eq(ext, "xz") { "application/x-xz" }
    else if str_eq(ext, "dmg") { "application/x-apple-diskimage" }
    else if str_eq(ext, "deb") { "application/vnd.debian.binary-package" }
    else if str_eq(ext, "rpm") { "application/x-rpm" }
    else if str_eq(ext, "msi") { "application/x-msi" }
    else if str_eq(ext, "exe") { "application/x-msdownload" }
    else if str_eq(ext, "apk") { "application/vnd.android.package-archive" }
    else if str_eq(ext, "jar") { "application/java-archive" }
    else if str_eq(ext, "txt") { "text/plain" }
    else if str_eq(ext, "md") { "text/markdown" }
    else if str_eq(ext, "json") { "application/json" }
    else if str_eq(ext, "xml") { "application/xml" }
    else if str_eq(ext, "html") { "text/html" }
    else if str_eq(ext, "css") { "text/css" }
    else if str_eq(ext, "js") { "application/javascript" }
    else if str_eq(ext, "wasm") { "application/wasm" }
    else if str_eq(ext, "png") { "image/png" }
    else if str_eq(ext, "jpg") || str_eq(ext, "jpeg") { "image/jpeg" }
    else if str_eq(ext, "gif") { "image/gif" }
    else if str_eq(ext, "svg") { "image/svg+xml" }
    else if str_eq(ext, "ico") { "image/x-icon" }
    else if str_eq(ext, "pdf") { "application/pdf" }
    else { "application/octet-stream" }
}

/// Detect the MIME type of a file from its extension
/// (`application/octet-stream` when it is not a known one).
pub fn detect_mime_type(filename: &str) -> (r: String)
    ensures
        r@ == mime_type_of(filename@),
{
    let ext = match file_extension(filename) {
        Some(e) => e,
        None => String::new(),
    };
    let lower = to_lowercase(ext.as_str());
    mime_for_str(lower.as_str()).to_owned()
}

// ---------------------------------------------------------------------------
// Glob patterns
// ---------------------------------------------------------------------------

/// Whether `name` matches `pattern`: `?` takes any one character, `*` any
/// run of characters (the empty one too), every other character itself.
pub open spec fn glob(pattern: Seq<char>, name: Seq<char>) -> bool
    decreases pattern.len(), name.len(),
{
    if pattern.len() == 0 {
        name.len() == 0
    } else if pattern[0] == '*' {
        glob(pattern.drop_first(), name) || (name.len() > 0 && glob(pattern, name.drop_first()))
    } else if name.len() == 0 {
        false
    } else if pattern[0] == '?' || pattern[0] == name[0] {
        glob(pattern.drop_first(), name.drop_first())
    } else {
        false
    }
}

/// Simple recursive glob matching (`*` and `?` wildcards).
pub fn glob_match_impl(pattern: &str, name: &str) -> (r: bool)
    ensures
        r == glob(pattern@, name@),
{
    let p = chars_of(pattern);
    let n = chars_of(name);
    let pl = p.len();
    let nl = n.len();
    // `next[k]` holds whether the pattern from `i + 1` on matches the name
    // from `k` on; `cur[k]` the same from `i` on.
    let mut next: Vec<bool> = Vec::new();
    let mut k: usize = 0;
    assert(p@.skip(pl as int).len() == 0);
    while k < nl
        invariant
            k <= nl,
            nl == n@.len(),
            pl == p@.len(),
            next@.len() == k,
            p@.skip(pl as int).len() == 0,
            forall|x: int| 0 <= x < k ==> next@[x] == glob(p@.skip(pl as int), #[trigger] n@.skip(x)),
        decreases nl - k,
    {
        assert(n@.skip(k as int).len() == nl - k);
        next.push(false);
        k = k + 1;
    }
    assert(n@.skip(nl as int).len() == 0);
    next.push(true);
    let mut i: usize = pl;
    while i > 0
        invariant
            i <= pl,
            nl == n@.len(),
            pl == p@.len(),
            next@.len() == nl + 1,
            forall|x: int| 0 <= x <= nl ==> next@[x] == glob(p@.skip(i as int), #[trigger] n@.skip(x)),
        decreases i,
    {
        let pc = p[i - 1];
        let ghost ps = p@.skip(i - 1);
        assert(ps.len() > 0 && ps[0] == pc);
        assert(ps.drop_first() == p@.skip(i as int));
        let mut cur: Vec<bool> = Vec::new();
        let mut j: usize = 0;
        while j < nl
            invariant
                j <= nl,
                nl == n@.len(),
                cur@.len() == j,
            decreases nl - j,
        {
            cur.push(false);
            j = j + 1;
        }
        // The end of the name.
        let ghost ne = n@.skip(nl as int);
        assert(ne.len() == 0);
        let last: bool = if pc == '*' { next[nl] } else { false };
        assert(last == glob(ps, ne));
        cur.push(last);
        let mut j: usize = nl;
        while j > 0
            invariant
                j <= nl,
                nl == n@.len(),
                cur@.len() == nl + 1,
                next@.len() == nl + 1,
                ps == p@.skip(i - 1),
                ps.len() > 0,
                ps[0] == pc,
                ps.drop_first() == p@.skip(i as int),
                forall|x: int| 0 <= x <= nl ==> next@[x] == glob(p@.skip(i as int), #[trigger] n@.skip(x)),
                forall|x: int| j <= x <= nl ==> cur@[x] == glob(ps, #[trigger] n@.skip(x)),
            decreases j,
        {
            let jj = j - 1;
            let ghost ns = n@.skip(jj as int);
            assert(ns.len() == nl - jj);
            assert(ns[0] == n@[jj as int]);
            assert(ns.drop_first() == n@.skip(jj + 1));
            let v: bool = if pc == '*' {
                next[jj] || cur[jj + 1]
            } else {
                (pc == '?' || pc == n[jj]) && next[jj + 1]
            };
            assert(v == glob(ps, ns));
            cur.set(jj, v);
            j = jj;
        }
        next = cur;
        i = i - 1;
    }
    assert(p@.skip(0) == p@);
    assert(n@.skip(0) == n@);
    next[0]
}

/// Whether `s` holds a `*` or a `?`.
pub open spec fn has_wildcard(s: Seq<char>) -> bool {
    exists|i: int| 0 <= i < s.len() && (s[i] == '*' || s[i] == '?')
}

fn contains_wildcard(s: &str) -> (b: bool)
    ensures
        b == has_wildcard(s@),
{
    let v = chars_of(s);
    let mut i: usize = 0;
    while i < v.len()
        invariant
            v@ == s@,
            i <= v@.len(),
            forall|k: int| 0 <= k < i ==> v@[k] != '*' && v@[k] != '?',
        decreases v.len() - i,
    {
        if v[i] == '*' || v[i] == '?' {
            return true;
        }
        i = i + 1;
    }
    false
}

/// What [`glob_match`] decides: after lower-casing both sides, equality
/// when the pattern has no wildcard, else [`glob`].
pub open spec fn glob_matches(pattern: Seq<char>, name: Seq<char>) -> bool {
    let p = lowercased(pattern);
    let n = lowercased(name);
    if !has_wildcard(p) { p == n } else { glob(p, n) }
}

/// A pattern without `*` or `?` matches a name exactly when the two are
/// equal once lower-cased; a name that merely contains the pattern, or is
/// contained in it, does not match.
pub proof fn law_exact_match_without_wildcards(pattern: Seq<char>, name: Seq<char>)
    requires
        forall|i: int| 0 <= i < lowercased(pattern).len() ==>
            #[trigger] lowercased(pattern)[i] != '*' && lowercased(pattern)[i] != '?',
    ensures
        glob_matches(pattern, name) <==> lowercased(pattern) == lowercased(name),
{
    let p = lowercased(pattern);
    assert(!has_wildcard(p)) by {
        if has_wildcard(p) {
            let i = choose|i: int| 0 <= i < p.len() && (p[i] == '*' || p[i] == '?');
            assert(p[i] != '*' && p[i] != '?');
        }
    }
    law_glob_without_wildcards_is_equality(p, lowercased(name));
}

/// Without `*` or `?`, glob matching is equality.
pub proof fn law_glob_without_wildcards_is_equality(pattern: Seq<char>, name: Seq<char>)
    requires
        forall|i: int| 0 <= i < pattern.len() ==> #[trigger] pattern[i] != '*' && pattern[i] != '?',
    ensures
        glob(pattern, name) <==> pattern == name,
    decreases pattern.len(),
{
    if pattern.len() > 0 && name.len() > 0 {
        let p = pattern.drop_first();
        assert forall|i: int| 0 <= i < p.len() implies #[trigger] p[i] != '*' && p[i] != '?' by {
            assert(p[i] == pattern[i + 1]);
        }
        law_glob_without_wildcards_is_equality(p, name.drop_first());
        assert(pattern[0] != '*' && pattern[0] != '?');
        assert(glob(pattern, name) == (pattern[0] == name[0] && glob(p, name.drop_first())));
        if pattern[0] != name[0] {
            assert(pattern != name);
        }
        if pattern == name {
            assert(p == name.drop_first());
        }
        if pattern[0] == name[0] && p == name.drop_first() {
            assert(pattern =~= name) by {
                assert forall|i: int| 0 <= i < pattern.len() implies pattern[i] == name[i] by {
                    if i > 0 {
                        assert(pattern[i] == p[i - 1]);
                        assert(name[i] == name.drop_first()[i - 1]);
                    }
                }
            }
        }
    } else if pattern.len() > 0 {
        assert(pattern[0] != '*');
        assert(pattern != name);
    } else if name.len() > 0 {
        assert(pattern != name);
    } else {
        assert(pattern =~= name);
    }
}

/// Simple glob pattern matching for asset filtering, case-insensitive.
///
/// Supports `*` (any characters) and `?` (single character) wildcards.
pub fn glob_match(pattern: &str, name: &str) -> (r: bool)
    ensures
        r == glob_matches(pattern@, name@),
{
    let p = to_lowercase(pattern);
    let n = to_lowercase(name);
    if !contains_wildcard(p.as_str()) {
        return p == n;
    }
    glob_match_impl(p.as_str(), n.as_str())
}

// ---------------------------------------------------------------------------
// gor release list
// ---------------------------------------------------------------------------

/// The path that lists the releases of `OWNER/REPO`.
pub open spec fn list_path_of(owner: Seq<char>, repo: Seq<char>, limit: u32) -> Seq<char> {
    repo_prefix(owner, repo) + "/releases?per_page="@ + decimal(if limit < 100 { limit as nat } else { 100 })
}

/// Builds [`list_path_of`].
pub fn list_path(spec: &RepoSplit, limit: u32) -> (r: String)
    ensures
        r@ == list_path_of(spec.owner@, spec.repo@, limit),
{
    let mut p = repo_path(spec);
    p.append("/releases?per_page=");
    let n: u32 = if limit < 100 { limit } else { 100 };
    p.append(decimal_string(n as u64).as_str());
    p
}

/// Whether a release is a draft (`draft`, false when absent).
pub open spec fn is_draft(r: Json) -> bool {
    bool_member(r, "draft"@) == Some(true)
}

/// Whether a release is a pre-release (`prerelease`, false when absent).
pub open spec fn is_prerelease(r: Json) -> bool {
    bool_member(r, "prerelease"@) == Some(true)
}

/// Whether a release is listed when drafts or pre-releases are excluded.
pub open spec fn keeps_release(r: Json, exclude_drafts: bool, exclude_prereleases: bool) -> bool {
    !(exclude_drafts && is_draft(r)) && !(exclude_prereleases && is_prerelease(r))
}

/// The releases kept by the exclusions, in order.
pub open spec fn kept_releases(rs: Seq<Json>, exclude_drafts: bool, exclude_prereleases: bool) -> Seq<Json>
    decreases rs.len(),
{
    if rs.len() == 0 {
        rs
    } else {
        let prev = kept_releases(rs.drop_last(), exclude_drafts, exclude_prereleases);
        if keeps_release(rs.last(), exclude_drafts, exclude_prereleases) { prev.push(rs.last()) } else { prev }
    }
}

/// The releases listed: those kept, at most `limit` of them.
pub open spec fn listed_releases(rs: Seq<Json>, exclude_drafts: bool, exclude_prereleases: bool, limit: u32) -> Seq<Json> {
    let k = kept_releases(rs, exclude_drafts, exclude_prereleases);
    if k.len() <= limit { k } else { k.take(limit as int) }
}

/// Applies the exclusions and the limit.
pub fn filter_releases(rs: Vec<Json>, exclude_drafts: bool, exclude_prereleases: bool, limit: u32) -> (r: Vec<Json>)
    ensures
        r@ == listed_releases(rs@, exclude_drafts, exclude_prereleases, limit),
{
    let ghost all = rs@;
    let mut out: Vec<Json> = Vec::new();
    let mut rest = rs;
    let mut i: usize = 0;
    let n = rest.len();
    assert(all.skip(0) == all);
    while rest.len() > 0
        invariant
            all.len() == n,
            i + rest@.len() == all.len(),
            rest@ == all.skip(i as int),
            out@ == kept_releases(all.take(i as int), exclude_drafts, exclude_prereleases),
        decreases rest.len(),
    {
        let r = rest.remove(0);
        assert(all.take(i + 1).drop_last() == all.take(i as int));
        assert(all.take(i + 1).last() == all[i as int]);
        assert(all.skip(i as int).remove(0) == all.skip(i + 1));
        let draft = r.bool_member("draft") == Some(true);
        let pre = r.bool_member("prerelease") == Some(true);
        if !(exclude_drafts && draft) && !(exclude_prereleases && pre) {
            out.push(r);
        }
        i = i + 1;
    }
    assert(all.take(all.len() as int) == all);
    if out.len() > limit as usize {
        out.truncate(limit as usize);
    }
    out
}

/// The status a release is shown with.
pub open spec fn release_status(r: Json) -> Seq<char> {
    if is_draft(r) { "Draft"@ } else if is_prerelease(r) { "Pre-release"@ } else { "Latest"@ }
}

fn status_str(r: &Json) -> (s: &'static str)
    ensures
        s@ == release_status(*r),
{
    if r.bool_member("draft") == Some(true) {
        "Draft"
    } else if r.bool_member("prerelease") == Some(true) {
        "Pre-release"
    } else {
        "Latest"
    }
}

/// The header line of the release table.
pub open spec fn release_header() -> Seq<char> {
    pad_right("TAG"@, 20) + "  "@ + pad_right("NAME"@, 40) + "  "@ + pad_right("PUBLISHED"@, 16) + "  "@
        + pad_right("STATUS"@, 12)
}

/// One row of the release table.
pub open spec fn release_row(r: Json) -> Seq<char> {
    let tag = or_text(str_member(r, "tag_name"@), dash());
    let name = or_text(str_member(r, "name"@), dash());
    let published = date_or_dash(str_member(r, "published_at"@));
    pad_right(truncated(tag, 20), 20) + "  "@ + pad_right(truncated(name, 40), 40) + "  "@
        + pad_right(published, 16) + "  "@ + pad_right(release_status(r), 12)
}

/// What the release list prints: the table, or a line saying there is none.
pub open spec fn release_table(rs: Seq<Json>) -> Seq<Seq<char>> {
    if rs.len() == 0 {
        seq!["No releases found."@]
    } else {
        seq![release_header()] + rs.map_values(|r: Json| release_row(r))
    }
}

fn text_or<'a>(t: Option<&'a str>, d: &'a str) -> (r: &'a str)
    ensures
        r@ == or_text(match t { Some(x) => Some(x@), None => None }, d@),
{
    match t {
        Some(x) => x,
        None => d,
    }
}

fn date_text(t: Option<&str>) -> (r: String)
    ensures
        r@ == date_or_dash(match t { Some(x) => Some(x@), None => None }),
{
    match t {
        Some(d) => format_date(d),
        None => "\u{2014}".to_owned(),
    }
}

fn release_row_line(r: &Json) -> (l: String)
    ensures
        l@ == release_row(*r),
{
    let tag = text_or(r.str_member("tag_name"), "\u{2014}");
    let name = text_or(r.str_member("name"), "\u{2014}");
    let published = date_text(r.str_member("published_at"));
    let mut line = String::new();
    push_padded_right(&mut line, truncate(tag, 20).as_str(), 20);
    line.append("  ");
    push_padded_right(&mut line, truncate(name, 40).as_str(), 40);
    line.append("  ");
    push_padded_right(&mut line, published.as_str(), 16);
    line.append("  ");
    push_padded_right(&mut line, status_str(r), 12);
    line
}

/// The lines of the release list.
pub fn release_table_lines(rs: &Vec<Json>) -> (r: Vec<String>)
    ensures
        lines_of(r@) == release_table(rs@),
{
    if rs.len() == 0 {
        return one_line("No releases found.".to_owned());
    }
    let mut header = String::new();
    push_padded_right(&mut header, "TAG", 20);
    header.append("  ");
    push_padded_right(&mut header, "NAME", 40);
    header.append("  ");
    push_padded_right(&mut header, "PUBLISHED", 16);
    header.append("  ");
    push_padded_right(&mut header, "STATUS", 12);
    let mut lines = one_line(header);
    let mut i: usize = 0;
    while i < rs.len()
        invariant
            i <= rs@.len(),
            rs@.len() > 0,
            lines_of(lines@) == seq![release_header()] + rs@.take(i as int).map_values(|x: Json| release_row(x)),
        decreases rs@.len() - i,
    {
        let row = release_row_line(&rs[i]);
        push_line(&mut lines, row);
        assert(rs@.take(i + 1).map_values(|x: Json| release_row(x))
            =~= rs@.take(i as int).map_values(|x: Json| release_row(x)).push(release_row(rs@[i as int])));
        i = i + 1;
    }
    assert(rs@.take(rs@.len() as int) == rs@);
    lines
}

/// What `gor release list` ends with, given the reply to its request.
pub open spec fn list_ending(owner: Seq<char>, repo: Seq<char>, exclude_drafts: bool, exclude_prereleases: bool,
    limit: u32, json: Option<Vec<String>>, resp: ApiResponse, step: Step) -> bool
{
    let spec_text = repo_text(owner, repo);
    match status_error(resp.status, resp.status_text@, "repository '"@ + spec_text + "' not found"@, None,
        "failed to list releases for '"@ + spec_text + "'"@) {
        Some(m) => fails_with(step, m),
        None => match array_items(resp.body) {
            None => fails_with(step, "failed to parse releases response"@),
            Some(items) => {
                let listed = listed_releases(items@, exclude_drafts, exclude_prereleases, limit);
                if json is Some {
                    step matches Step::PrintJson(j) && (if asks_fields(json) {
                        j matches Json::Object(out) && out@.len() == 0
                    } else {
                        value_of(j) == JsonValue::Array(values_of(listed))
                    })
                } else {
                    prints(step, release_table(listed))
                }
            },
        },
    }
}

fn quoted(prefix: &str, spec: &RepoSplit, suffix: &str) -> (r: String)
    ensures
        r@ == prefix@ + repo_text(spec.owner@, spec.repo@) + suffix@,
{
    let mut m = prefix.to_owned();
    m.append(spec.owner.as_str());
    m.append("/");
    m.append(spec.repo.as_str());
    m.append(suffix);
    m
}

/// Reads the reply to the release listing.
pub fn list_result(spec: &RepoSplit, exclude_drafts: bool, exclude_prereleases: bool, limit: u32,
    json: &Option<Vec<String>>, resp: ApiResponse) -> (r: Step)
    ensures
        list_ending(spec.owner@, spec.repo@, exclude_drafts, exclude_prereleases, limit, *json, resp, r),
{
    let err = check_status(resp.status, resp.status_text.as_str(), quoted("repository '", spec, "' not found"), None,
        quoted("failed to list releases for '", spec, "'").as_str());
    if let Some(m) = err {
        return Step::Fail(m);
    }
    match take_items(resp.body) {
        None => Step::Fail("failed to parse releases response".to_owned()),
        Some(items) => {
            let listed = filter_releases(items, exclude_drafts, exclude_prereleases, limit);
            if json.is_some() {
                Step::PrintJson(json_output(Json::Array(listed), json))
            } else {
                Step::Print(release_table_lines(&listed))
            }
        },
    }
}

// ---------------------------------------------------------------------------
// Finding a release by tag or by ID
// ---------------------------------------------------------------------------

/// `/repos/OWNER/REPO/releases/tags/TAG`.
pub open spec fn tag_path_of(owner: Seq<char>, repo: Seq<char>, tag: Seq<char>) -> Seq<char> {
    repo_prefix(owner, repo) + "/releases/tags/"@ + tag
}

/// Builds [`tag_path_of`].
pub fn tag_path(spec: &RepoSplit, tag: &str) -> (r: String)
    ensures
        r@ == tag_path_of(spec.owner@, spec.repo@, tag@),
{
    let mut p = repo_path(spec);
    p.append("/releases/tags/");
    p.append(tag);
    p
}

/// `/repos/OWNER/REPO/releases/ID`.
pub open spec fn id_path_of(owner: Seq<char>, repo: Seq<char>, id: u64) -> Seq<char> {
    repo_prefix(owner, repo) + "/releases/"@ + decimal(id as nat)
}

/// Builds [`id_path_of`].
pub fn id_path(spec: &RepoSplit, id: u64) -> (r: String)
    ensures
        r@ == id_path_of(spec.owner@, spec.repo@, id),
{
    let mut p = repo_path(spec);
    p.append("/releases/");
    p.append(decimal_string(id).as_str());
    p
}

/// What the lookup by tag gives: nothing when the request failed or was
/// refused (the lookup by ID follows), else the release's ID and tag, or
/// why they cannot be read.
pub open spec fn found_by_tag(release: Seq<char>, resp: Option<ApiResponse>) -> Option<Result<(u64, Seq<char>), Seq<char>>> {
    match resp {
        Some(r) if is_success(r.status) => Some(match r.body {
            None => Err("failed to parse release response"@),
            Some(b) => match u64_member(b, "id"@) {
                None => Err("release response missing 'id' field"@),
                Some(id) => Ok((id, or_text(str_member(b, "tag_name"@), release))),
            },
        }),
        _ => None,
    }
}

/// The view of a found release.
pub open spec fn found_view(r: Result<(u64, String), String>) -> Result<(u64, Seq<char>), Seq<char>> {
    match r {
        Ok((id, tag)) => Ok((id, tag@)),
        Err(m) => Err(m@),
    }
}

/// Reads the reply to the lookup by tag (`None` when there was no reply).
pub fn by_tag_result(release: &str, resp: &Option<ApiResponse>) -> (r: Option<Result<(u64, String), String>>)
    ensures
        match found_by_tag(release@, *resp) {
            Some(f) => r matches Some(g) && found_view(g) == f,
            None => r is None,
        },
{
    match resp {
        Some(rp) => {
            if !(200 <= rp.status && rp.status <= 299) {
                return None;
            }
            Some(match &rp.body {
                None => Err("failed to parse release response".to_owned()),
                Some(b) => match b.u64_member("id") {
                    None => Err("release response missing 'id' field".to_owned()),
                    Some(id) => Ok((id, text_or(b.str_member("tag_name"), release).to_owned())),
                },
            })
        },
        None => None,
    }
}

/// The ID a release given by something other than a found tag must have.
pub fn release_id(release: &str) -> (r: Result<u64, String>)
    ensures
        match parsed_u64(release@) {
            Some(id) => r == Ok::<u64, String>(id),
            None => r matches Err(m) && m@ == "release not found by tag; provide a valid numeric release ID"@,
        },
{
    match parse_u64(release) {
        Some(id) => Ok(id),
        None => Err("release not found by tag; provide a valid numeric release ID".to_owned()),
    }
}

/// What the lookup by ID gives: the release's ID and tag, or the failure.
pub open spec fn found_by_id(release: Seq<char>, owner: Seq<char>, repo: Seq<char>, id: u64, resp: ApiResponse) -> Result<(u64, Seq<char>), Seq<char>> {
    match status_error(resp.status, resp.status_text@, "release '"@ + release + "' not found in '"@ + repo_text(owner, repo) + "'"@,
        None, "failed to resolve release '"@ + release + "'"@) {
        Some(m) => Err(m),
        None => match resp.body {
            None => Err("failed to parse release response"@),
            Some(b) => Ok((id, or_text(str_member(b, "tag_name"@), release))),
        },
    }
}

fn release_not_found(release: &str, spec: &RepoSplit) -> (r: String)
    ensures
        r@ == "release '"@ + release@ + "' not found in '"@ + repo_text(spec.owner@, spec.repo@) + "'"@,
{
    let mut m = "release '".to_owned();
    m.append(release);
    m.append("' not found in '");
    m.append(spec.owner.as_str());
    m.append("/");
    m.append(spec.repo.as_str());
    m.append("'");
    m
}

fn about_release(prefix: &str, release: &str) -> (r: String)
    ensures
        r@ == prefix@ + release@ + "'"@,
{
    let mut m = prefix.to_owned();
    m.append(release);
    m.append("'");
    m
}

/// Reads the reply to the lookup by ID.
pub fn by_id_result(release: &str, spec: &RepoSplit, id: u64, resp: &ApiResponse) -> (r: Result<(u64, String), String>)
    ensures
        found_view(r) == found_by_id(release@, spec.owner@, spec.repo@, id, *resp),
{
    let err = check_status(resp.status, resp.status_text.as_str(), release_not_found(release, spec), None,
        about_release("failed to resolve release '", release).as_str());
    if let Some(m) = err {
        return Err(m);
    }
    match &resp.body {
        None => Err("failed to parse release response".to_owned()),
        Some(b) => Ok((id, text_or(b.str_member("tag_name"), release).to_owned())),
    }
}

// ---------------------------------------------------------------------------
// gor release delete
// ---------------------------------------------------------------------------

/// The path that deletes release `id`, keeping its git tag when asked.
pub open spec fn delete_path_of(owner: Seq<char>, repo: Seq<char>, id: u64, skip_tag: bool) -> Seq<char> {
    id_path_of(owner, repo, id) + if skip_tag { "?skip_tag=true"@ } else { Seq::empty() }
}

/// Builds [`delete_path_of`].
pub fn delete_path(spec: &RepoSplit, id: u64, skip_tag: bool) -> (r: String)
    ensures
        r@ == delete_path_of(spec.owner@, spec.repo@, id, skip_tag),
{
    let mut p = id_path(spec, id);
    if skip_tag {
        p.append("?skip_tag=true");
    }
    p
}

/// The question asked before deleting.
pub open spec fn delete_prompt_text(tag: Seq<char>, id: u64, owner: Seq<char>, repo: Seq<char>) -> Seq<char> {
    "Delete release '"@ + tag + "' (ID: "@ + decimal(id as nat) + ") from '"@ + repo_text(owner, repo) + "'? [y/N] "@
}

/// Builds [`delete_prompt_text`].
pub fn delete_prompt(tag: &str, id: u64, spec: &RepoSplit) -> (r: String)
    ensures
        r@ == delete_prompt_text(tag@, id, spec.owner@, spec.repo@),
{
    let mut m = "Delete release '".to_owned();
    m.append(tag);
    m.append("' (ID: ");
    m.append(decimal_string(id).as_str());
    m.append(") from '");
    m.append(spec.owner.as_str());
    m.append("/");
    m.append(spec.repo.as_str());
    m.append("'? [y/N] ");
    m
}

/// Whether an answer to the prompt confirms: `y` or `yes`, trimmed and
/// lower-cased.
pub open spec fn confirms(answer: Seq<char>) -> bool {
    let a = lowercased(trimmed(answer));
    a == "y"@ || a == "yes"@
}

/// Tests [`confirms`].
pub fn confirmed(answer: &str) -> (b: bool)
    ensures
        b == confirms(answer@),
{
    let t = trim_str(answer);
    let a = to_lowercase(t.as_str());
    str_eq(a.as_str(), "y") || str_eq(a.as_str(), "yes")
}

/// What a deletion ends with: the line it prints (`None`: nothing), or
/// the failure.
pub open spec fn deletion(release: Seq<char>, owner: Seq<char>, repo: Seq<char>, tag: Seq<char>, skip_tag: bool,
    status: u16, status_text: Seq<char>) -> Result<Option<Seq<char>>, Seq<char>>
{
    if status == 404 {
        Err("release '"@ + release + "' not found in '"@ + repo_text(owner, repo) + "'"@)
    } else if status == 204 {
        Ok(Some("\u{2713} Deleted release '"@ + tag + "'"@ + if skip_tag { " (git tag preserved)"@ } else { Seq::empty() }))
    } else if !is_success(status) {
        Err(http_failure("failed to delete release '"@ + release + "'"@, status_text))
    } else {
        Ok(None)
    }
}

/// Reads the reply to a deletion.
pub fn delete_result(release: &str, spec: &RepoSplit, tag: &str, skip_tag: bool, status: u16, status_text: &str)
    -> (r: Result<Option<String>, String>)
    ensures
        match deletion(release@, spec.owner@, spec.repo@, tag@, skip_tag, status, status_text@) {
            Ok(Some(l)) => r matches Ok(Some(m)) && m@ == l,
            Ok(None) => r matches Ok(None),
            Err(e) => r matches Err(m) && m@ == e,
        },
{
    if status == 404 {
        Err(release_not_found(release, spec))
    } else if status == 204 {
        let mut m = "\u{2713} Deleted release '".to_owned();
        m.append(tag);
        m.append("'");
        if skip_tag {
            m.append(" (git tag preserved)");
        }
        Ok(Some(m))
    } else if !(200 <= status && status <= 299) {
        Err(http_failure_message(about_release("failed to delete release '", release).as_str(), status_text))
    } else {
        Ok(None)
    }
}

// ---------------------------------------------------------------------------
// Release notes, and the bodies of create and edit
// ---------------------------------------------------------------------------

/// Where a release's notes come from.
#[derive(Debug)]
pub enum NotesSource {
    /// All of standard input (`--notes-file -`).
    Stdin,
    /// A file.
    File(String),
    /// Given on the command line.
    Text(String),
    /// No notes.
    Nothing,
}

/// `--notes-file` wins over `--notes`; `-` reads standard input.
pub fn notes_source(notes: Option<String>, notes_file: Option<String>) -> (r: NotesSource)
    ensures
        match notes_file {
            Some(f) => if f@ == "-"@ { r is Stdin } else { r matches NotesSource::File(p) && p@ == f@ },
            None => match notes {
                Some(t) => r matches NotesSource::Text(x) && x@ == t@,
                None => r is Nothing,
            },
        },
{
    match notes_file {
        Some(f) => if str_eq(f.as_str(), "-") { NotesSource::Stdin } else { NotesSource::File(f) },
        None => match notes {
            Some(t) => NotesSource::Text(t),
            None => NotesSource::Nothing,
        },
    }
}

/// A boolean member when it is given.
pub open spec fn bool_entry(key: Seq<char>, value: Option<bool>) -> Seq<(Seq<char>, JsonValue)> {
    match value {
        Some(b) => seq![(key, JsonValue::Bool(b))],
        None => Seq::empty(),
    }
}

/// What an edit of a release sends: only the fields given.
pub open spec fn edit_members(title: Option<String>, body: Option<String>, draft: Option<bool>, prerelease: Option<bool>,
    tag: Option<String>, target: Option<String>) -> Seq<(Seq<char>, JsonValue)>
{
    optional_member("name"@, title) + optional_member("body"@, body) + bool_entry("draft"@, draft)
        + bool_entry("prerelease"@, prerelease) + optional_member("tag_name"@, tag)
        + optional_member("target_commitish"@, target)
}

fn push_opt(entries: &mut Vec<(String, Json)>, key: &str, value: &Option<String>)
    ensures
        members_of(final(entries)@) == members_of(old(entries)@) + optional_member(key@, *value),
{
    match value {
        Some(v) => push_member(entries, key, string_json(v.as_str())),
        None => {},
    }
    assert(members_of(entries@) =~= members_of(old(entries)@) + optional_member(key@, *value));
}

fn push_bool(entries: &mut Vec<(String, Json)>, key: &str, value: Option<bool>)
    ensures
        members_of(final(entries)@) == members_of(old(entries)@) + bool_entry(key@, value),
{
    match value {
        Some(b) => push_member(entries, key, Json::Bool(b)),
        None => {},
    }
    assert(members_of(entries@) =~= members_of(old(entries)@) + bool_entry(key@, value));
}

/// The body of an edit, or the error when nothing is to change.
pub fn edit_body(title: &Option<String>, body: &Option<String>, draft: Option<bool>, prerelease: Option<bool>,
    tag: &Option<String>, target: &Option<String>) -> (r: Result<Json, String>)
    ensures
        edit_members(*title, *body, draft, prerelease, *tag, *target).len() == 0 ==> (r matches Err(m)
            && m@ == "no changes specified; use --title, --notes, --draft, --prerelease, --tag, or --target"@),
        edit_members(*title, *body, draft, prerelease, *tag, *target).len() > 0 ==> (r matches Ok(j)
            && value_of(j) == JsonValue::Object(edit_members(*title, *body, draft, prerelease, *tag, *target))),
{
    let mut e = no_members();
    push_opt(&mut e, "name", title);
    push_opt(&mut e, "body", body);
    push_bool(&mut e, "draft", draft);
    push_bool(&mut e, "prerelease", prerelease);
    push_opt(&mut e, "tag_name", tag);
    push_opt(&mut e, "target_commitish", target);
    assert(members_of(e@) =~= edit_members(*title, *body, draft, prerelease, *tag, *target));
    if e.len() == 0 {
        return Err("no changes specified; use --title, --notes, --draft, --prerelease, --tag, or --target".to_owned());
    }
    Ok(Json::Object(e))
}

/// A member present only when `on`.
pub open spec fn flag_entry(key: Seq<char>, on: bool) -> Seq<(Seq<char>, JsonValue)> {
    if on { seq![(key, JsonValue::Bool(true))] } else { Seq::empty() }
}

/// What creating a release sends: the tag, the name (the title, else the
/// tag), and the options given.
pub open spec fn create_members(tag: Seq<char>, title: Option<String>, body: Option<String>, draft: bool, prerelease: bool,
    target: Option<String>, category: Option<String>) -> Seq<(Seq<char>, JsonValue)>
{
    seq![("tag_name"@, str_value(tag)), ("name"@, str_value(match title { Some(t) => t@, None => tag }))]
        + optional_member("body"@, body) + flag_entry("draft"@, draft) + flag_entry("prerelease"@, prerelease)
        + optional_member("target_commitish"@, target) + optional_member("discussion_category_name"@, category)
}

/// The body that creates a release.
pub fn create_body(tag: &str, title: &Option<String>, body: &Option<String>, draft: bool, prerelease: bool,
    target: &Option<String>, category: &Option<String>) -> (r: Json)
    ensures
        value_of(r) == JsonValue::Object(create_members(tag@, *title, *body, draft, prerelease, *target, *category)),
{
    let mut e = no_members();
    push_member(&mut e, "tag_name", string_json(tag));
    let name: &str = match title {
        Some(t) => t.as_str(),
        None => tag,
    };
    push_member(&mut e, "name", string_json(name));
    push_opt(&mut e, "body", body);
    push_bool(&mut e, "draft", if draft { Some(true) } else { None });
    push_bool(&mut e, "prerelease", if prerelease { Some(true) } else { None });
    push_opt(&mut e, "target_commitish", target);
    push_opt(&mut e, "discussion_category_name", category);
    assert(members_of(e@) =~= create_members(tag@, *title, *body, draft, prerelease, *target, *category));
    Json::Object(e)
}

/// The page of a created or edited release, as printed.
pub open spec fn release_page(b: Json) -> Seq<char> {
    or_text(str_member(b, "html_url"@), "(unknown URL)"@)
}

/// What creating a release ends with: its page, or the failure.
pub open spec fn creation(owner: Seq<char>, repo: Seq<char>, resp: ApiResponse) -> Result<Seq<char>, Seq<char>> {
    if resp.status == 404 {
        Err("repository '"@ + repo_text(owner, repo) + "' not found"@)
    } else if !is_success(resp.status) {
        Err("failed to create release: "@ + reply_message(resp.body, "creation failed"@))
    } else {
        match resp.body {
            None => Err("failed to parse release response"@),
            Some(b) => Ok(release_page(b)),
        }
    }
}

/// The view of a text result.
pub open spec fn text_result(r: Result<String, String>) -> Result<Seq<char>, Seq<char>> {
    match r {
        Ok(t) => Ok(t@),
        Err(m) => Err(m@),
    }
}

/// Reads the reply to the creation.
pub fn create_result(spec: &RepoSplit, resp: &ApiResponse) -> (r: Result<String, String>)
    ensures
        text_result(r) == creation(spec.owner@, spec.repo@, *resp),
{
    if resp.status == 404 {
        return Err(quoted("repository '", spec, "' not found"));
    }
    if !(200 <= resp.status && resp.status <= 299) {
        let mut m = "failed to create release: ".to_owned();
        m.append(message_or(&resp.body, "creation failed").as_str());
        return Err(m);
    }
    match &resp.body {
        None => Err("failed to parse release response".to_owned()),
        Some(b) => Ok(text_or(b.str_member("html_url"), "(unknown URL)").to_owned()),
    }
}

/// What an edit ends with: the line it prints, or the failure.
pub open spec fn edition(release: Seq<char>, owner: Seq<char>, repo: Seq<char>, resp: ApiResponse) -> Result<Seq<char>, Seq<char>> {
    match status_error(resp.status, resp.status_text@, "release '"@ + release + "' not found in '"@ + repo_text(owner, repo) + "'"@,
        None, "failed to edit release '"@ + release + "'"@) {
        Some(m) => Err(m),
        None => match resp.body {
            None => Err("failed to parse response"@),
            Some(b) => Ok("\u{2713} Release updated: "@ + release_page(b)),
        },
    }
}

/// Reads the reply to an edit.
pub fn edit_result(release: &str, spec: &RepoSplit, resp: &ApiResponse) -> (r: Result<String, String>)
    ensures
        text_result(r) == edition(release@, spec.owner@, spec.repo@, *resp),
{
    let err = check_status(resp.status, resp.status_text.as_str(), release_not_found(release, spec), None,
        about_release("failed to edit release '", release).as_str());
    if let Some(m) = err {
        return Err(m);
    }
    match &resp.body {
        None => Err("failed to parse response".to_owned()),
        Some(b) => {
            let mut m = "\u{2713} Release updated: ".to_owned();
            m.append(text_or(b.str_member("html_url"), "(unknown URL)"));
            Ok(m)
        },
    }
}

// ---------------------------------------------------------------------------
// gor release upload
// ---------------------------------------------------------------------------

/// What `Path::file_name` gives for a path, as text.
pub uninterp spec fn path_file_name(path: Seq<char>) -> Option<Seq<char>>;

/// std's `Path::new(p).file_name()`, read as UTF-8 text (the input is
/// UTF-8, so the text is whole); the result is named [`path_file_name`] of
/// the path's characters and nothing more is claimed of it.
#[verifier::external_body]
fn file_name_of(path: &str) -> (r: Option<String>)
    ensures
        match r {
            Some(n) => path_file_name(path@) == Some(n@),
            None => path_file_name(path@) is None,
        },
{
    std::path::Path::new(path).file_name().and_then(|n| n.to_str()).map(|n| n.to_string())
}

/// Why an upload cannot start: no files, or one name for several files.
pub open spec fn upload_refusal(files: nat, name_given: bool) -> Option<Seq<char>> {
    if files == 0 {
        Some("no files specified for upload"@)
    } else if name_given && files > 1 {
        Some("--name can only be used with a single file upload"@)
    } else {
        None
    }
}

/// Tests [`upload_refusal`].
pub fn check_upload(files: &Vec<String>, name: &Option<String>) -> (r: Result<(), String>)
    ensures
        match upload_refusal(files@.len(), name is Some) {
            Some(m) => r matches Err(e) && e@ == m,
            None => r is Ok,
        },
{
    if files.len() == 0 {
        return Err("no files specified for upload".to_owned());
    }
    if name.is_some() && files.len() > 1 {
        return Err("--name can only be used with a single file upload".to_owned());
    }
    Ok(())
}

/// The name an uploaded file gets: the one given, else the file's name,
/// else the path as written.
pub open spec fn upload_name(name: Option<String>, path: Seq<char>) -> Seq<char> {
    match name {
        Some(n) => n@,
        None => match path_file_name(path) {
            Some(f) => f,
            None => path,
        },
    }
}

/// Computes [`upload_name`].
pub fn asset_file_name(name: &Option<String>, path: &str) -> (r: String)
    ensures
        r@ == upload_name(*name, path@),
{
    match name {
        Some(n) => n.clone(),
        None => match file_name_of(path) {
            Some(f) => f,
            None => path.to_owned(),
        },
    }
}

/// The content type of an upload: the one given, else the one that the
/// file name's extension suggests.
pub fn content_type(mime_type: &Option<String>, file_name: &str) -> (r: String)
    ensures
        r@ == (match mime_type {
            Some(m) => m@,
            None => mime_type_of(file_name@),
        }),
{
    match mime_type {
        Some(m) => m.clone(),
        None => detect_mime_type(file_name),
    }
}

/// The upload template of a release (`upload_url`), or why there is none.
pub open spec fn upload_template(body: Option<Json>) -> Result<Seq<char>, Seq<char>> {
    match body {
        None => Err("failed to parse release response"@),
        Some(b) => match str_member(b, "upload_url"@) {
            Some(u) => Ok(u),
            None => Err("release response missing 'upload_url'"@),
        },
    }
}

/// Reads [`upload_template`].
pub fn upload_url_template(body: &Option<Json>) -> (r: Result<String, String>)
    ensures
        text_result(r) == upload_template(*body),
{
    match body {
        None => Err("failed to parse release response".to_owned()),
        Some(b) => match b.str_member("upload_url") {
            Some(u) => Ok(u.to_owned()),
            None => Err("release response missing 'upload_url'".to_owned()),
        },
    }
}

/// The URL a file is uploaded to: the template with `{?name,label}` filled
/// in as `?name=FILE`.
pub open spec fn upload_url_of(template: Seq<char>, file_name: Seq<char>) -> Seq<char> {
    replaced(template, "{?name,label}"@, "?name="@ + file_name)
}

/// Builds [`upload_url_of`].
pub fn upload_url(template: &str, file_name: &str) -> (r: String)
    ensures
        r@ == upload_url_of(template@, file_name@),
{
    let mut rep = "?name=".to_owned();
    rep.append(file_name);
    proof { reveal_strlit("{?name,label}"); }
    replace_all(template, "{?name,label}", rep.as_str())
}

/// What an upload ends with: the asset's download URL, or the failure.
pub open spec fn uploaded(file_name: Seq<char>, tag: Seq<char>, resp: ApiResponse) -> Result<Seq<char>, Seq<char>> {
    if resp.status == 422 {
        Err("asset '"@ + file_name + "' already exists on release '"@ + tag
            + "'; use a different name or delete the existing asset first"@)
    } else if !is_success(resp.status) {
        Err("failed to upload '"@ + file_name + "': "@ + reply_message(resp.body, "upload failed"@))
    } else {
        match resp.body {
            None => Err("failed to parse asset response"@),
            Some(b) => Ok(or_text(str_member(b, "browser_download_url"@), "(unknown URL)"@)),
        }
    }
}

/// Reads the reply to an upload.
pub fn upload_result(file_name: &str, tag: &str, resp: &ApiResponse) -> (r: Result<String, String>)
    ensures
        text_result(r) == uploaded(file_name@, tag@, *resp),
{
    if resp.status == 422 {
        let mut m = "asset '".to_owned();
        m.append(file_name);
        m.append("' already exists on release '");
        m.append(tag);
        m.append("'; use a different name or delete the existing asset first");
        return Err(m);
    }
    if !(200 <= resp.status && resp.status <= 299) {
        let mut m = "failed to upload '".to_owned();
        m.append(file_name);
        m.append("': ");
        m.append(message_or(&resp.body, "upload failed").as_str());
        return Err(m);
    }
    match &resp.body {
        None => Err("failed to parse asset response".to_owned()),
        Some(b) => Ok(text_or(b.str_member("browser_download_url"), "(unknown URL)").to_owned()),
    }
}

// ---------------------------------------------------------------------------
// gor release download
// ---------------------------------------------------------------------------

/// The assets of a release (`assets`; none when absent).
pub open spec fn release_assets(b: Json) -> Seq<Json> {
    match member(b, "assets"@) {
        Json::Array(items) => items@,
        _ => Seq::empty(),
    }
}

/// The name an asset is matched by (empty when it has none).
pub open spec fn asset_match_name(a: Json) -> Seq<char> {
    or_text(str_member(a, "name"@), Seq::empty())
}

/// Whether some pattern matches `name`.
pub open spec fn any_pattern(patterns: Seq<String>, name: Seq<char>) -> bool {
    exists|i: int| 0 <= i < patterns.len() && glob_matches(#[trigger] patterns[i]@, name)
}

/// The assets that `patterns` select, in order (all of them when there are
/// no patterns).
pub open spec fn selected_assets(assets: Seq<Json>, patterns: Seq<String>) -> Seq<Json> {
    if patterns.len() == 0 {
        assets
    } else {
        assets.filter(|a: Json| any_pattern(patterns, asset_match_name(a)))
    }
}

fn any_pattern_matches(patterns: &Vec<String>, name: &str) -> (r: bool)
    ensures
        r == any_pattern(patterns@, name@),
{
    let mut i: usize = 0;
    while i < patterns.len()
        invariant
            i <= patterns@.len(),
            forall|k: int| 0 <= k < i ==> !glob_matches(#[trigger] patterns@[k]@, name@),
        decreases patterns.len() - i,
    {
        if glob_match(patterns[i].as_str(), name) {
            return true;
        }
        i = i + 1;
    }
    false
}

/// Selects the assets to download.
pub fn select_assets(assets: Vec<Json>, patterns: &Vec<String>) -> (r: Vec<Json>)
    ensures
        r@ == selected_assets(assets@, patterns@),
{
    if patterns.len() == 0 {
        return assets;
    }
    let ghost all = assets@;
    let mut out: Vec<Json> = Vec::new();
    let mut rest = assets;
    let mut i: usize = 0;
    let n = rest.len();
    assert(all.skip(0) == all);
    assert(all.take(0).filter(|a: Json| any_pattern(patterns@, asset_match_name(a))) =~= Seq::<Json>::empty());
    while rest.len() > 0
        invariant
            all.len() == n,
            all == assets@,
            patterns@.len() > 0,
            i + rest@.len() == all.len(),
            rest@ == all.skip(i as int),
            out@ == all.take(i as int).filter(|a: Json| any_pattern(patterns@, asset_match_name(a))),
        decreases rest.len(),
    {
        let a = rest.remove(0);
        assert(a == all[i as int]);
        assert(all.skip(i as int).remove(0) == all.skip(i + 1));
        assert(all.take(i + 1).drop_last() == all.take(i as int));
        reveal(Seq::filter);
        let name = text_or(a.str_member("name"), "");
        proof { reveal_strlit(""); }
        assert(name@ == asset_match_name(all[i as int]));
        if any_pattern_matches(patterns, name) {
            out.push(a);
        }
        i = i + 1;
    }
    assert(all.take(all.len() as int) == all);
    out
}

/// Why nothing is downloaded, when the selection is empty.
pub open spec fn nothing_to_download(patterns: Seq<String>) -> Seq<char> {
    if patterns.len() == 0 { "release has no assets to download"@ } else { "no assets match the given pattern(s)"@ }
}

/// What the download works on: the selected assets of the release the
/// reply describes, or the failure.
pub open spec fn download_selection(body: Option<Json>, patterns: Seq<String>) -> Result<Seq<Json>, Seq<char>> {
    match body {
        None => Err("failed to parse release response"@),
        Some(b) => {
            let sel = selected_assets(release_assets(b), patterns);
            if sel.len() == 0 { Err(nothing_to_download(patterns)) } else { Ok(sel) }
        },
    }
}

/// Reads the release to download from.
pub fn download_assets(body: Option<Json>, patterns: &Vec<String>) -> (r: Result<Vec<Json>, String>)
    ensures
        match download_selection(body, patterns@) {
            Ok(sel) => r matches Ok(v) && v@ == sel,
            Err(m) => r matches Err(e) && e@ == m,
        },
{
    match body {
        None => Err("failed to parse release response".to_owned()),
        Some(b) => {
            let assets = match take_member(b, "assets") {
                Json::Array(items) => items,
                _ => Vec::new(),
            };
            let sel = select_assets(assets, patterns);
            if sel.len() == 0 {
                if patterns.len() == 0 {
                    Err("release has no assets to download".to_owned())
                } else {
                    Err("no assets match the given pattern(s)".to_owned())
                }
            } else {
                Ok(sel)
            }
        },
    }
}

/// One asset to download.
#[derive(Debug)]
pub struct Download {
    /// Its file name (`unknown` when the asset has none).
    pub name: String,
    /// Where it is downloaded from.
    pub url: String,
    /// Its size in bytes (0 when unknown).
    pub size: u64,
}

/// What downloading an asset needs, or the failure when it has no URL.
pub fn asset_download(a: &Json) -> (r: Result<Download, String>)
    ensures
        match str_member(*a, "browser_download_url"@) {
            None => r matches Err(m) && m@ == "asset missing download URL"@,
            Some(u) => r matches Ok(d) && d.url@ == u
                && d.name@ == or_text(str_member(*a, "name"@), "unknown"@)
                && d.size == (match u64_member(*a, "size"@) { Some(n) => n, None => 0 }),
        },
{
    match a.str_member("browser_download_url") {
        None => Err("asset missing download URL".to_owned()),
        Some(u) => Ok(Download {
            name: text_or(a.str_member("name"), "unknown").to_owned(),
            url: u.to_owned(),
            size: match a.u64_member("size") {
                Some(n) => n,
                None => 0,
            },
        }),
    }
}

/// `Skipping NAME (already exists)`.
pub fn skipping_message(name: &str) -> (r: String)
    ensures
        r@ == "Skipping "@ + name@ + " (already exists)"@,
{
    let mut m = "Skipping ".to_owned();
    m.append(name);
    m.append(" (already exists)");
    m
}

/// What is printed before an asset goes up or comes down:
/// `Uploading NAME (SIZE) ... ` or `Downloading NAME (SIZE) ... `.
pub fn progress_message(uploading: bool, name: &str, bytes: u64) -> (r: String)
    ensures
        r@ == (if uploading { "Uploading "@ } else { "Downloading "@ }) + name@ + " ("@ + human_size(bytes)
            + ") ... "@,
{
    let mut m = if uploading { "Uploading ".to_owned() } else { "Downloading ".to_owned() };
    m.append(name);
    m.append(" (");
    m.append(format_size(bytes).as_str());
    m.append(") ... ");
    m
}

/// The failure of one download.
pub fn download_failure(name: &str, status_text: &str) -> (r: String)
    ensures
        r@ == http_failure("failed to download '"@ + name@ + "'"@, status_text@),
{
    http_failure_message(about_release("failed to download '", name).as_str(), status_text)
}

// ---------------------------------------------------------------------------
// gor release view
// ---------------------------------------------------------------------------

/// The web page of a release (`--web`).
pub open spec fn release_web_url(host: Seq<char>, owner: Seq<char>, repo: Seq<char>, release: Seq<char>) -> Seq<char> {
    "https://"@ + host + "/"@ + owner + "/"@ + repo + "/releases/tag/"@ + release
}

/// Builds [`release_web_url`].
pub fn web_url(host: &str, spec: &RepoSplit, release: &str) -> (r: String)
    ensures
        r@ == release_web_url(host@, spec.owner@, spec.repo@, release@),
{
    let mut u = "https://".to_owned();
    u.append(host);
    u.append("/");
    u.append(spec.owner.as_str());
    u.append("/");
    u.append(spec.repo.as_str());
    u.append("/releases/tag/");
    u.append(release);
    u
}

/// What the view reads of the reply to the lookup by ID.
pub open spec fn viewed_by_id(release: Seq<char>, owner: Seq<char>, repo: Seq<char>, resp: ApiResponse) -> Option<Seq<char>> {
    match status_error(resp.status, resp.status_text@, "release '"@ + release + "' not found in '"@ + repo_text(owner, repo) + "'"@,
        None, "failed to view release '"@ + release + "'"@) {
        Some(m) => Some(m),
        None => if resp.body is None { Some("failed to parse release response"@) } else { None },
    }
}

/// Reads the reply to the view's lookup by ID: the release, or the failure.
pub fn view_by_id(release: &str, spec: &RepoSplit, resp: ApiResponse) -> (r: Result<Json, String>)
    ensures
        match viewed_by_id(release@, spec.owner@, spec.repo@, resp) {
            Some(m) => r matches Err(e) && e@ == m,
            None => r == Ok::<Json, String>(resp.body->0),
        },
{
    let err = check_status(resp.status, resp.status_text.as_str(), release_not_found(release, spec), None,
        about_release("failed to view release '", release).as_str());
    if let Some(m) = err {
        return Err(m);
    }
    match resp.body {
        None => Err("failed to parse release response".to_owned()),
        Some(b) => Ok(b),
    }
}

/// The header of a release's asset table.
pub open spec fn asset_header() -> Seq<char> {
    "  "@ + pad_right("NAME"@, 40) + "  "@ + pad_left("SIZE"@, 12) + "  "@ + pad_left("DOWNLOADS"@, 12)
}

/// The size shown for an asset (see [`human_size`]), or the dash when it
/// has none.
pub open spec fn size_text(a: Json) -> Seq<char> {
    match u64_member(a, "size"@) {
        Some(n) => human_size(n),
        None => dash(),
    }
}

/// One row of the asset table.
pub open spec fn asset_row(a: Json) -> Seq<char> {
    let name = or_text(str_member(a, "name"@), dash());
    let downloads = match u64_member(a, "download_count"@) {
        Some(d) => decimal(d as nat),
        None => dash(),
    };
    "  "@ + pad_right(truncated(name, 40), 40) + "  "@ + pad_left(size_text(a), 12) + "  "@ + pad_left(downloads, 12)
}

/// The rows of the asset table.
pub open spec fn asset_rows(assets: Seq<Json>) -> Seq<Seq<char>> {
    assets.map_values(|a: Json| asset_row(a))
}

/// The view of a release: its metadata, notes and assets.
pub open spec fn release_view(r: Json) -> Seq<Seq<char>> {
    let body = or_text(str_member(r, "body"@), Seq::empty());
    seq![
        "Tag:       "@ + or_text(str_member(r, "tag_name"@), dash()),
        "Name:      "@ + or_text(str_member(r, "name"@), dash()),
        "Status:    "@ + release_status(r),
        "Published: "@ + date_or_dash(str_member(r, "published_at"@)),
        "Author:    "@ + or_text(str_member(member(r, "author"@), "login"@), dash()),
        "URL:       "@ + or_text(str_member(r, "html_url"@), dash()),
    ]
        + (if body.len() > 0 { seq![Seq::empty(), body] } else { Seq::empty() })
        + (match member(r, "assets"@) {
            Json::Array(items) => if items@.len() > 0 {
                seq![Seq::empty(), "Assets:"@, asset_header()] + asset_rows(items@)
            } else {
                Seq::empty()
            },
            _ => Seq::empty(),
        })
}

fn asset_row_line(a: &Json) -> (r: String)
    ensures
        r@ == asset_row(*a),
{
    let name = text_or(a.str_member("name"), "\u{2014}");
    let size = match a.u64_member("size") {
        Some(n) => format_size(n),
        None => "\u{2014}".to_owned(),
    };
    let downloads = match a.u64_member("download_count") {
        Some(d) => decimal_string(d),
        None => "\u{2014}".to_owned(),
    };
    let mut line = "  ".to_owned();
    push_padded_right(&mut line, truncate(name, 40).as_str(), 40);
    line.append("  ");
    push_padded_left(&mut line, size.as_str(), 12);
    line.append("  ");
    push_padded_left(&mut line, downloads.as_str(), 12);
    line
}

/// The lines that view a release.
pub fn release_view_lines(r: &Json) -> (lines: Vec<String>)
    ensures
        lines_of(lines@) == release_view(*r),
{
    let mut l = "Tag:       ".to_owned();
    l.append(text_or(r.str_member("tag_name"), "\u{2014}"));
    let mut lines = one_line(l);
    let mut l = "Name:      ".to_owned();
    l.append(text_or(r.str_member("name"), "\u{2014}"));
    push_line(&mut lines, l);
    let mut l = "Status:    ".to_owned();
    l.append(status_str(r));
    push_line(&mut lines, l);
    let mut l = "Published: ".to_owned();
    l.append(date_text(r.str_member("published_at")).as_str());
    push_line(&mut lines, l);
    let author = match r.get("author") {
        Some(a) => a.str_member("login"),
        None => {
            assert(str_member(Json::Null, "login"@) is None);
            None
        },
    };
    let mut l = "Author:    ".to_owned();
    l.append(text_or(author, "\u{2014}"));
    push_line(&mut lines, l);
    let mut l = "URL:       ".to_owned();
    l.append(text_or(r.str_member("html_url"), "\u{2014}"));
    push_line(&mut lines, l);
    let ghost head = lines_of(lines@);
    let body = text_or(r.str_member("body"), "");
    proof { reveal_strlit(""); }
    if !body.is_empty() {
        push_line(&mut lines, String::new());
        push_line(&mut lines, body.to_owned());
    }
    let ghost mid = lines_of(lines@);
    if let Some(Json::Array(items)) = r.get("assets") {
        if items.len() > 0 {
            push_line(&mut lines, String::new());
            push_line(&mut lines, "Assets:".to_owned());
            let mut h = "  ".to_owned();
            push_padded_right(&mut h, "NAME", 40);
            h.append("  ");
            push_padded_left(&mut h, "SIZE", 12);
            h.append("  ");
            push_padded_left(&mut h, "DOWNLOADS", 12);
            push_line(&mut lines, h);
            let ghost start = lines_of(lines@);
            let mut i: usize = 0;
            while i < items.len()
                invariant
                    i <= items@.len(),
                    lines_of(lines@) == start + asset_rows(items@.take(i as int)),
                decreases items.len() - i,
            {
                let row = asset_row_line(&items[i]);
                push_line(&mut lines, row);
                assert(asset_rows(items@.take(i + 1)) =~= asset_rows(items@.take(i as int)).push(asset_row(items@[i as int])));
                i = i + 1;
            }
            assert(items@.take(items@.len() as int) == items@);
        }
    }
    assert(lines_of(lines@) =~= release_view(*r));
    lines
}

} // verus!
