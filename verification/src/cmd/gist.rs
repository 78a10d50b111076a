//! `gor gist`: listing, creating and viewing gists.
use vstd::prelude::*;
use vstd::string::*;
use crate::cmd::flow::{Step, asks_fields, array_items, fails_with, http_failure, http_failure_message, json_output,
    lines_of, message_or, one_line, prints, push_line, reply_message, take_items};
use crate::cmd::issue::date_or_dash;
use crate::cmd::keys::{dash, or_text};
use crate::cmd::util::{truncate, truncated};
use crate::json::{Json, JsonValue, bool_member, entry_value, member, members_of, no_members, push_member, str_member,
    str_value, string_json, value_of, values_of};
use crate::output::{decimal, decimal_string, format_date, split_chars, split_on};
use crate::request::{ApiResponse, is_success};
use crate::table::{pad_left, pad_right, push_padded_left, push_padded_right};
use crate::text::{chars_of, string_of};

verus! {

// ---------------------------------------------------------------------------
// gor gist list
// ---------------------------------------------------------------------------

/// The path that lists gists: the user's, or the authenticated user's.
pub open spec fn list_path_of(user: Option<String>, limit: u32) -> Seq<char> {
    (match user {
        Some(u) => "/users/"@ + u@ + "/gists"@,
        None => "/gists"@,
    }) + "?per_page="@ + decimal(if limit < 100 { limit as nat } else { 100 })
}

/// Builds [`list_path_of`].
pub fn list_path(user: &Option<String>, limit: u32) -> (r: String)
    ensures
        r@ == list_path_of(*user, limit),
{
    let mut p = match user {
        Some(u) => {
            let mut p = "/users/".to_owned();
            p.append(u.as_str());
            p.append("/gists");
            p
        },
        None => "/gists".to_owned(),
    };
    p.append("?per_page=");
    let n: u32 = if limit < 100 { limit } else { 100 };
    p.append(decimal_string(n as u64).as_str());
    p
}

/// Whether a gist is listed: only public ones with `--public` alone, only
/// secret ones with `--secret` alone, every one otherwise.
pub open spec fn keeps_gist(g: Json, public: bool, secret: bool) -> bool {
    let is_public = bool_member(g, "public"@) == Some(true);
    if public && !secret { is_public } else if secret && !public { !is_public } else { true }
}

/// The gists kept, in order.
pub open spec fn kept_gists(gs: Seq<Json>, public: bool, secret: bool) -> Seq<Json>
    decreases gs.len(),
{
    if gs.len() == 0 {
        gs
    } else {
        let prev = kept_gists(gs.drop_last(), public, secret);
        if keeps_gist(gs.last(), public, secret) { prev.push(gs.last()) } else { prev }
    }
}

/// The gists listed: those kept, at most `limit`.
pub open spec fn listed_gists(gs: Seq<Json>, public: bool, secret: bool, limit: u32) -> Seq<Json> {
    let k = kept_gists(gs, public, secret);
    if k.len() <= limit { k } else { k.take(limit as int) }
}

/// Filters fetched gists and applies the limit.
pub fn filter_gists(gs: Vec<Json>, public: bool, secret: bool, limit: u32) -> (r: Vec<Json>)
    ensures
        r@ == listed_gists(gs@, public, secret, limit),
{
    let ghost all = gs@;
    let mut out: Vec<Json> = Vec::new();
    let mut rest = gs;
    let mut i: usize = 0;
    let n = rest.len();
    assert(all.skip(0) == all);
    while rest.len() > 0
        invariant
            all.len() == n,
            i + rest@.len() == all.len(),
            rest@ == all.skip(i as int),
            out@ == kept_gists(all.take(i as int), public, secret),
        decreases rest.len(),
    {
        let g = rest.remove(0);
        assert(all.take(i + 1).drop_last() == all.take(i as int));
        assert(all.take(i + 1).last() == all[i as int]);
        assert(all.skip(i as int).remove(0) == all.skip(i + 1));
        let is_public = g.bool_member("public") == Some(true);
        let keep = if public && !secret { is_public } else if secret && !public { !is_public } else { true };
        if keep {
            out.push(g);
        }
        i = i + 1;
    }
    assert(all.take(all.len() as int) == all);
    out.truncate(limit as usize);
    out
}

/// The number of files of a gist (0 when `files` is no object).
pub open spec fn file_count(g: Json) -> nat {
    match member(g, "files"@) {
        Json::Object(entries) => entries@.len(),
        _ => 0,
    }
}

/// The header line of the gist table.
pub open spec fn gist_header() -> Seq<char> {
    pad_right("ID"@, 16) + "  "@ + pad_right("DESCRIPTION"@, 40) + "  "@ + pad_left("FILES"@, 8) + "  "@
        + pad_left("UPDATED"@, 16)
}

/// One row of the gist table.
pub open spec fn gist_row(g: Json) -> Seq<char> {
    pad_right(or_text(str_member(g, "id"@), dash()), 16) + "  "@
        + pad_right(truncated(or_text(str_member(g, "description"@), dash()), 40), 40) + "  "@
        + pad_left(decimal(file_count(g)), 8) + "  "@ + pad_left(date_or_dash(str_member(g, "updated_at"@)), 16)
}

/// What the gist list prints.
pub open spec fn gist_table(gs: Seq<Json>) -> Seq<Seq<char>> {
    if gs.len() == 0 {
        seq!["No gists found."@]
    } else {
        seq![gist_header()] + gs.map_values(|g: Json| gist_row(g))
    }
}

fn text_or<'a>(t: Option<&'a str>, d: &'a str) -> (r: &'a str)
    ensures
        r@ == or_text(match t { Some(x) => Some(x@), None => None }, d@),
{
    match t {
        Some(x) => x,
        None => d,
    }
}

fn count_files(g: &Json) -> (n: usize)
    ensures
        n == file_count(*g),
{
    match g.get("files") {
        Some(Json::Object(entries)) => entries.len(),
        _ => 0,
    }
}

fn gist_row_line(g: &Json) -> (r: String)
    ensures
        r@ == gist_row(*g),
{
    let updated = match g.str_member("updated_at") {
        Some(d) => format_date(d),
        None => "\u{2014}".to_owned(),
    };
    let mut line = String::new();
    push_padded_right(&mut line, text_or(g.str_member("id"), "\u{2014}"), 16);
    line.append("  ");
    push_padded_right(&mut line, truncate(text_or(g.str_member("description"), "\u{2014}"), 40).as_str(), 40);
    line.append("  ");
    push_padded_left(&mut line, decimal_string(count_files(g) as u64).as_str(), 8);
    line.append("  ");
    push_padded_left(&mut line, updated.as_str(), 16);
    line
}

/// The lines of the gist list.
pub fn gist_table_lines(gs: &Vec<Json>) -> (r: Vec<String>)
    ensures
        lines_of(r@) == gist_table(gs@),
{
    if gs.len() == 0 {
        return one_line("No gists found.".to_owned());
    }
    let mut header = String::new();
    push_padded_right(&mut header, "ID", 16);
    header.append("  ");
    push_padded_right(&mut header, "DESCRIPTION", 40);
    header.append("  ");
    push_padded_left(&mut header, "FILES", 8);
    header.append("  ");
    push_padded_left(&mut header, "UPDATED", 16);
    let mut lines = one_line(header);
    let mut i: usize = 0;
    while i < gs.len()
        invariant
            i <= gs@.len(),
            gs@.len() > 0,
            lines_of(lines@) == seq![gist_header()] + gs@.take(i as int).map_values(|x: Json| gist_row(x)),
        decreases gs@.len() - i,
    {
        push_line(&mut lines, gist_row_line(&gs[i]));
        assert(gs@.take(i + 1).map_values(|x: Json| gist_row(x))
            =~= gs@.take(i as int).map_values(|x: Json| gist_row(x)).push(gist_row(gs@[i as int])));
        i = i + 1;
    }
    assert(gs@.take(gs@.len() as int) == gs@);
    lines
}

/// What `gor gist list` ends with, given the reply to its request.
pub open spec fn list_ending(public: bool, secret: bool, limit: u32, json: Option<Vec<String>>, resp: ApiResponse, step: Step) -> bool {
    if !is_success(resp.status) {
        fails_with(step, http_failure("failed to list gists"@, resp.status_text@))
    } else {
        match array_items(resp.body) {
            None => fails_with(step, "failed to parse gists response"@),
            Some(items) => {
                let listed = listed_gists(items@, public, secret, limit);
                if json is Some {
                    step matches Step::PrintJson(j) && (if asks_fields(json) {
                        j matches Json::Object(out) && out@.len() == 0
                    } else {
                        value_of(j) == JsonValue::Array(values_of(listed))
                    })
                } else {
                    prints(step, gist_table(listed))
                }
            },
        }
    }
}

/// Reads the reply to the gist listing.
pub fn list_result(public: bool, secret: bool, limit: u32, json: &Option<Vec<String>>, resp: ApiResponse) -> (r: Step)
    ensures
        list_ending(public, secret, limit, *json, resp, r),
{
    if !(200 <= resp.status && resp.status <= 299) {
        return Step::Fail(http_failure_message("failed to list gists", resp.status_text.as_str()));
    }
    match take_items(resp.body) {
        None => Step::Fail("failed to parse gists response".to_owned()),
        Some(items) => {
            let listed = filter_gists(items, public, secret, limit);
            if json.is_some() {
                Step::PrintJson(json_output(Json::Array(listed), json))
            } else {
                Step::Print(gist_table_lines(&listed))
            }
        },
    }
}

// ---------------------------------------------------------------------------
// gor gist create
// ---------------------------------------------------------------------------

/// Refuses a creation without files: `no files specified for gist
/// creation`.
pub fn check_files(paths: &Vec<String>) -> (r: Result<(), String>)
    ensures
        paths@.len() == 0 ==> (r matches Err(m) && m@ == "no files specified for gist creation"@),
        paths@.len() > 0 ==> r is Ok,
{
    if paths.len() == 0 {
        Err("no files specified for gist creation".to_owned())
    } else {
        Ok(())
    }
}

/// The name a file gets in a new gist: with a single file, the name given
/// (else its path); with several, each its path.
pub open spec fn gist_file_name(paths: Seq<String>, i: int, filename: Option<String>) -> Seq<char> {
    if paths.len() == 1 {
        match filename {
            Some(f) => f@,
            None => paths[i]@,
        }
    } else {
        paths[i]@
    }
}

/// The `files` member of a new gist: each file under its name, with its
/// contents.
pub open spec fn gist_files(paths: Seq<String>, contents: Seq<String>, filename: Option<String>) -> Seq<(Seq<char>, JsonValue)> {
    Seq::new(paths.len(), |i: int| (gist_file_name(paths, i, filename),
        JsonValue::Object(seq![("content"@, str_value(contents[i]@))])))
}

/// The body that creates a gist.
pub open spec fn create_body_of(paths: Seq<String>, contents: Seq<String>, filename: Option<String>, public: bool,
    description: Option<String>) -> JsonValue
{
    JsonValue::Object(seq![("public"@, JsonValue::Bool(public)), ("files"@, JsonValue::Object(gist_files(paths, contents, filename)))]
        + match description {
            Some(d) => seq![("description"@, str_value(d@))],
            None => Seq::empty(),
        })
}

/// Builds the body that creates a gist from the files read (`contents[i]`
/// is the text of `paths[i]`); there must be at least one file.
pub fn create_body(paths: &Vec<String>, contents: &Vec<String>, filename: &Option<String>, public: bool,
    description: &Option<String>) -> (r: Json)
    requires
        paths@.len() == contents@.len(),
    ensures
        value_of(r) == create_body_of(paths@, contents@, *filename, public, *description),
{
    let mut files = no_members();
    let mut i: usize = 0;
    while i < paths.len()
        invariant
            i <= paths@.len(),
            paths@.len() == contents@.len(),
            members_of(files@) == gist_files(paths@, contents@, *filename).take(i as int),
        decreases paths.len() - i,
    {
        let name: &str = if paths.len() == 1 {
            match filename {
                Some(f) => f.as_str(),
                None => paths[i].as_str(),
            }
        } else {
            paths[i].as_str()
        };
        let mut entry = no_members();
        push_member(&mut entry, "content", string_json(contents[i].as_str()));
        push_member(&mut files, name, Json::Object(entry));
        assert(gist_files(paths@, contents@, *filename).take(i + 1)
            =~= gist_files(paths@, contents@, *filename).take(i as int).push(gist_files(paths@, contents@, *filename)[i as int]));
        i = i + 1;
    }
    assert(gist_files(paths@, contents@, *filename).take(paths@.len() as int) =~= gist_files(paths@, contents@, *filename));
    let mut body = no_members();
    push_member(&mut body, "public", Json::Bool(public));
    push_member(&mut body, "files", Json::Object(files));
    if let Some(d) = description {
        push_member(&mut body, "description", string_json(d.as_str()));
    }
    assert(members_of(body@) =~= seq![("public"@, JsonValue::Bool(public)), ("files"@, JsonValue::Object(gist_files(paths@, contents@, *filename)))]
        + match *description {
            Some(d) => seq![("description"@, str_value(d@))],
            None => Seq::empty(),
        });
    Json::Object(body)
}

/// What creating a gist ends with: its page (empty when the reply has
/// none), or the failure.
pub open spec fn creation(resp: ApiResponse) -> Result<Seq<char>, Seq<char>> {
    if !is_success(resp.status) {
        Err("failed to create gist: "@ + reply_message(resp.body, "creation failed"@))
    } else {
        match resp.body {
            None => Err("failed to parse gist response"@),
            Some(b) => Ok(or_text(str_member(b, "html_url"@), Seq::empty())),
        }
    }
}

/// Reads the reply to the creation.
pub fn create_result(resp: &ApiResponse) -> (r: Result<String, String>)
    ensures
        match creation(*resp) {
            Ok(u) => r matches Ok(s) && s@ == u,
            Err(e) => r matches Err(m) && m@ == e,
        },
{
    if !(200 <= resp.status && resp.status <= 299) {
        let mut m = "failed to create gist: ".to_owned();
        m.append(message_or(&resp.body, "creation failed").as_str());
        return Err(m);
    }
    match &resp.body {
        None => Err("failed to parse gist response".to_owned()),
        Some(b) => {
            proof { reveal_strlit(""); }
            Ok(text_or(b.str_member("html_url"), "").to_owned())
        },
    }
}

// ---------------------------------------------------------------------------
// gor gist view
// ---------------------------------------------------------------------------

/// The lines of a text, as `str::lines` yields them: split at each line
/// feed, a carriage return before a line feed dropped, and no line after a
/// final line feed.
pub open spec fn text_lines(s: Seq<char>) -> Seq<Seq<char>> {
    let parts = split_on(s, '\n');
    let n = parts.len();
    let kept = if parts[n - 1].len() == 0 { (n - 1) as nat } else { n };
    Seq::new(kept, |i: int| if i < n - 1 && parts[i].len() > 0 && parts[i].last() == '\r' { parts[i].drop_last() } else { parts[i] })
}

/// What `gor gist view` shows.
pub enum GistShown {
    /// Open this page.
    Open(String),
    /// Print this text as it is (`--raw`).
    Raw(String),
    /// Print this document as JSON.
    Json(Json),
    /// Print these lines.
    Lines(Vec<String>),
}

/// The lines that describe a gist's file.
pub open spec fn file_block(name: Seq<char>, info: Json) -> Seq<Seq<char>> {
    seq![Seq::empty(), "  "@ + name + " ("@ + or_text(str_member(info, "language"@), "Unknown"@) + "):"@]
        + text_lines(or_text(str_member(info, "content"@), Seq::empty())).map_values(|l: Seq<char>| "    "@ + l)
}

/// The blocks of a gist's files, in order.
pub open spec fn file_blocks(files: Seq<(String, Json)>) -> Seq<Seq<char>>
    decreases files.len(),
{
    if files.len() == 0 { Seq::empty() } else { file_blocks(files.drop_last()) + file_block(files.last().0@, files.last().1) }
}

/// The text `--raw` prints: the content of the named file, else of the
/// first file; or why there is none.
pub open spec fn raw_content(g: Json, filename: Option<String>) -> Result<Seq<char>, Seq<char>> {
    match member(g, "files"@) {
        Json::Object(entries) => match filename {
            Some(n) => match entry_value(entries@, n@) {
                Some(f) => Ok(or_text(str_member(f, "content"@), Seq::empty())),
                None => Err("file '"@ + n@ + "' not found in gist"@),
            },
            None => if entries@.len() > 0 {
                Ok(or_text(str_member(entries@[0].1, "content"@), Seq::empty()))
            } else {
                Err("gist has no files"@)
            },
        },
        _ => Err("gist has no files"@),
    }
}

/// The description and files of a gist, as the view prints them.
pub open spec fn described(g: Json) -> Result<Seq<Seq<char>>, Seq<char>> {
    match member(g, "files"@) {
        Json::Object(entries) => Ok(seq!["Description: "@ + or_text(str_member(g, "description"@), "No description"@), "Files:"@]
            + file_blocks(entries@)),
        _ => Err("gist has no files"@),
    }
}

/// Whether `r` is what `gor gist view` shows of gist `g`: its page with
/// `--web` (when it has one), else the raw text with `--raw`, else the JSON
/// with `--json`, else the description and files.
pub open spec fn gist_view(g: Json, raw: bool, filename: Option<String>, web: bool, json: Option<Vec<String>>,
    r: Result<GistShown, String>) -> bool
{
    if web && str_member(g, "html_url"@) is Some {
        r matches Ok(GistShown::Open(u)) && Some(u@) == str_member(g, "html_url"@)
    } else if raw {
        match raw_content(g, filename) {
            Ok(t) => r matches Ok(GistShown::Raw(x)) && x@ == t,
            Err(m) => r matches Err(e) && e@ == m,
        }
    } else if json is Some {
        r matches Ok(GistShown::Json(j)) && (if asks_fields(json) {
            j matches Json::Object(out) && out@ == (match g {
                Json::Object(entries) => crate::json::selection(entries@, json->0@),
                _ => Seq::empty(),
            })
        } else {
            j == g
        })
    } else {
        match described(g) {
            Ok(ls) => r matches Ok(GistShown::Lines(v)) && lines_of(v@) == ls,
            Err(m) => r matches Err(e) && e@ == m,
        }
    }
}

proof fn lemma_split_nonempty(s: Seq<char>, sep: char)
    ensures
        split_on(s, sep).len() >= 1,
    decreases s.len(),
{
    if s.len() > 0 {
        lemma_split_nonempty(s.drop_last(), sep);
    }
}

/// The lines of a text, as `str::lines` yields them.
pub fn lines_of_text(s: &str) -> (r: Vec<String>)
    ensures
        lines_of(r@) == text_lines(s@),
{
    let v = chars_of(s);
    let parts = split_chars(&v, '\n');
    proof { lemma_split_nonempty(s@, '\n'); }
    let n = parts.len();
    let kept: usize = if parts[n - 1].len() == 0 { n - 1 } else { n };
    let mut out: Vec<String> = Vec::new();
    let mut i: usize = 0;
    while i < kept
        invariant
            kept <= n,
            n == parts@.len(),
            n == split_on(s@, '\n').len(),
            forall|k: int| 0 <= k < n ==> #[trigger] parts@[k]@ == split_on(s@, '\n')[k],
            kept == (if split_on(s@, '\n')[n - 1].len() == 0 { (n - 1) as nat } else { n as nat }),
            i <= kept,
            lines_of(out@) == text_lines(s@).take(i as int),
        decreases kept - i,
    {
        let p = &parts[i];
        let line = if i + 1 < n && p.len() > 0 && p[p.len() - 1] == '\r' {
            let mut w: Vec<char> = Vec::new();
            let mut k: usize = 0;
            while k + 1 < p.len()
                invariant
                    k + 1 <= p@.len(),
                    w@ == p@.take(k as int),
                decreases p.len() - k,
            {
                w.push(p[k]);
                k = k + 1;
                assert(p@.take(k as int) == p@.take(k - 1).push(p@[k - 1]));
            }
            assert(w@ == p@.drop_last());
            string_of(w.as_slice())
        } else {
            string_of(p.as_slice())
        };
        push_line(&mut out, line);
        assert(text_lines(s@).take(i + 1) =~= text_lines(s@).take(i as int).push(text_lines(s@)[i as int]));
        i = i + 1;
    }
    assert(text_lines(s@).take(kept as int) =~= text_lines(s@));
    out
}

fn file_block_lines(name: &str, info: &Json) -> (r: Vec<String>)
    ensures
        lines_of(r@) == file_block(name@, *info),
{
    let mut lines = one_line(String::new());
    let mut h = "  ".to_owned();
    h.append(name);
    h.append(" (");
    h.append(text_or(info.str_member("language"), "Unknown"));
    h.append("):");
    push_line(&mut lines, h);
    proof { reveal_strlit(""); }
    let content_lines = lines_of_text(text_or(info.str_member("content"), ""));
    let ghost start = lines_of(lines@);
    let ghost cl = lines_of(content_lines@);
    let mut i: usize = 0;
    while i < content_lines.len()
        invariant
            i <= content_lines@.len(),
            cl == lines_of(content_lines@),
            lines_of(lines@) == start + cl.take(i as int).map_values(|l: Seq<char>| "    "@ + l),
        decreases content_lines.len() - i,
    {
        let mut l = "    ".to_owned();
        l.append(content_lines[i].as_str());
        push_line(&mut lines, l);
        assert(cl.take(i + 1).map_values(|l: Seq<char>| "    "@ + l)
            =~= cl.take(i as int).map_values(|l: Seq<char>| "    "@ + l).push("    "@ + cl[i as int]));
        i = i + 1;
    }
    assert(cl.take(cl.len() as int) == cl);
    assert(lines_of(lines@) =~= file_block(name@, *info));
    lines
}

fn push_lines(lines: &mut Vec<String>, more: Vec<String>)
    ensures
        lines_of(final(lines)@) == lines_of(old(lines)@) + lines_of(more@),
{
    let mut i: usize = 0;
    while i < more.len()
        invariant
            i <= more@.len(),
            lines_of(lines@) == lines_of(old(lines)@) + lines_of(more@.take(i as int)),
        decreases more.len() - i,
    {
        push_line(lines, more[i].clone());
        assert(lines_of(more@.take(i + 1)) =~= lines_of(more@.take(i as int)).push(more@[i as int]@));
        i = i + 1;
    }
    assert(more@.take(more@.len() as int) == more@);
}

fn find_file<'a>(entries: &'a Vec<(String, Json)>, name: &str) -> (r: Option<&'a Json>)
    ensures
        match r {
            Some(v) => entry_value(entries@, name@) == Some(*v),
            None => entry_value(entries@, name@) is None,
        },
{
    let mut i: usize = 0;
    assert(entries@.skip(0) == entries@);
    while i < entries.len()
        invariant
            i <= entries@.len(),
            entry_value(entries@, name@) == entry_value(entries@.skip(i as int), name@),
        decreases entries.len() - i,
    {
        assert(entries@.skip(i as int)[0] == entries@[i as int]);
        if crate::text::str_eq(entries[i].0.as_str(), name) {
            return Some(&entries[i].1);
        }
        assert(entries@.skip(i as int).drop_first() == entries@.skip(i + 1));
        i = i + 1;
    }
    None
}

fn raw_text(g: &Json, filename: &Option<String>) -> (r: Result<String, String>)
    ensures
        match raw_content(*g, *filename) {
            Ok(t) => r matches Ok(x) && x@ == t,
            Err(m) => r matches Err(e) && e@ == m,
        },
{
    proof { reveal_strlit(""); }
    match g.get("files") {
        Some(Json::Object(entries)) => match filename {
            Some(n) => match find_file(entries, n.as_str()) {
                Some(f) => Ok(text_or(f.str_member("content"), "").to_owned()),
                None => {
                    let mut m = "file '".to_owned();
                    m.append(n.as_str());
                    m.append("' not found in gist");
                    Err(m)
                },
            },
            None => if entries.len() > 0 {
                Ok(text_or(entries[0].1.str_member("content"), "").to_owned())
            } else {
                Err("gist has no files".to_owned())
            },
        },
        _ => Err("gist has no files".to_owned()),
    }
}

fn described_lines(g: &Json) -> (r: Result<Vec<String>, String>)
    ensures
        match described(*g) {
            Ok(ls) => r matches Ok(v) && lines_of(v@) == ls,
            Err(m) => r matches Err(e) && e@ == m,
        },
{
    let mut d = "Description: ".to_owned();
    d.append(text_or(g.str_member("description"), "No description"));
    let mut lines = one_line(d);
    push_line(&mut lines, "Files:".to_owned());
    match g.get("files") {
        Some(Json::Object(entries)) => {
            let ghost start = lines_of(lines@);
            let mut i: usize = 0;
            while i < entries.len()
                invariant
                    i <= entries@.len(),
                    lines_of(lines@) == start + file_blocks(entries@.take(i as int)),
                decreases entries.len() - i,
            {
                push_lines(&mut lines, file_block_lines(entries[i].0.as_str(), &entries[i].1));
                assert(entries@.take(i + 1).drop_last() == entries@.take(i as int));
                assert(entries@.take(i + 1).last() == entries@[i as int]);
                i = i + 1;
            }
            assert(entries@.take(entries@.len() as int) == entries@);
            Ok(lines)
        },
        _ => Err("gist has no files".to_owned()),
    }
}

/// Shows a gist as `gor gist view` asks.
pub fn view_gist(g: Json, raw: bool, filename: &Option<String>, web: bool, json: &Option<Vec<String>>) -> (r: Result<GistShown, String>)
    ensures
        gist_view(g, raw, *filename, web, *json, r),
{
    if web {
        if let Some(u) = g.str_member("html_url") {
            return Ok(GistShown::Open(u.to_owned()));
        }
    }
    if raw {
        return match raw_text(&g, filename) {
            Ok(t) => Ok(GistShown::Raw(t)),
            Err(m) => Err(m),
        };
    }
    if json.is_some() {
        return Ok(GistShown::Json(json_output(g, json)));
    }
    match described_lines(&g) {
        Ok(v) => Ok(GistShown::Lines(v)),
        Err(m) => Err(m),
    }
}

/// The failure of the gist request, if any.
pub open spec fn view_failure(resp: ApiResponse) -> Option<Seq<char>> {
    if !is_success(resp.status) {
        Some("failed to view gist: "@ + reply_message(resp.body, "view failed"@))
    } else if resp.body is None {
        Some("failed to parse gist response"@)
    } else {
        None
    }
}

/// Reads the reply to the gist request: the gist, or the failure.
pub fn view_result(resp: ApiResponse) -> (r: Result<Json, String>)
    ensures
        match view_failure(resp) {
            Some(m) => r matches Err(e) && e@ == m,
            None => r == Ok::<Json, String>(resp.body->0),
        },
{
    if !(200 <= resp.status && resp.status <= 299) {
        let mut m = "failed to view gist: ".to_owned();
        m.append(message_or(&resp.body, "view failed").as_str());
        return Err(m);
    }
    match resp.body {
        None => Err("failed to parse gist response".to_owned()),
        Some(b) => Ok(b),
    }
}

} // verus!
