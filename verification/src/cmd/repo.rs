//! `gor repo`: viewing and listing repositories.
use vstd::prelude::*;
use vstd::string::*;
use crate::cmd::flow::{Step, asks_fields, array_items, fails_with, http_failure, http_failure_message, json_output,
    lines_of, one_line, prints, push_line, take_items};
use crate::cmd::issue::{check_status, date_or_dash, repo_text, status_error};
use crate::cmd::keys::{dash, or_text};
use crate::cmd::util::{truncate, truncated};
use crate::json::{Json, JsonValue, bool_member, member, str_member, u64_member, value_of, values_of};
use crate::output::{decimal, decimal_string, format_count, format_date, formatted_date, group_thousands};
use crate::repository::{RepoSplit, repo_path, repo_prefix};
use crate::request::{ApiResponse, is_success};
use crate::table::{pad_right, push_padded_right};
use crate::text::{eq_ascii_ci, eq_ignore_ascii_case, str_eq};

verus! {

// ---------------------------------------------------------------------------
// gor repo view
// ---------------------------------------------------------------------------

/// The failure of the repository request, if any.
pub open spec fn view_failure(owner: Seq<char>, repo: Seq<char>, resp: ApiResponse) -> Option<Seq<char>> {
    let t = repo_text(owner, repo);
    match status_error(resp.status, resp.status_text@, "repository '"@ + t + "' not found"@,
        Some("authentication required to view repository '"@ + t + "'"@), "failed to fetch repository '"@ + t + "'"@) {
        Some(m) => Some(m),
        None => if resp.body is None { Some("failed to parse repository response"@) } else { None },
    }
}

fn quoted(prefix: &str, spec: &RepoSplit, suffix: &str) -> (r: String)
    ensures
        r@ == prefix@ + repo_text(spec.owner@, spec.repo@) + suffix@,
{
    let mut m = prefix.to_owned();
    m.append(spec.owner.as_str());
    m.append("/");
    m.append(spec.repo.as_str());
    m.append(suffix);
    m
}

/// Reads the reply to the repository request: the repository, or the failure.
pub fn view_result(spec: &RepoSplit, resp: ApiResponse) -> (r: Result<Json, String>)
    ensures
        match view_failure(spec.owner@, spec.repo@, resp) {
            Some(m) => r matches Err(e) && e@ == m,
            None => r == Ok::<Json, String>(resp.body->0),
        },
{
    let err = check_status(resp.status, resp.status_text.as_str(), quoted("repository '", spec, "' not found"),
        Some(quoted("authentication required to view repository '", spec, "'")),
        quoted("failed to fetch repository '", spec, "'").as_str());
    if let Some(m) = err {
        return Err(m);
    }
    match resp.body {
        None => Err("failed to parse repository response".to_owned()),
        Some(b) => Ok(b),
    }
}

/// A count member, 0 when absent, with thousands separators.
pub open spec fn count_text(r: Json, key: Seq<char>) -> Seq<char> {
    group_thousands(decimal((match u64_member(r, key) { Some(n) => n, None => 0 }) as nat))
}

/// `private` or `public`.
pub open spec fn visibility_of(r: Json) -> Seq<char> {
    if bool_member(r, "private"@) == Some(true) { "private"@ } else { "public"@ }
}

/// The license shown: its SPDX id, else its name.
pub open spec fn license_of(r: Json) -> Seq<char> {
    let l = member(r, "license"@);
    match str_member(l, "spdx_id"@) {
        Some(s) => s,
        None => or_text(str_member(l, "name"@), dash()),
    }
}

/// What `gor repo view` prints.
pub open spec fn repo_view(r: Json) -> Seq<Seq<char>> {
    seq![
        "name:        "@ + or_text(str_member(r, "full_name"@), dash()),
        "description: "@ + or_text(str_member(r, "description"@), dash()),
        "url:         "@ + or_text(str_member(r, "html_url"@), dash()),
        "visibility:  "@ + visibility_of(r),
        "stars:       "@ + count_text(r, "stargazers_count"@),
        "forks:       "@ + count_text(r, "forks_count"@),
        "issues:      "@ + count_text(r, "open_issues_count"@),
        "language:    "@ + or_text(str_member(r, "language"@), dash()),
        "license:     "@ + license_of(r),
        "default:     "@ + or_text(str_member(r, "default_branch"@), dash()),
        "updated:     "@ + formatted_date(or_text(str_member(r, "pushed_at"@), dash())),
    ]
}

fn text_or<'a>(t: Option<&'a str>, d: &'a str) -> (r: &'a str)
    ensures
        r@ == or_text(match t { Some(x) => Some(x@), None => None }, d@),
{
    match t {
        Some(x) => x,
        None => d,
    }
}

fn line_of(prefix: &str, value: &str) -> (r: String)
    ensures
        r@ == prefix@ + value@,
{
    let mut l = prefix.to_owned();
    l.append(value);
    l
}

fn count_string(r: &Json, key: &str) -> (s: String)
    ensures
        s@ == count_text(*r, key@),
{
    format_count(match r.u64_member(key) {
        Some(n) => n,
        None => 0,
    })
}

/// The lines of `gor repo view`.
pub fn repo_view_lines(r: &Json) -> (lines: Vec<String>)
    ensures
        lines_of(lines@) == repo_view(*r),
{
    let vis: &str = if r.bool_member("private") == Some(true) { "private" } else { "public" };
    let license: &str = match r.get("license") {
        Some(l) => match l.str_member("spdx_id") {
            Some(s) => s,
            None => text_or(l.str_member("name"), "\u{2014}"),
        },
        None => {
            assert(str_member(Json::Null, "spdx_id"@) is None);
            assert(str_member(Json::Null, "name"@) is None);
            "\u{2014}"
        },
    };
    let mut lines = one_line(line_of("name:        ", text_or(r.str_member("full_name"), "\u{2014}")));
    push_line(&mut lines, line_of("description: ", text_or(r.str_member("description"), "\u{2014}")));
    push_line(&mut lines, line_of("url:         ", text_or(r.str_member("html_url"), "\u{2014}")));
    push_line(&mut lines, line_of("visibility:  ", vis));
    push_line(&mut lines, line_of("stars:       ", count_string(r, "stargazers_count").as_str()));
    push_line(&mut lines, line_of("forks:       ", count_string(r, "forks_count").as_str()));
    push_line(&mut lines, line_of("issues:      ", count_string(r, "open_issues_count").as_str()));
    push_line(&mut lines, line_of("language:    ", text_or(r.str_member("language"), "\u{2014}")));
    push_line(&mut lines, line_of("license:     ", license));
    push_line(&mut lines, line_of("default:     ", text_or(r.str_member("default_branch"), "\u{2014}")));
    let pushed = text_or(r.str_member("pushed_at"), "\u{2014}");
    push_line(&mut lines, line_of("updated:     ", format_date(pushed).as_str()));
    assert(lines_of(lines@) =~= repo_view(*r));
    lines
}

// ---------------------------------------------------------------------------
// gor repo list
// ---------------------------------------------------------------------------

/// What `gor repo list` filters by.
#[derive(Debug)]
pub struct RepoFilters {
    /// `all`, `public` or `private`.
    pub visibility: String,
    /// `include`, `exclude` or `only`.
    pub fork: String,
    /// The primary language (ASCII case ignored).
    pub language: Option<String>,
    /// The number asked for.
    pub limit: u32,
}

/// Whether a repository passes the filters.
pub open spec fn keeps_repo(r: Json, f: RepoFilters) -> bool {
    let private = bool_member(r, "private"@) == Some(true);
    let fork = bool_member(r, "fork"@) == Some(true);
    &&& (f.visibility@ == "public"@ ==> !private)
    &&& (f.visibility@ == "private"@ ==> private)
    &&& (f.fork@ == "exclude"@ ==> !fork)
    &&& (f.fork@ == "only"@ ==> fork)
    &&& (f.language matches Some(l) ==> (str_member(r, "language"@) matches Some(x) && eq_ignore_ascii_case(x, l@)))
}

/// The repositories that pass the filters, in order.
pub open spec fn kept_repos(rs: Seq<Json>, f: RepoFilters) -> Seq<Json>
    decreases rs.len(),
{
    if rs.len() == 0 {
        rs
    } else {
        let prev = kept_repos(rs.drop_last(), f);
        if keeps_repo(rs.last(), f) { prev.push(rs.last()) } else { prev }
    }
}

/// The repositories listed: those kept, at most `limit`.
pub open spec fn listed_repos(rs: Seq<Json>, f: RepoFilters) -> Seq<Json> {
    let k = kept_repos(rs, f);
    if k.len() <= f.limit { k } else { k.take(f.limit as int) }
}

/// Tests [`keeps_repo`].
pub fn keep_repo(r: &Json, f: &RepoFilters) -> (b: bool)
    ensures
        b == keeps_repo(*r, *f),
{
    let private = r.bool_member("private") == Some(true);
    let fork = r.bool_member("fork") == Some(true);
    proof {
        reveal_strlit("public");
        reveal_strlit("private");
        reveal_strlit("exclude");
        reveal_strlit("only");
    }
    if str_eq(f.visibility.as_str(), "public") && private {
        return false;
    }
    if str_eq(f.visibility.as_str(), "private") && !private {
        return false;
    }
    if str_eq(f.fork.as_str(), "exclude") && fork {
        return false;
    }
    if str_eq(f.fork.as_str(), "only") && !fork {
        return false;
    }
    if let Some(l) = &f.language {
        match r.str_member("language") {
            Some(x) => if !eq_ascii_ci(x, l.as_str()) { return false; },
            None => return false,
        }
    }
    true
}

/// Filters fetched repositories and applies the limit.
pub fn filter_repos(rs: Vec<Json>, f: &RepoFilters) -> (r: Vec<Json>)
    ensures
        r@ == listed_repos(rs@, *f),
{
    let ghost all = rs@;
    let mut out: Vec<Json> = Vec::new();
    let mut rest = rs;
    let mut i: usize = 0;
    let n = rest.len();
    assert(all.skip(0) == all);
    while rest.len() > 0
        invariant
            all.len() == n,
            i + rest@.len() == all.len(),
            rest@ == all.skip(i as int),
            out@ == kept_repos(all.take(i as int), *f),
        decreases rest.len(),
    {
        let r = rest.remove(0);
        assert(all.take(i + 1).drop_last() == all.take(i as int));
        assert(all.take(i + 1).last() == all[i as int]);
        assert(all.skip(i as int).remove(0) == all.skip(i + 1));
        if keep_repo(&r, f) {
            out.push(r);
        }
        i = i + 1;
    }
    assert(all.take(all.len() as int) == all);
    out.truncate(f.limit as usize);
    out
}

/// The header line of the repository table.
pub open spec fn repo_header() -> Seq<char> {
    pad_right("NAME"@, 30) + "  "@ + pad_right("DESCRIPTION"@, 50) + "  "@ + pad_right("VISIBILITY"@, 10) + "  "@
        + pad_right("LANGUAGE"@, 14) + "  "@ + pad_right("UPDATED"@, 16)
}

/// One row of the repository table.
pub open spec fn repo_row(r: Json) -> Seq<char> {
    pad_right(truncated(or_text(str_member(r, "full_name"@), dash()), 30), 30) + "  "@
        + pad_right(truncated(or_text(str_member(r, "description"@), dash()), 50), 50) + "  "@
        + pad_right(visibility_of(r), 10) + "  "@
        + pad_right(or_text(str_member(r, "language"@), dash()), 14) + "  "@
        + pad_right(date_or_dash(str_member(r, "updated_at"@)), 16)
}

/// What the repository list prints.
pub open spec fn repo_table(rs: Seq<Json>) -> Seq<Seq<char>> {
    if rs.len() == 0 {
        seq!["No repositories found."@]
    } else {
        seq![repo_header()] + rs.map_values(|r: Json| repo_row(r))
    }
}

fn repo_row_line(r: &Json) -> (l: String)
    ensures
        l@ == repo_row(*r),
{
    let vis: &str = if r.bool_member("private") == Some(true) { "private" } else { "public" };
    let updated = match r.str_member("updated_at") {
        Some(d) => format_date(d),
        None => "\u{2014}".to_owned(),
    };
    let mut line = String::new();
    push_padded_right(&mut line, truncate(text_or(r.str_member("full_name"), "\u{2014}"), 30).as_str(), 30);
    line.append("  ");
    push_padded_right(&mut line, truncate(text_or(r.str_member("description"), "\u{2014}"), 50).as_str(), 50);
    line.append("  ");
    push_padded_right(&mut line, vis, 10);
    line.append("  ");
    push_padded_right(&mut line, text_or(r.str_member("language"), "\u{2014}"), 14);
    line.append("  ");
    push_padded_right(&mut line, updated.as_str(), 16);
    line
}

/// The lines of the repository list.
pub fn repo_table_lines(rs: &Vec<Json>) -> (r: Vec<String>)
    ensures
        lines_of(r@) == repo_table(rs@),
{
    if rs.len() == 0 {
        return one_line("No repositories found.".to_owned());
    }
    let mut header = String::new();
    push_padded_right(&mut header, "NAME", 30);
    header.append("  ");
    push_padded_right(&mut header, "DESCRIPTION", 50);
    header.append("  ");
    push_padded_right(&mut header, "VISIBILITY", 10);
    header.append("  ");
    push_padded_right(&mut header, "LANGUAGE", 14);
    header.append("  ");
    push_padded_right(&mut header, "UPDATED", 16);
    let mut lines = one_line(header);
    let mut i: usize = 0;
    while i < rs.len()
        invariant
            i <= rs@.len(),
            rs@.len() > 0,
            lines_of(lines@) == seq![repo_header()] + rs@.take(i as int).map_values(|x: Json| repo_row(x)),
        decreases rs@.len() - i,
    {
        let row = repo_row_line(&rs[i]);
        push_line(&mut lines, row);
        assert(rs@.take(i + 1).map_values(|x: Json| repo_row(x))
            =~= rs@.take(i as int).map_values(|x: Json| repo_row(x)).push(repo_row(rs@[i as int])));
        i = i + 1;
    }
    assert(rs@.take(rs@.len() as int) == rs@);
    lines
}

/// What a listing prints of the repositories it got.
pub open spec fn repos_printed(step: Step, listed: Seq<Json>, json: Option<Vec<String>>) -> bool {
    if json is Some {
        step matches Step::PrintJson(j) && (if asks_fields(json) {
            j matches Json::Object(out) && out@.len() == 0
        } else {
            value_of(j) == JsonValue::Array(values_of(listed))
        })
    } else {
        prints(step, repo_table(listed))
    }
}

/// Filters and prints fetched repositories.
pub fn output_repos(rs: Vec<Json>, f: &RepoFilters, json: &Option<Vec<String>>) -> (r: Step)
    ensures
        repos_printed(r, listed_repos(rs@, *f), *json),
{
    let listed = filter_repos(rs, f);
    if json.is_some() {
        Step::PrintJson(json_output(Json::Array(listed), json))
    } else {
        Step::Print(repo_table_lines(&listed))
    }
}

/// `/users/OWNER/repos`, tried first for an owner.
pub fn user_repos_path(owner: &str) -> (r: String)
    ensures
        r@ == "/users/"@ + owner@ + "/repos"@,
{
    let mut p = "/users/".to_owned();
    p.append(owner);
    p.append("/repos");
    p
}

/// What the owner's first reply leads to: another listing of `path`
/// (`/orgs/OWNER/repos` when there is no such user), the repositories
/// printed, or the failure.
pub open spec fn owner_reply(owner: Seq<char>, f: RepoFilters, json: Option<Vec<String>>, resp: ApiResponse,
    r: Result<String, Step>) -> bool
{
    if resp.status == 404 {
        r matches Ok(p) && p@ == "/orgs/"@ + owner + "/repos"@
    } else if !is_success(resp.status) {
        r matches Err(s) && fails_with(s, http_failure("failed to fetch repositories for '"@ + owner + "'"@, resp.status_text@))
    } else {
        match array_items(resp.body) {
            None => r matches Err(s) && fails_with(s, "failed to parse repository response"@),
            Some(items) => r matches Err(s) && repos_printed(s, listed_repos(items@, f), json),
        }
    }
}

/// Reads the reply to `/users/OWNER/repos`.
pub fn owner_result(owner: &str, f: &RepoFilters, json: &Option<Vec<String>>, resp: ApiResponse) -> (r: Result<String, Step>)
    ensures
        owner_reply(owner@, *f, *json, resp, r),
{
    if resp.status == 404 {
        let mut p = "/orgs/".to_owned();
        p.append(owner);
        p.append("/repos");
        return Ok(p);
    }
    if !(200 <= resp.status && resp.status <= 299) {
        let mut m = "failed to fetch repositories for '".to_owned();
        m.append(owner);
        m.append("'");
        return Err(Step::Fail(http_failure_message(m.as_str(), resp.status_text.as_str())));
    }
    match take_items(resp.body) {
        None => Err(Step::Fail("failed to parse repository response".to_owned())),
        Some(items) => Err(output_repos(items, f, json)),
    }
}

/// The query of a listing: page size, type, the visibility unless `all`,
/// and the sort.
pub open spec fn list_query(f: RepoFilters) -> Seq<char> {
    "?per_page="@ + decimal(if f.limit < 100 { f.limit as nat } else { 100 }) + "&type=all"@
        + (if f.visibility@ != "all"@ { "&visibility="@ + f.visibility@ } else { Seq::empty() })
        + "&sort=updated"@
}

/// The full listing path for `base` (`/user/repos` or `/orgs/OWNER/repos`).
pub fn list_path(base: &str, f: &RepoFilters) -> (r: String)
    ensures
        r@ == base@ + list_query(*f),
{
    let mut p = base.to_owned();
    p.append("?per_page=");
    let n: u32 = if f.limit < 100 { f.limit } else { 100 };
    p.append(decimal_string(n as u64).as_str());
    p.append("&type=all");
    if !str_eq(f.visibility.as_str(), "all") {
        p.append("&visibility=");
        p.append(f.visibility.as_str());
    }
    p.append("&sort=updated");
    assert(p@ =~= base@ + list_query(*f));
    p
}

/// What the listing ends with, given its reply.
pub open spec fn list_ending(owner: Option<String>, f: RepoFilters, json: Option<Vec<String>>, resp: ApiResponse, step: Step) -> bool {
    if resp.status == 404 {
        fails_with(step, match owner {
            Some(o) => "user or organization '"@ + o@ + "' not found"@,
            None => "could not fetch repositories"@,
        })
    } else if resp.status == 401 || resp.status == 403 {
        fails_with(step, "authentication required to list repositories"@)
    } else if !is_success(resp.status) {
        fails_with(step, http_failure("failed to list repositories"@, resp.status_text@))
    } else {
        match array_items(resp.body) {
            None => fails_with(step, "failed to parse repository response"@),
            Some(items) => repos_printed(step, listed_repos(items@, f), json),
        }
    }
}

/// Reads the reply to the listing.
pub fn list_result(owner: &Option<String>, f: &RepoFilters, json: &Option<Vec<String>>, resp: ApiResponse) -> (r: Step)
    ensures
        list_ending(*owner, *f, *json, resp, r),
{
    if resp.status == 404 {
        return match owner {
            Some(o) => {
                let mut m = "user or organization '".to_owned();
                m.append(o.as_str());
                m.append("' not found");
                Step::Fail(m)
            },
            None => Step::Fail("could not fetch repositories".to_owned()),
        };
    }
    if resp.status == 401 || resp.status == 403 {
        return Step::Fail("authentication required to list repositories".to_owned());
    }
    if !(200 <= resp.status && resp.status <= 299) {
        return Step::Fail(http_failure_message("failed to list repositories", resp.status_text.as_str()));
    }
    match take_items(resp.body) {
        None => Step::Fail("failed to parse repository response".to_owned()),
        Some(items) => output_repos(items, f, json),
    }
}

} // verus!
