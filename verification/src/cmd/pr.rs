//! `gor pr list`: the pull requests of a repository.
use vstd::prelude::*;
use vstd::string::*;
use crate::cmd::flow::{Step, asks_fields, array_items, fails_with, json_output, lines_of, one_line, prints,
    push_line, take_items};
use crate::cmd::issue::{check_status, has_name_ci, login_of, names_or_dash, number_text, opt_param, per_page,
    repo_text, status_error};
use crate::cmd::keys::{dash, or_text};
use crate::cmd::util::{truncate, truncated};
use crate::json::{Json, JsonValue, collect_nested_texts, member, nested_texts, str_member, texts_of, u64_member,
    value_of, values_of};
use crate::output::{decimal, decimal_string};
use crate::repository::{RepoSplit, repo_path, repo_prefix};
use crate::request::ApiResponse;
use crate::table::{pad_left, pad_right, push_padded_left, push_padded_right};
use crate::text::{eq_ascii_ci, eq_ignore_ascii_case, join_strings, join_with, str_eq};

verus! {

/// What `gor pr list` filters by.
#[derive(Debug)]
pub struct PrFilters {
    /// `open`, `closed`, `merged` or `all`.
    pub state: String,
    /// The base branch.
    pub base: Option<String>,
    /// The head branch.
    pub head: Option<String>,
    /// The login of the author.
    pub author: Option<String>,
    /// Labels every listed pull request carries.
    pub labels: Vec<String>,
    /// A login among the assignees.
    pub assignee: Option<String>,
    /// The number asked for (at most 100 per page).
    pub limit: u32,
}

/// The state the API is asked for: `all` for `merged`, which the API does
/// not know and which is filtered here.
pub open spec fn api_state(state: Seq<char>) -> Seq<char> {
    if state == "merged"@ { "all"@ } else { state }
}

/// The path that lists the pull requests.
pub open spec fn list_path_of(owner: Seq<char>, repo: Seq<char>, f: PrFilters) -> Seq<char> {
    repo_prefix(owner, repo) + "/pulls?"@ + join_with(
        seq!["state="@ + api_state(f.state@), "per_page="@ + decimal(per_page(f.limit))]
            + opt_param("base"@, f.base) + opt_param("head"@, f.head),
        "&"@)
}

fn push_opt_param(params: &mut Vec<String>, name: &str, value: &Option<String>)
    ensures
        texts_of(final(params)@) == texts_of(old(params)@) + opt_param(name@, *value),
{
    match value {
        Some(v) => {
            let mut p = name.to_owned();
            p.append("=");
            p.append(v.as_str());
            params.push(p);
        },
        None => {},
    }
    assert(texts_of(params@) =~= texts_of(old(params)@) + opt_param(name@, *value));
}

/// Builds [`list_path_of`].
pub fn list_path(spec: &RepoSplit, f: &PrFilters) -> (r: String)
    ensures
        r@ == list_path_of(spec.owner@, spec.repo@, *f),
{
    let mut params: Vec<String> = Vec::new();
    let mut st = "state=".to_owned();
    if str_eq(f.state.as_str(), "merged") {
        st.append("all");
    } else {
        st.append(f.state.as_str());
    }
    params.push(st);
    let n: u32 = if f.limit < 100 { f.limit } else { 100 };
    let mut pp = "per_page=".to_owned();
    pp.append(decimal_string(n as u64).as_str());
    params.push(pp);
    assert(texts_of(params@) =~= seq!["state="@ + api_state(f.state@), "per_page="@ + decimal(per_page(f.limit))]);
    push_opt_param(&mut params, "base", &f.base);
    push_opt_param(&mut params, "head", &f.head);
    let mut path = repo_path(spec);
    path.append("/pulls?");
    let q = join_strings(&params, "&");
    assert(params@.map_values(|p: String| p@) == texts_of(params@));
    path.append(q.as_str());
    path
}

/// Whether a pull request passes the filters.
pub open spec fn keeps_pr(pr: Json, f: PrFilters) -> bool {
    &&& (f.state@ == "merged"@ ==> str_member(pr, "merged_at"@) is Some)
    &&& (f.author matches Some(a) ==> (login_of(pr, "user"@) matches Some(l) && eq_ignore_ascii_case(l, a@)))
    &&& (f.labels@.len() > 0 ==> forall|i: int| 0 <= i < f.labels@.len()
            ==> #[trigger] has_name_ci(nested_texts(pr, "labels"@, "name"@), f.labels@[i]@))
    &&& (f.assignee matches Some(a) ==> has_name_ci(nested_texts(pr, "assignees"@, "login"@), a@))
}

/// The pull requests that pass the filters, in order.
pub open spec fn kept_prs(prs: Seq<Json>, f: PrFilters) -> Seq<Json>
    decreases prs.len(),
{
    if prs.len() == 0 {
        prs
    } else {
        let prev = kept_prs(prs.drop_last(), f);
        if keeps_pr(prs.last(), f) { prev.push(prs.last()) } else { prev }
    }
}

fn any_name_ci(names: &Vec<String>, n: &str) -> (b: bool)
    ensures
        b == has_name_ci(texts_of(names@), n@),
{
    let mut i: usize = 0;
    while i < names.len()
        invariant
            i <= names@.len(),
            forall|k: int| 0 <= k < i ==> !eq_ignore_ascii_case(texts_of(names@)[k], n@),
        decreases names.len() - i,
    {
        if eq_ascii_ci(names[i].as_str(), n) {
            assert(eq_ignore_ascii_case(texts_of(names@)[i as int], n@));
            return true;
        }
        i = i + 1;
    }
    false
}

fn login_member<'a>(j: &'a Json, key: &str) -> (r: Option<&'a str>)
    ensures
        match r {
            Some(s) => login_of(*j, key@) == Some(s@),
            None => login_of(*j, key@) is None,
        },
{
    match j.get(key) {
        Some(u) => u.str_member("login"),
        None => {
            assert(str_member(Json::Null, "login"@) is None);
            None
        },
    }
}

/// Tests [`keeps_pr`].
pub fn keep_pr(pr: &Json, f: &PrFilters) -> (b: bool)
    ensures
        b == keeps_pr(*pr, *f),
{
    if str_eq(f.state.as_str(), "merged") && pr.str_member("merged_at").is_none() {
        return false;
    }
    if let Some(a) = &f.author {
        match login_member(pr, "user") {
            Some(l) => if !eq_ascii_ci(l, a.as_str()) { return false; },
            None => return false,
        }
    }
    if f.labels.len() > 0 {
        let names = collect_nested_texts(pr, "labels", "name");
        let mut i: usize = 0;
        while i < f.labels.len()
            invariant
                i <= f.labels@.len(),
                texts_of(names@) == nested_texts(*pr, "labels"@, "name"@),
                forall|k: int| 0 <= k < i ==> #[trigger] has_name_ci(nested_texts(*pr, "labels"@, "name"@), f.labels@[k]@),
            decreases f.labels.len() - i,
        {
            if !any_name_ci(&names, f.labels[i].as_str()) {
                return false;
            }
            i = i + 1;
        }
    }
    if let Some(a) = &f.assignee {
        let logins = collect_nested_texts(pr, "assignees", "login");
        if !any_name_ci(&logins, a.as_str()) {
            return false;
        }
    }
    true
}

/// The pull requests of a listing that pass the filters.
pub fn filter_prs(prs: Vec<Json>, f: &PrFilters) -> (r: Vec<Json>)
    ensures
        r@ == kept_prs(prs@, *f),
{
    let ghost all = prs@;
    let mut out: Vec<Json> = Vec::new();
    let mut rest = prs;
    let mut i: usize = 0;
    let n = rest.len();
    assert(all.skip(0) == all);
    while rest.len() > 0
        invariant
            all.len() == n,
            i + rest@.len() == all.len(),
            rest@ == all.skip(i as int),
            out@ == kept_prs(all.take(i as int), *f),
        decreases rest.len(),
    {
        let pr = rest.remove(0);
        assert(all.take(i + 1).drop_last() == all.take(i as int));
        assert(all.take(i + 1).last() == all[i as int]);
        assert(all.skip(i as int).remove(0) == all.skip(i + 1));
        if keep_pr(&pr, f) {
            out.push(pr);
        }
        i = i + 1;
    }
    assert(all.take(all.len() as int) == all);
    out
}

/// The header line of the pull request table.
pub open spec fn pr_header() -> Seq<char> {
    pad_left("NUMBER"@, 8) + "  "@ + pad_right("TITLE"@, 50) + "  "@ + pad_right("AUTHOR"@, 14) + "  "@
        + pad_right("HEAD BRANCH"@, 14) + "  "@ + pad_right("LABELS"@, 14) + "  "@ + pad_right("STATE"@, 8)
}

/// The state shown for a pull request: `merged` once it is merged.
pub open spec fn shown_state(pr: Json) -> Seq<char> {
    if str_member(pr, "merged_at"@) is Some { "merged"@ } else { or_text(str_member(pr, "state"@), dash()) }
}

/// One row of the pull request table.
pub open spec fn pr_row(pr: Json) -> Seq<char> {
    let number = number_text(u64_member(pr, "number"@));
    let title = or_text(str_member(pr, "title"@), dash());
    let author = or_text(login_of(pr, "user"@), dash());
    let branch = or_text(str_member(member(pr, "head"@), "ref"@), dash());
    let labels = names_or_dash(nested_texts(pr, "labels"@, "name"@));
    pad_left(number, 8) + "  "@ + pad_right(truncated(title, 50), 50) + "  "@ + pad_right(truncated(author, 14), 14)
        + "  "@ + pad_right(truncated(branch, 14), 14) + "  "@ + pad_right(truncated(labels, 14), 14) + "  "@
        + pad_right(shown_state(pr), 8)
}

/// What the pull request list prints.
pub open spec fn pr_table(prs: Seq<Json>) -> Seq<Seq<char>> {
    if prs.len() == 0 {
        seq!["No pull requests found."@]
    } else {
        seq![pr_header()] + prs.map_values(|p: Json| pr_row(p))
    }
}

fn text_or<'a>(t: Option<&'a str>, d: &'a str) -> (r: &'a str)
    ensures
        r@ == or_text(match t { Some(x) => Some(x@), None => None }, d@),
{
    match t {
        Some(x) => x,
        None => d,
    }
}

fn pr_row_line(pr: &Json) -> (r: String)
    ensures
        r@ == pr_row(*pr),
{
    let number = match pr.u64_member("number") {
        Some(v) => decimal_string(v),
        None => "\u{2014}".to_owned(),
    };
    let title = text_or(pr.str_member("title"), "\u{2014}");
    let author = text_or(login_member(pr, "user"), "\u{2014}");
    let branch = match pr.get("head") {
        Some(h) => text_or(h.str_member("ref"), "\u{2014}"),
        None => {
            assert(str_member(Json::Null, "ref"@) is None);
            "\u{2014}"
        },
    };
    let names = collect_nested_texts(pr, "labels", "name");
    let j = join_strings(&names, ", ");
    assert(names@.map_values(|p: String| p@) == texts_of(names@));
    let labels = if j.as_str().is_empty() { "\u{2014}".to_owned() } else { j };
    let state: &str = if pr.str_member("merged_at").is_some() { "merged" } else { text_or(pr.str_member("state"), "\u{2014}") };
    let mut line = String::new();
    push_padded_left(&mut line, number.as_str(), 8);
    line.append("  ");
    push_padded_right(&mut line, truncate(title, 50).as_str(), 50);
    line.append("  ");
    push_padded_right(&mut line, truncate(author, 14).as_str(), 14);
    line.append("  ");
    push_padded_right(&mut line, truncate(branch, 14).as_str(), 14);
    line.append("  ");
    push_padded_right(&mut line, truncate(labels.as_str(), 14).as_str(), 14);
    line.append("  ");
    push_padded_right(&mut line, state, 8);
    line
}

/// The lines of the pull request list.
pub fn pr_table_lines(prs: &Vec<Json>) -> (r: Vec<String>)
    ensures
        lines_of(r@) == pr_table(prs@),
{
    if prs.len() == 0 {
        return one_line("No pull requests found.".to_owned());
    }
    let mut header = String::new();
    push_padded_left(&mut header, "NUMBER", 8);
    header.append("  ");
    push_padded_right(&mut header, "TITLE", 50);
    header.append("  ");
    push_padded_right(&mut header, "AUTHOR", 14);
    header.append("  ");
    push_padded_right(&mut header, "HEAD BRANCH", 14);
    header.append("  ");
    push_padded_right(&mut header, "LABELS", 14);
    header.append("  ");
    push_padded_right(&mut header, "STATE", 8);
    let mut lines = one_line(header);
    let mut i: usize = 0;
    while i < prs.len()
        invariant
            i <= prs@.len(),
            prs@.len() > 0,
            lines_of(lines@) == seq![pr_header()] + prs@.take(i as int).map_values(|x: Json| pr_row(x)),
        decreases prs@.len() - i,
    {
        let row = pr_row_line(&prs[i]);
        push_line(&mut lines, row);
        assert(prs@.take(i + 1).map_values(|x: Json| pr_row(x))
            =~= prs@.take(i as int).map_values(|x: Json| pr_row(x)).push(pr_row(prs@[i as int])));
        i = i + 1;
    }
    assert(prs@.take(prs@.len() as int) == prs@);
    lines
}

fn quoted(prefix: &str, spec: &RepoSplit, suffix: &str) -> (r: String)
    ensures
        r@ == prefix@ + repo_text(spec.owner@, spec.repo@) + suffix@,
{
    let mut m = prefix.to_owned();
    m.append(spec.owner.as_str());
    m.append("/");
    m.append(spec.repo.as_str());
    m.append(suffix);
    m
}

/// What `gor pr list` ends with, given the reply to its request.
pub open spec fn list_ending(owner: Seq<char>, repo: Seq<char>, f: PrFilters, json: Option<Vec<String>>, resp: ApiResponse, step: Step) -> bool {
    let t = repo_text(owner, repo);
    match status_error(resp.status, resp.status_text@, "repository '"@ + t + "' not found"@,
        Some("authentication required to list pull requests for '"@ + t + "'"@),
        "failed to list pull requests for '"@ + t + "'"@) {
        Some(m) => fails_with(step, m),
        None => match array_items(resp.body) {
            None => fails_with(step, "failed to parse pull request response"@),
            Some(items) => {
                let kept = kept_prs(items@, f);
                if json is Some {
                    step matches Step::PrintJson(j) && (if asks_fields(json) {
                        j matches Json::Object(out) && out@.len() == 0
                    } else {
                        value_of(j) == JsonValue::Array(values_of(kept))
                    })
                } else {
                    prints(step, pr_table(kept))
                }
            },
        },
    }
}

/// Reads the reply to the pull request listing.
pub fn list_result(spec: &RepoSplit, f: &PrFilters, json: &Option<Vec<String>>, resp: ApiResponse) -> (r: Step)
    ensures
        list_ending(spec.owner@, spec.repo@, *f, *json, resp, r),
{
    let err = check_status(resp.status, resp.status_text.as_str(), quoted("repository '", spec, "' not found"),
        Some(quoted("authentication required to list pull requests for '", spec, "'")),
        quoted("failed to list pull requests for '", spec, "'").as_str());
    if let Some(m) = err {
        return Step::Fail(m);
    }
    match take_items(resp.body) {
        None => Step::Fail("failed to parse pull request response".to_owned()),
        Some(items) => {
            let kept = filter_prs(items, f);
            if json.is_some() {
                Step::PrintJson(json_output(Json::Array(kept), json))
            } else {
                Step::Print(pr_table_lines(&kept))
            }
        },
    }
}

/// The web page of a repository's pull requests (`--web`).
pub fn pulls_web_url(host: &str, spec: &RepoSplit) -> (r: String)
    ensures
        r@ == "https://"@ + host@ + "/"@ + spec.owner@ + "/"@ + spec.repo@ + "/pulls"@,
{
    let mut u = "https://".to_owned();
    u.append(host);
    u.append("/");
    u.append(spec.owner.as_str());
    u.append("/");
    u.append(spec.repo.as_str());
    u.append("/pulls");
    u
}

} // verus!
