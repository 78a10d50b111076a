//! `gor ruleset`: the rulesets of a repository.
use vstd::prelude::*;
use vstd::string::*;
use crate::cmd::classroom::list_output;
use crate::cmd::flow::{Step, array_items, fails_with, http_failure, http_failure_message, json_output, lines_of,
    one_line, prints, push_line, shows_json, take_items};
use crate::cmd::keys::{dash, or_text};
use crate::cmd::util::{truncate, truncated};
use crate::cmd::workflow::or_zero;
use crate::json::{Json, member, str_member, u64_member};
use crate::output::{decimal, decimal_string};
use crate::repository::{RepoSplit, repo_path, repo_prefix};
use crate::request::{ApiResponse, is_success};
use crate::table::{pad_right, push_padded_right};

verus! {

/// The path that lists a repository's rulesets.
pub open spec fn list_path_of(owner: Seq<char>, repo: Seq<char>) -> Seq<char> {
    repo_prefix(owner, repo) + "/rulesets?per_page=100"@
}

/// Builds [`list_path_of`].
pub fn list_path(spec: &RepoSplit) -> (r: String)
    ensures
        r@ == list_path_of(spec.owner@, spec.repo@),
{
    let mut p = repo_path(spec);
    p.append("/rulesets?per_page=100");
    p
}

/// The header line of the ruleset table.
pub open spec fn ruleset_header() -> Seq<char> {
    pad_right("ID"@, 8) + "  "@ + pad_right("NAME"@, 30) + "  ENFORCEMENT"@
}

/// One row of the ruleset table.
pub open spec fn ruleset_row(r: Json) -> Seq<char> {
    pad_right(decimal(or_zero(u64_member(r, "id"@)) as nat), 8) + "  "@
        + pad_right(truncated(or_text(str_member(r, "name"@), dash()), 30), 30) + "  "@
        + or_text(str_member(r, "enforcement"@), dash())
}

/// What the ruleset list prints.
pub open spec fn ruleset_table(rs: Seq<Json>) -> Seq<Seq<char>> {
    if rs.len() == 0 {
        seq!["No rulesets found."@]
    } else {
        seq![ruleset_header()] + rs.map_values(|r: Json| ruleset_row(r))
    }
}

fn text_or<'a>(t: Option<&'a str>, d: &'a str) -> (r: &'a str)
    ensures
        r@ == or_text(match t { Some(x) => Some(x@), None => None }, d@),
{
    match t {
        Some(x) => x,
        None => d,
    }
}

fn ruleset_row_line(r: &Json) -> (l: String)
    ensures
        l@ == ruleset_row(*r),
{
    let id = match r.u64_member("id") {
        Some(n) => n,
        None => 0,
    };
    let mut line = String::new();
    push_padded_right(&mut line, decimal_string(id).as_str(), 8);
    line.append("  ");
    push_padded_right(&mut line, truncate(text_or(r.str_member("name"), "\u{2014}"), 30).as_str(), 30);
    line.append("  ");
    line.append(text_or(r.str_member("enforcement"), "\u{2014}"));
    line
}

/// The lines of the ruleset list.
pub fn ruleset_table_lines(rs: &Vec<Json>) -> (r: Vec<String>)
    ensures
        lines_of(r@) == ruleset_table(rs@),
{
    if rs.len() == 0 {
        return one_line("No rulesets found.".to_owned());
    }
    let mut header = String::new();
    push_padded_right(&mut header, "ID", 8);
    header.append("  ");
    push_padded_right(&mut header, "NAME", 30);
    header.append("  ENFORCEMENT");
    let mut lines = one_line(header);
    let mut i: usize = 0;
    while i < rs.len()
        invariant
            i <= rs@.len(),
            rs@.len() > 0,
            lines_of(lines@) == seq![ruleset_header()] + rs@.take(i as int).map_values(|x: Json| ruleset_row(x)),
        decreases rs@.len() - i,
    {
        push_line(&mut lines, ruleset_row_line(&rs[i]));
        assert(rs@.take(i + 1).map_values(|x: Json| ruleset_row(x))
            =~= rs@.take(i as int).map_values(|x: Json| ruleset_row(x)).push(ruleset_row(rs@[i as int])));
        i = i + 1;
    }
    assert(rs@.take(rs@.len() as int) == rs@);
    lines
}

/// What `gor ruleset list` ends with, given the reply to its request.
pub open spec fn list_ending(json: Option<Vec<String>>, resp: ApiResponse, step: Step) -> bool {
    if !is_success(resp.status) {
        fails_with(step, http_failure("failed to list rulesets"@, resp.status_text@))
    } else {
        match array_items(resp.body) {
            None => fails_with(step, "failed to parse response"@),
            Some(items) => list_output(json, items@, ruleset_table(items@), step),
        }
    }
}

/// Reads the reply to the ruleset listing.
pub fn list_result(json: &Option<Vec<String>>, resp: ApiResponse) -> (r: Step)
    ensures
        list_ending(*json, resp, r),
{
    if !(200 <= resp.status && resp.status <= 299) {
        return Step::Fail(http_failure_message("failed to list rulesets", resp.status_text.as_str()));
    }
    match take_items(resp.body) {
        None => Step::Fail("failed to parse response".to_owned()),
        Some(rs) => if json.is_some() {
            Step::PrintJson(json_output(Json::Array(rs), json))
        } else {
            Step::Print(ruleset_table_lines(&rs))
        },
    }
}

/// The path of ruleset `id`.
pub open spec fn view_path_of(owner: Seq<char>, repo: Seq<char>, id: u32) -> Seq<char> {
    repo_prefix(owner, repo) + "/rulesets/"@ + decimal(id as nat)
}

/// Builds [`view_path_of`].
pub fn view_path(spec: &RepoSplit, id: u32) -> (r: String)
    ensures
        r@ == view_path_of(spec.owner@, spec.repo@, id),
{
    let mut p = repo_path(spec);
    p.append("/rulesets/");
    p.append(decimal_string(id as u64).as_str());
    p
}

/// The rule types of a ruleset, one line each, under a title; nothing when
/// it has no list of rules.
pub open spec fn rules_lines(r: Json) -> Seq<Seq<char>> {
    match member(r, "rules"@) {
        Json::Array(items) => seq!["  Rules:"@]
            + items@.map_values(|x: Json| "    - "@ + or_text(str_member(x, "type"@), dash())),
        _ => Seq::empty(),
    }
}

/// What `gor ruleset view` prints of a ruleset.
pub open spec fn ruleset_view(r: Json) -> Seq<Seq<char>> {
    seq![
        "  Name: "@ + or_text(str_member(r, "name"@), dash()),
        "  Enforcement: "@ + or_text(str_member(r, "enforcement"@), dash()),
        "  Target: "@ + or_text(str_member(r, "target"@), dash()),
    ] + rules_lines(r)
}

fn labelled(label: &str, text: &str) -> (r: String)
    ensures
        r@ == label@ + text@,
{
    let mut l = label.to_owned();
    l.append(text);
    l
}

/// The lines that view a ruleset.
pub fn ruleset_view_lines(r: &Json) -> (lines: Vec<String>)
    ensures
        lines_of(lines@) == ruleset_view(*r),
{
    let mut lines = one_line(labelled("  Name: ", text_or(r.str_member("name"), "\u{2014}")));
    push_line(&mut lines, labelled("  Enforcement: ", text_or(r.str_member("enforcement"), "\u{2014}")));
    push_line(&mut lines, labelled("  Target: ", text_or(r.str_member("target"), "\u{2014}")));
    let ghost head = lines_of(lines@);
    match r.get("rules") {
        Some(Json::Array(items)) => {
            push_line(&mut lines, "  Rules:".to_owned());
            let mut i: usize = 0;
            while i < items.len()
                invariant
                    i <= items@.len(),
                    lines_of(lines@) == head + seq!["  Rules:"@]
                        + items@.take(i as int).map_values(|x: Json| "    - "@ + or_text(str_member(x, "type"@), dash())),
                decreases items@.len() - i,
            {
                push_line(&mut lines, labelled("    - ", text_or(items[i].str_member("type"), "\u{2014}")));
                assert(items@.take(i + 1).map_values(|x: Json| "    - "@ + or_text(str_member(x, "type"@), dash()))
                    =~= items@.take(i as int).map_values(|x: Json| "    - "@ + or_text(str_member(x, "type"@), dash()))
                        .push("    - "@ + or_text(str_member(items@[i as int], "type"@), dash())));
                i = i + 1;
            }
            assert(items@.take(items@.len() as int) == items@);
        },
        _ => {},
    }
    assert(lines_of(lines@) =~= ruleset_view(*r));
    lines
}

/// The web page of ruleset `id`.
pub open spec fn rules_url(host: Seq<char>, owner: Seq<char>, repo: Seq<char>, id: u32) -> Seq<char> {
    "https://"@ + host + "/"@ + owner + "/"@ + repo + "/settings/rules/"@ + decimal(id as nat)
}

/// What `gor ruleset view` ends with, given the reply to reading ruleset
/// `id` of a repository on `host`.
pub open spec fn view_ending(id: u32, owner: Seq<char>, repo: Seq<char>, host: Seq<char>, web: bool,
    json: Option<Vec<String>>, resp: ApiResponse, step: Step) -> bool
{
    if resp.status == 404 {
        fails_with(step, "ruleset #"@ + decimal(id as nat) + " not found in repository '"@ + owner + "/"@ + repo + "'"@)
    } else if !is_success(resp.status) {
        fails_with(step, http_failure("failed to view ruleset"@, resp.status_text@))
    } else {
        match resp.body {
            None => fails_with(step, "failed to parse response"@),
            Some(r) => if web {
                prints(step, seq!["Open "@ + rules_url(host, owner, repo, id) + " in your browser"@])
            } else if json is Some {
                step matches Step::PrintJson(j) && shows_json(r, json, j)
            } else {
                prints(step, ruleset_view(r))
            },
        }
    }
}

/// Reads the reply to reading a ruleset.
pub fn view_result(id: u32, spec: &RepoSplit, host: &str, web: bool, json: &Option<Vec<String>>, resp: ApiResponse)
    -> (r: Step)
    ensures
        view_ending(id, spec.owner@, spec.repo@, host@, web, *json, resp, r),
{
    if resp.status == 404 {
        let mut m = "ruleset #".to_owned();
        m.append(decimal_string(id as u64).as_str());
        m.append(" not found in repository '");
        m.append(spec.full_name().as_str());
        m.append("'");
        assert(m@ =~= "ruleset #"@ + decimal(id as nat) + " not found in repository '"@ + spec.owner@ + "/"@ + spec.repo@ + "'"@);
        return Step::Fail(m);
    }
    if !(200 <= resp.status && resp.status <= 299) {
        return Step::Fail(http_failure_message("failed to view ruleset", resp.status_text.as_str()));
    }
    match resp.body {
        None => Step::Fail("failed to parse response".to_owned()),
        Some(r) => if web {
            let mut l = "Open ".to_owned();
            l.append("https://");
            l.append(host);
            l.append("/");
            l.append(spec.owner.as_str());
            l.append("/");
            l.append(spec.repo.as_str());
            l.append("/settings/rules/");
            l.append(decimal_string(id as u64).as_str());
            l.append(" in your browser");
            assert(l@ =~= "Open "@ + rules_url(host@, spec.owner@, spec.repo@, id) + " in your browser"@);
            Step::Print(one_line(l))
        } else if json.is_some() {
            Step::PrintJson(json_output(r, json))
        } else {
            Step::Print(ruleset_view_lines(&r))
        },
    }
}

} // verus!
