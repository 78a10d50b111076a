//! `gor project`: GitHub Projects (classic) of an organization, a user or a
//! repository.
use vstd::prelude::*;
use vstd::string::*;
use crate::cmd::flow::{Step, array_items, asks_fields, fails_with, http_failure, http_failure_message, json_output,
    lines_of, message_or, one_line, prints, push_line, reply_message, shows_json, take_items};
use crate::cmd::keys::{dash, or_text};
use crate::cmd::util::{truncate, truncated};
use crate::cmd::workflow::or_zero;
use crate::json::{Json, JsonValue, bool_member, member, str_member, take_member, u64_member, value_of, values_of};
use crate::org::at_most;
use crate::output::{decimal, decimal_string};
use crate::project::ProjectScope;
use crate::repository::{RepoSplit, target_repo, resolve_repo};
use crate::request::{ApiResponse, is_success};
use crate::table::{pad_right, push_padded_right};

verus! {

/// Whose projects `gor project list` lists: the organization's, else the
/// user's, else the named repository's, else the detected one's.
pub open spec fn scope_of(org: Option<String>, owner: Option<String>, repo: Option<String>,
    detected: Option<RepoSplit>, s: Result<ProjectScope, String>) -> bool
{
    match org {
        Some(o) => s matches Ok(ProjectScope::Org(x)) && x@ == o@,
        None => match owner {
            Some(u) => s matches Ok(ProjectScope::User(x)) && x@ == u@,
            None => match target_repo(repo, detected, "could not detect repository; specify --org, --owner, or --repo"@) {
                Ok((o, n)) => s matches Ok(ProjectScope::Repo(spec)) && spec.owner@ == o && spec.repo@ == n,
                Err(m) => s matches Err(e) && e@ == m,
            },
        },
    }
}

/// Decides [`scope_of`].
pub fn list_scope(org: &Option<String>, owner: &Option<String>, repo: &Option<String>, detected: &Option<RepoSplit>)
    -> (r: Result<ProjectScope, String>)
    ensures
        scope_of(*org, *owner, *repo, *detected, r),
{
    match org {
        Some(o) => Ok(ProjectScope::Org(o.clone())),
        None => match owner {
            Some(u) => Ok(ProjectScope::User(u.clone())),
            None => match resolve_repo(repo, detected, "could not detect repository; specify --org, --owner, or --repo") {
                Ok(spec) => Ok(ProjectScope::Repo(spec)),
                Err(m) => Err(m),
            },
        },
    }
}

/// The header line of the project table.
pub open spec fn project_header() -> Seq<char> {
    pad_right("NUMBER"@, 8) + "  "@ + pad_right("TITLE"@, 30) + "  "@ + pad_right("STATE"@, 10) + "  VISIBILITY"@
}

/// One row of the project table.
pub open spec fn project_row(p: Json) -> Seq<char> {
    pad_right(decimal(or_zero(u64_member(p, "number"@)) as nat), 8) + "  "@
        + pad_right(truncated(or_text(str_member(p, "name"@), dash()), 30), 30) + "  "@
        + pad_right(or_text(str_member(p, "state"@), dash()), 10) + "  "@
        + or_text(str_member(p, "visibility"@), dash())
}

/// What the project list prints.
pub open spec fn project_table(ps: Seq<Json>) -> Seq<Seq<char>> {
    if ps.len() == 0 {
        seq!["No projects found."@]
    } else {
        seq![project_header()] + ps.map_values(|p: Json| project_row(p))
    }
}

fn text_or<'a>(t: Option<&'a str>, d: &'a str) -> (r: &'a str)
    ensures
        r@ == or_text(match t { Some(x) => Some(x@), None => None }, d@),
{
    match t {
        Some(x) => x,
        None => d,
    }
}

fn project_row_line(p: &Json) -> (r: String)
    ensures
        r@ == project_row(*p),
{
    let number = match p.u64_member("number") {
        Some(n) => n,
        None => 0,
    };
    let mut line = String::new();
    push_padded_right(&mut line, decimal_string(number).as_str(), 8);
    line.append("  ");
    push_padded_right(&mut line, truncate(text_or(p.str_member("name"), "\u{2014}"), 30).as_str(), 30);
    line.append("  ");
    push_padded_right(&mut line, text_or(p.str_member("state"), "\u{2014}"), 10);
    line.append("  ");
    line.append(text_or(p.str_member("visibility"), "\u{2014}"));
    line
}

/// The lines of the project list.
pub fn project_table_lines(ps: &Vec<Json>) -> (r: Vec<String>)
    ensures
        lines_of(r@) == project_table(ps@),
{
    if ps.len() == 0 {
        return one_line("No projects found.".to_owned());
    }
    let mut header = String::new();
    push_padded_right(&mut header, "NUMBER", 8);
    header.append("  ");
    push_padded_right(&mut header, "TITLE", 30);
    header.append("  ");
    push_padded_right(&mut header, "STATE", 10);
    header.append("  VISIBILITY");
    let mut lines = one_line(header);
    let mut i: usize = 0;
    while i < ps.len()
        invariant
            i <= ps@.len(),
            ps@.len() > 0,
            lines_of(lines@) == seq![project_header()] + ps@.take(i as int).map_values(|x: Json| project_row(x)),
        decreases ps@.len() - i,
    {
        let row = project_row_line(&ps[i]);
        push_line(&mut lines, row);
        assert(ps@.take(i + 1).map_values(|x: Json| project_row(x))
            =~= ps@.take(i as int).map_values(|x: Json| project_row(x)).push(project_row(ps@[i as int])));
        i = i + 1;
    }
    assert(ps@.take(ps@.len() as int) == ps@);
    lines
}

/// What `gor project list` ends with, given the reply to its request.
pub open spec fn list_ending(limit: u32, json: Option<Vec<String>>, resp: ApiResponse, step: Step) -> bool {
    if !is_success(resp.status) {
        fails_with(step, http_failure("failed to list projects"@, resp.status_text@))
    } else {
        match array_items(resp.body) {
            None => fails_with(step, "failed to parse response"@),
            Some(items) => {
                let ps = at_most(items@, limit);
                if json is Some {
                    step matches Step::PrintJson(j) && (if asks_fields(json) {
                        j matches Json::Object(out) && out@.len() == 0
                    } else {
                        value_of(j) == JsonValue::Array(values_of(ps))
                    })
                } else {
                    prints(step, project_table(ps))
                }
            },
        }
    }
}

/// Reads the reply to the project listing.
pub fn list_result(limit: u32, json: &Option<Vec<String>>, resp: ApiResponse) -> (r: Step)
    ensures
        list_ending(limit, *json, resp, r),
{
    if !(200 <= resp.status && resp.status <= 299) {
        return Step::Fail(http_failure_message("failed to list projects", resp.status_text.as_str()));
    }
    let ghost body = resp.body;
    match take_items(resp.body) {
        None => Step::Fail("failed to parse response".to_owned()),
        Some(items) => {
            let mut ps = items;
            ps.truncate(limit as usize);
            assert(ps@ =~= at_most(array_items(body)->0@, limit));
            if json.is_some() {
                Step::PrintJson(json_output(Json::Array(ps), json))
            } else {
                Step::Print(project_table_lines(&ps))
            }
        },
    }
}

/// What `gor project view` prints of project `number`.
pub open spec fn project_view(number: u64, p: Json) -> Seq<Seq<char>> {
    let body = or_text(str_member(p, "body"@), dash());
    seq![
        "Project #"@ + decimal(number as nat) + ": "@ + or_text(str_member(p, "name"@), dash()),
        "  State: "@ + or_text(str_member(p, "state"@), dash()),
        "  Creator: "@ + or_text(str_member(member(p, "creator"@), "login"@), dash()),
        "  Created: "@ + or_text(str_member(p, "created_at"@), dash()),
        "  Updated: "@ + or_text(str_member(p, "updated_at"@), dash()),
    ] + (if body != dash() && body.len() > 0 { seq!["  Body: "@ + body] } else { Seq::<Seq<char>>::empty() })
}

fn labelled(label: &str, text: &str) -> (r: String)
    ensures
        r@ == label@ + text@,
{
    let mut l = label.to_owned();
    l.append(text);
    l
}

/// The lines that view project `number`.
pub fn project_view_lines(number: u64, p: &Json) -> (r: Vec<String>)
    ensures
        lines_of(r@) == project_view(number, *p),
{
    let mut first = "Project #".to_owned();
    first.append(decimal_string(number).as_str());
    first.append(": ");
    first.append(text_or(p.str_member("name"), "\u{2014}"));
    let mut lines = one_line(first);
    push_line(&mut lines, labelled("  State: ", text_or(p.str_member("state"), "\u{2014}")));
    let creator = match p.get("creator") {
        Some(c) => c.str_member("login"),
        None => {
            assert(str_member(Json::Null, "login"@) is None);
            None
        },
    };
    push_line(&mut lines, labelled("  Creator: ", text_or(creator, "\u{2014}")));
    push_line(&mut lines, labelled("  Created: ", text_or(p.str_member("created_at"), "\u{2014}")));
    push_line(&mut lines, labelled("  Updated: ", text_or(p.str_member("updated_at"), "\u{2014}")));
    let body = text_or(p.str_member("body"), "\u{2014}");
    proof { reveal_strlit("\u{2014}"); }
    let is_dash = body.unicode_len() == 1 && body.get_char(0) == '\u{2014}';
    assert(is_dash == (body@ == dash())) by {
        if is_dash {
            assert(body@ =~= dash());
        }
    }
    if !is_dash && !body.is_empty() {
        push_line(&mut lines, labelled("  Body: ", body));
    }
    assert(lines_of(lines@) =~= project_view(number, *p));
    lines
}

/// What `gor project view` ends with, given the reply to reading project
/// `number`.
pub open spec fn view_ending(number: u64, web: bool, json: Option<Vec<String>>, resp: ApiResponse, step: Step) -> bool {
    if resp.status == 404 {
        fails_with(step, "project #"@ + decimal(number as nat) + " not found"@)
    } else if !is_success(resp.status) {
        fails_with(step, http_failure("failed to view project"@, resp.status_text@))
    } else {
        match resp.body {
            None => fails_with(step, "failed to parse response"@),
            Some(p) => if web {
                match str_member(p, "html_url"@) {
                    Some(u) => step matches Step::Print(l) && lines_of(l@) == seq!["Open "@ + u + " in your browser"@],
                    None => fails_with(step, "no URL found for project #"@ + decimal(number as nat)),
                }
            } else if json is Some {
                step matches Step::PrintJson(j) && shows_json(p, json, j)
            } else {
                prints(step, project_view(number, p))
            },
        }
    }
}

/// Reads the reply to reading project `number`.
pub fn view_result(number: u64, web: bool, json: &Option<Vec<String>>, resp: ApiResponse) -> (r: Step)
    ensures
        view_ending(number, web, *json, resp, r),
{
    if resp.status == 404 {
        let mut m = "project #".to_owned();
        m.append(decimal_string(number).as_str());
        m.append(" not found");
        return Step::Fail(m);
    }
    if !(200 <= resp.status && resp.status <= 299) {
        return Step::Fail(http_failure_message("failed to view project", resp.status_text.as_str()));
    }
    match resp.body {
        None => Step::Fail("failed to parse response".to_owned()),
        Some(p) => if web {
            match p.str_member("html_url") {
                Some(u) => {
                    let mut l = "Open ".to_owned();
                    l.append(u);
                    l.append(" in your browser");
                    Step::Print(one_line(l))
                },
                None => {
                    let mut m = "no URL found for project #".to_owned();
                    m.append(decimal_string(number).as_str());
                    Step::Fail(m)
                },
            }
        } else if json.is_some() {
            Step::PrintJson(json_output(p, json))
        } else {
            Step::Print(project_view_lines(number, &p))
        },
    }
}

/// The item `gor project item-add` adds: the issue, else the pull request.
pub open spec fn item_of(issue: Option<u64>, pull_request: Option<u64>) -> Result<(Seq<char>, u64), Seq<char>> {
    match issue {
        Some(i) => Ok(("Issue"@, i)),
        None => match pull_request {
            Some(p) => Ok(("PullRequest"@, p)),
            None => Err("specify --issue or --pr to add an item"@),
        },
    }
}

/// Decides [`item_of`].
pub fn choose_item(issue: Option<u64>, pull_request: Option<u64>) -> (r: Result<(&'static str, u64), String>)
    ensures
        match item_of(issue, pull_request) {
            Ok((t, id)) => r matches Ok((rt, rid)) && rt@ == t && rid == id,
            Err(m) => r matches Err(e) && e@ == m,
        },
{
    match issue {
        Some(i) => Ok(("Issue", i)),
        None => match pull_request {
            Some(p) => Ok(("PullRequest", p)),
            None => Err("specify --issue or --pr to add an item".to_owned()),
        },
    }
}

/// What `gor project item-add` ends with, given the reply to its request.
pub open spec fn added_ending(project: u64, item_type: Seq<char>, resp: ApiResponse, r: Result<String, String>) -> bool {
    if !is_success(resp.status) {
        r matches Err(m) && m@ == "failed to add item to project #"@ + decimal(project as nat) + ": "@
            + reply_message(resp.body, "add failed"@)
    } else {
        match resp.body {
            None => r matches Err(m) && m@ == "failed to parse response"@,
            Some(b) => {
                let id = decimal(or_zero(u64_member(b, "id"@)) as nat);
                r matches Ok(m) && m@ == "Added "@ + item_type + " #"@ + id + " to project #"@ + decimal(project as nat)
                    + " (item ID: "@ + id + ")"@
            },
        }
    }
}

/// Reads the reply to adding an item: the line to print, or the error.
pub fn added_result(project: u64, item_type: &str, resp: &ApiResponse) -> (r: Result<String, String>)
    ensures
        added_ending(project, item_type@, *resp, r),
{
    if !(200 <= resp.status && resp.status <= 299) {
        let mut m = "failed to add item to project #".to_owned();
        m.append(decimal_string(project).as_str());
        m.append(": ");
        m.append(message_or(&resp.body, "add failed").as_str());
        return Err(m);
    }
    match &resp.body {
        None => Err("failed to parse response".to_owned()),
        Some(b) => {
            let id = match b.u64_member("id") {
                Some(n) => n,
                None => 0,
            };
            let id_text = decimal_string(id);
            let mut m = "Added ".to_owned();
            m.append(item_type);
            m.append(" #");
            m.append(id_text.as_str());
            m.append(" to project #");
            m.append(decimal_string(project).as_str());
            m.append(" (item ID: ");
            m.append(id_text.as_str());
            m.append(")");
            Ok(m)
        },
    }
}

/// The line `gor project item-add` prints (the form that names the item
/// added by the number asked for, and the new item by its ID).
pub open spec fn added_line(item_type: Seq<char>, item_id: u64, project: u64, result: Json) -> Seq<char> {
    "Added "@ + item_type + " #"@ + decimal(item_id as nat) + " to project #"@ + decimal(project as nat)
        + " (item ID: "@ + decimal(or_zero(u64_member(result, "id"@)) as nat) + ")"@
}

/// Builds [`added_line`].
pub fn added_message(item_type: &str, item_id: u64, project: u64, result: &Json) -> (r: String)
    ensures
        r@ == added_line(item_type@, item_id, project, *result),
{
    let id = match result.u64_member("id") {
        Some(n) => n,
        None => 0,
    };
    let mut m = "Added ".to_owned();
    m.append(item_type);
    m.append(" #");
    m.append(decimal_string(item_id).as_str());
    m.append(" to project #");
    m.append(decimal_string(project).as_str());
    m.append(" (item ID: ");
    m.append(decimal_string(id).as_str());
    m.append(")");
    m
}

// ---------------------------------------------------------------------------
// Projects V2
// ---------------------------------------------------------------------------

/// Whose Projects V2 are listed: the organization's, else the user's.
pub open spec fn v2_owner_of(org: Option<String>, owner: Option<String>) -> Result<(Seq<char>, Seq<char>), Seq<char>> {
    match org {
        Some(o) => Ok(("organization"@, o@)),
        None => match owner {
            Some(u) => Ok(("user"@, u@)),
            None => Err("specify --org or --owner for Projects V2"@),
        },
    }
}

/// Decides [`v2_owner_of`]: the owner's type and login.
pub fn v2_owner(org: &Option<String>, owner: &Option<String>) -> (r: Result<(&'static str, String), String>)
    ensures
        match v2_owner_of(*org, *owner) {
            Ok((t, l)) => r matches Ok((rt, rl)) && rt@ == t && rl@ == l,
            Err(m) => r matches Err(e) && e@ == m,
        },
{
    match org {
        Some(o) => Ok(("organization", o.clone())),
        None => match owner {
            Some(u) => Ok(("user", u.clone())),
            None => Err("specify --org or --owner for Projects V2".to_owned()),
        },
    }
}

/// The GraphQL query for the first `limit` Projects V2 of an owner.
pub open spec fn v2_query_of(owner_type: Seq<char>, login: Seq<char>, limit: u32) -> Seq<char> {
    "{\n  "@ + owner_type + "(login: \""@ + login + "\") {\n    projectsV2(first: "@ + decimal(limit as nat)
        + ") {\n      nodes {\n        number\n        title\n        closed\n      }\n    }\n  }\n}"@
}

/// Builds [`v2_query_of`].
pub fn v2_query(owner_type: &str, login: &str, limit: u32) -> (r: String)
    ensures
        r@ == v2_query_of(owner_type@, login@, limit),
{
    let mut q = "{\n  ".to_owned();
    q.append(owner_type);
    q.append("(login: \"");
    q.append(login);
    q.append("\") {\n    projectsV2(first: ");
    q.append(decimal_string(limit as u64).as_str());
    q.append(") {\n      nodes {\n        number\n        title\n        closed\n      }\n    }\n  }\n}");
    q
}

/// The projects a GraphQL reply lists
/// (`data.<owner_type>.projectsV2.nodes`; none when absent).
pub open spec fn v2_nodes_of(result: Json, owner_type: Seq<char>) -> Seq<Json> {
    match member(member(member(member(result, "data"@), owner_type), "projectsV2"@), "nodes"@) {
        Json::Array(items) => items@,
        _ => Seq::empty(),
    }
}

/// Takes [`v2_nodes_of`] out of a reply.
pub fn v2_nodes(result: Json, owner_type: &str) -> (r: Vec<Json>)
    ensures
        r@ == v2_nodes_of(result, owner_type@),
{
    let d = take_member(result, "data");
    let o = take_member(d, owner_type);
    let p = take_member(o, "projectsV2");
    match take_member(p, "nodes") {
        Json::Array(items) => items,
        _ => Vec::new(),
    }
}

/// The header line of the Projects V2 table.
pub open spec fn v2_header() -> Seq<char> {
    pad_right("NUMBER"@, 8) + "  "@ + pad_right("TITLE"@, 30) + "  CLOSED"@
}

/// `true` or `false`.
pub open spec fn bool_text(b: bool) -> Seq<char> {
    if b { "true"@ } else { "false"@ }
}

/// One row of the Projects V2 table.
pub open spec fn v2_row(p: Json) -> Seq<char> {
    pad_right(decimal(or_zero(u64_member(p, "number"@)) as nat), 8) + "  "@
        + pad_right(truncated(or_text(str_member(p, "title"@), dash()), 30), 30) + "  "@
        + bool_text(bool_member(p, "closed"@) == Some(true))
}

/// What the Projects V2 list prints.
pub open spec fn v2_table(ps: Seq<Json>) -> Seq<Seq<char>> {
    if ps.len() == 0 {
        seq!["No Projects V2 found."@]
    } else {
        seq![v2_header()] + ps.map_values(|p: Json| v2_row(p))
    }
}

fn v2_row_line(p: &Json) -> (r: String)
    ensures
        r@ == v2_row(*p),
{
    let number = match p.u64_member("number") {
        Some(n) => n,
        None => 0,
    };
    let mut line = String::new();
    push_padded_right(&mut line, decimal_string(number).as_str(), 8);
    line.append("  ");
    push_padded_right(&mut line, truncate(text_or(p.str_member("title"), "\u{2014}"), 30).as_str(), 30);
    line.append("  ");
    line.append(if p.bool_member("closed") == Some(true) { "true" } else { "false" });
    line
}

/// The lines of the Projects V2 list.
pub fn v2_table_lines(ps: &Vec<Json>) -> (r: Vec<String>)
    ensures
        lines_of(r@) == v2_table(ps@),
{
    if ps.len() == 0 {
        return one_line("No Projects V2 found.".to_owned());
    }
    let mut header = String::new();
    push_padded_right(&mut header, "NUMBER", 8);
    header.append("  ");
    push_padded_right(&mut header, "TITLE", 30);
    header.append("  CLOSED");
    let mut lines = one_line(header);
    let mut i: usize = 0;
    while i < ps.len()
        invariant
            i <= ps@.len(),
            ps@.len() > 0,
            lines_of(lines@) == seq![v2_header()] + ps@.take(i as int).map_values(|x: Json| v2_row(x)),
        decreases ps@.len() - i,
    {
        let row = v2_row_line(&ps[i]);
        push_line(&mut lines, row);
        assert(ps@.take(i + 1).map_values(|x: Json| v2_row(x))
            =~= ps@.take(i as int).map_values(|x: Json| v2_row(x)).push(v2_row(ps@[i as int])));
        i = i + 1;
    }
    assert(ps@.take(ps@.len() as int) == ps@);
    lines
}

/// What `gor project list --v2` prints of a GraphQL reply.
pub open spec fn v2_ending(owner_type: Seq<char>, json: Option<Vec<String>>, result: Json, step: Step) -> bool {
    let ps = v2_nodes_of(result, owner_type);
    if json is Some {
        step matches Step::PrintJson(j) && (if asks_fields(json) {
            j matches Json::Object(out) && out@.len() == 0
        } else {
            value_of(j) == JsonValue::Array(values_of(ps))
        })
    } else {
        prints(step, v2_table(ps))
    }
}

/// Reads the reply to the Projects V2 query.
pub fn v2_result(owner_type: &str, json: &Option<Vec<String>>, result: Json) -> (r: Step)
    ensures
        v2_ending(owner_type@, *json, result, r),
{
    let ps = v2_nodes(result, owner_type);
    if json.is_some() {
        Step::PrintJson(json_output(Json::Array(ps), json))
    } else {
        Step::Print(v2_table_lines(&ps))
    }
}

} // verus!
