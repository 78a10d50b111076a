//! `gor copilot`: the Copilot subscription of the user and the Copilot usage
//! of an organization.
use vstd::prelude::*;
use vstd::string::*;
use crate::cmd::flow::{Step, fails_with, http_failure, http_failure_message, json_output, lines_of, one_line, prints,
    push_line, shows_json};
use crate::cmd::keys::{dash, or_text};
use crate::cmd::workflow::or_zero;
use crate::json::{Json, member, str_member, u64_member};
use crate::output::{decimal, decimal_string};
use crate::request::{ApiResponse, is_success};

verus! {

/// What `gor copilot status` prints of a subscription.
pub open spec fn status_view(sub: Json) -> Seq<Seq<char>> {
    seq![
        "Copilot Status"@,
        "  Plan: "@ + or_text(str_member(sub, "plan"@), dash()),
        "  Seat: "@ + or_text(str_member(sub, "seat_status"@), dash()),
        "  Renewal: "@ + or_text(str_member(sub, "renewal_date"@), dash()),
    ]
}

fn text_or<'a>(t: Option<&'a str>, d: &'a str) -> (r: &'a str)
    ensures
        r@ == or_text(match t { Some(x) => Some(x@), None => None }, d@),
{
    match t {
        Some(x) => x,
        None => d,
    }
}

fn labelled(label: &str, text: &str) -> (r: String)
    ensures
        r@ == label@ + text@,
{
    let mut l = label.to_owned();
    l.append(text);
    l
}

/// The lines that show a subscription.
pub fn status_lines(sub: &Json) -> (r: Vec<String>)
    ensures
        lines_of(r@) == status_view(*sub),
{
    let mut lines = one_line("Copilot Status".to_owned());
    push_line(&mut lines, labelled("  Plan: ", text_or(sub.str_member("plan"), "\u{2014}")));
    push_line(&mut lines, labelled("  Seat: ", text_or(sub.str_member("seat_status"), "\u{2014}")));
    push_line(&mut lines, labelled("  Renewal: ", text_or(sub.str_member("renewal_date"), "\u{2014}")));
    assert(lines_of(lines@) =~= status_view(*sub));
    lines
}

/// What `gor copilot status` ends with, given the reply to its request.
pub open spec fn status_ending(json: Option<Vec<String>>, resp: ApiResponse, step: Step) -> bool {
    if resp.status == 404 {
        prints(step, seq!["Copilot is not enabled for your account."@])
    } else if !is_success(resp.status) {
        fails_with(step, http_failure("failed to fetch Copilot status"@, resp.status_text@))
    } else {
        match resp.body {
            None => fails_with(step, "failed to parse response"@),
            Some(sub) => if json is Some {
                step matches Step::PrintJson(j) && shows_json(sub, json, j)
            } else {
                prints(step, status_view(sub))
            },
        }
    }
}

/// Reads the reply to the subscription request.
pub fn status_result(json: &Option<Vec<String>>, resp: ApiResponse) -> (r: Step)
    ensures
        status_ending(*json, resp, r),
{
    if resp.status == 404 {
        return Step::Print(one_line("Copilot is not enabled for your account.".to_owned()));
    }
    if !(200 <= resp.status && resp.status <= 299) {
        return Step::Fail(http_failure_message("failed to fetch Copilot status", resp.status_text.as_str()));
    }
    match resp.body {
        None => Step::Fail("failed to parse response".to_owned()),
        Some(sub) => if json.is_some() {
            Step::PrintJson(json_output(sub, json))
        } else {
            Step::Print(status_lines(&sub))
        },
    }
}

/// The organization whose usage is asked for, which must be given.
pub fn usage_org(org: &Option<String>) -> (r: Result<&str, String>)
    ensures
        match org {
            Some(o) => r matches Ok(x) && x@ == o@,
            None => r matches Err(m) && m@ == "--org is required for usage statistics"@,
        },
{
    match org {
        Some(o) => Ok(o.as_str()),
        None => Err("--org is required for usage statistics".to_owned()),
    }
}

/// The path of an organization's Copilot usage.
pub open spec fn usage_path_of(org: Seq<char>) -> Seq<char> {
    "/orgs/"@ + org + "/copilot/usage"@
}

/// Builds [`usage_path_of`].
pub fn usage_path(org: &str) -> (r: String)
    ensures
        r@ == usage_path_of(org@),
{
    let mut p = "/orgs/".to_owned();
    p.append(org);
    p.append("/copilot/usage");
    p
}

/// One line of the usage breakdown.
pub open spec fn breakdown_line(entry: Json) -> Seq<char> {
    "    "@ + or_text(str_member(entry, "language"@), dash()) + ": "@
        + decimal(or_zero(u64_member(entry, "editor_count"@)) as nat) + " editors"@
}

/// The entries of the usage breakdown (none when absent).
pub open spec fn breakdown_of(usage: Json) -> Seq<Json> {
    match member(usage, "breakdown"@) {
        Json::Array(items) => items@,
        _ => Seq::empty(),
    }
}

/// What `gor copilot usage` prints of an organization's usage.
pub open spec fn usage_view(org: Seq<char>, usage: Json) -> Seq<Seq<char>> {
    let b = breakdown_of(usage);
    seq![
        "Copilot Usage for "@ + org,
        "  Total active users: "@ + decimal(or_zero(u64_member(usage, "total_active_users"@)) as nat),
    ] + (if b.len() > 0 {
        seq!["  Breakdown:"@] + b.map_values(|e: Json| breakdown_line(e))
    } else {
        Seq::empty()
    })
}

fn breakdown_line_text(entry: &Json) -> (r: String)
    ensures
        r@ == breakdown_line(*entry),
{
    let editors = match entry.u64_member("editor_count") {
        Some(n) => n,
        None => 0,
    };
    let mut l = "    ".to_owned();
    l.append(text_or(entry.str_member("language"), "\u{2014}"));
    l.append(": ");
    l.append(decimal_string(editors).as_str());
    l.append(" editors");
    l
}

/// The lines that show an organization's usage.
pub fn usage_lines(org: &str, usage: &Json) -> (r: Vec<String>)
    ensures
        lines_of(r@) == usage_view(org@, *usage),
{
    let total = match usage.u64_member("total_active_users") {
        Some(n) => n,
        None => 0,
    };
    let mut lines = one_line(labelled("Copilot Usage for ", org));
    push_line(&mut lines, labelled("  Total active users: ", decimal_string(total).as_str()));
    let ghost head = lines_of(lines@);
    let empty: Vec<Json> = Vec::new();
    let b: &Vec<Json> = match usage.get("breakdown") {
        Some(Json::Array(items)) => items,
        _ => &empty,
    };
    assert(b@ == breakdown_of(*usage));
    if b.len() > 0 {
        push_line(&mut lines, "  Breakdown:".to_owned());
        let mut i: usize = 0;
        while i < b.len()
            invariant
                i <= b@.len(),
                lines_of(lines@) == head + seq!["  Breakdown:"@] + b@.take(i as int).map_values(|e: Json| breakdown_line(e)),
            decreases b@.len() - i,
        {
            push_line(&mut lines, breakdown_line_text(&b[i]));
            assert(b@.take(i + 1).map_values(|e: Json| breakdown_line(e))
                =~= b@.take(i as int).map_values(|e: Json| breakdown_line(e)).push(breakdown_line(b@[i as int])));
            i = i + 1;
        }
        assert(b@.take(b@.len() as int) == b@);
    }
    assert(lines_of(lines@) =~= usage_view(org@, *usage));
    lines
}

/// What `gor copilot usage` ends with, given the reply to its request.
pub open spec fn usage_ending(org: Seq<char>, json: Option<Vec<String>>, resp: ApiResponse, step: Step) -> bool {
    if resp.status == 404 {
        prints(step, seq!["Copilot is not enabled for organization '"@ + org + "'."@])
    } else if !is_success(resp.status) {
        fails_with(step, http_failure("failed to fetch Copilot usage"@, resp.status_text@))
    } else {
        match resp.body {
            None => fails_with(step, "failed to parse response"@),
            Some(u) => if json is Some {
                step matches Step::PrintJson(j) && shows_json(u, json, j)
            } else {
                prints(step, usage_view(org, u))
            },
        }
    }
}

/// Reads the reply to the usage request.
pub fn usage_result(org: &str, json: &Option<Vec<String>>, resp: ApiResponse) -> (r: Step)
    ensures
        usage_ending(org@, *json, resp, r),
{
    if resp.status == 404 {
        let mut m = "Copilot is not enabled for organization '".to_owned();
        m.append(org);
        m.append("'.");
        return Step::Print(one_line(m));
    }
    if !(200 <= resp.status && resp.status <= 299) {
        return Step::Fail(http_failure_message("failed to fetch Copilot usage", resp.status_text.as_str()));
    }
    match resp.body {
        None => Step::Fail("failed to parse response".to_owned()),
        Some(u) => if json.is_some() {
            Step::PrintJson(json_output(u, json))
        } else {
            Step::Print(usage_lines(org, &u))
        },
    }
}

} // verus!
