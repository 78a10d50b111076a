//! `gor run`: the workflow runs of a repository.
use vstd::prelude::*;
use vstd::string::*;
use crate::cli::RunCommand;
use crate::cmd::flow::{Event, Step, asks_fields, fails_with, get_step, http_failure, http_failure_message,
    json_output, lines_of, one_line, prints, push_line, sends, unexpected_event};
use crate::cmd::keys::{dash, or_text};
use crate::cmd::util::{truncate, truncated};
use crate::cmd::workflow::or_zero;
use crate::json::{Json, JsonValue, member, str_member, take_member, u64_member, value_of, values_of};
use crate::output::{decimal, decimal_string};
use crate::repository::{RepoSplit, repo_path, repo_prefix, resolve_repo, target_repo};
use crate::request::{Method, is_success};
use crate::table::{pad_right, push_padded_right};

verus! {

/// A query parameter `&NAME=VALUE` when a value is given.
pub open spec fn and_param(name: Seq<char>, value: Option<String>) -> Seq<char> {
    match value {
        Some(v) => "&"@ + name + "="@ + v@,
        None => Seq::empty(),
    }
}

/// The path that lists the runs.
pub open spec fn runs_path_of(owner: Seq<char>, repo: Seq<char>, workflow: Option<String>, branch: Option<String>, limit: u32) -> Seq<char> {
    repo_prefix(owner, repo) + "/actions/runs?per_page="@ + decimal(if limit < 100 { limit as nat } else { 100 })
        + and_param("workflow"@, workflow) + and_param("branch"@, branch)
}

fn push_param(p: &mut String, name: &str, value: &Option<String>)
    ensures
        final(p)@ == old(p)@ + and_param(name@, *value),
{
    if let Some(v) = value {
        p.append("&");
        p.append(name);
        p.append("=");
        p.append(v.as_str());
        assert(p@ =~= old(p)@ + and_param(name@, *value));
    } else {
        assert(p@ =~= old(p)@ + and_param(name@, *value));
    }
}

/// Builds [`runs_path_of`].
pub fn runs_path(spec: &RepoSplit, workflow: &Option<String>, branch: &Option<String>, limit: u32) -> (r: String)
    ensures
        r@ == runs_path_of(spec.owner@, spec.repo@, *workflow, *branch, limit),
{
    let mut p = repo_path(spec);
    p.append("/actions/runs?per_page=");
    let n: u32 = if limit < 100 { limit } else { 100 };
    p.append(decimal_string(n as u64).as_str());
    push_param(&mut p, "workflow", workflow);
    push_param(&mut p, "branch", branch);
    p
}

/// The runs a reply lists (`workflow_runs`; none when absent).
pub open spec fn listed_runs(b: Json) -> Seq<Json> {
    match member(b, "workflow_runs"@) {
        Json::Array(items) => items@,
        _ => Seq::empty(),
    }
}

/// The header line of the run table.
pub open spec fn runs_header() -> Seq<char> {
    pad_right("RUN ID"@, 8) + "  "@ + pad_right("STATUS"@, 10) + "  "@ + pad_right("CONCLUSION"@, 12) + "  "@
        + pad_right("BRANCH"@, 20) + "  EVENT"@
}

/// One row of the run table.
pub open spec fn run_row(r: Json) -> Seq<char> {
    pad_right(decimal(or_zero(u64_member(r, "id"@)) as nat), 8) + "  "@
        + pad_right(or_text(str_member(r, "status"@), dash()), 10) + "  "@
        + pad_right(or_text(str_member(r, "conclusion"@), dash()), 12) + "  "@
        + pad_right(truncated(or_text(str_member(r, "head_branch"@), dash()), 20), 20) + "  "@
        + or_text(str_member(r, "event"@), dash())
}

/// What the run list prints of some runs.
pub open spec fn runs_table(rs: Seq<Json>) -> Seq<Seq<char>> {
    if rs.len() == 0 {
        seq!["No workflow runs found."@]
    } else {
        seq![runs_header()] + rs.map_values(|r: Json| run_row(r))
    }
}

fn text_or<'a>(t: Option<&'a str>, d: &'a str) -> (r: &'a str)
    ensures
        r@ == or_text(match t { Some(x) => Some(x@), None => None }, d@),
{
    match t {
        Some(x) => x,
        None => d,
    }
}

fn run_row_line(r: &Json) -> (l: String)
    ensures
        l@ == run_row(*r),
{
    let id = match r.u64_member("id") {
        Some(n) => n,
        None => 0,
    };
    let mut line = String::new();
    push_padded_right(&mut line, decimal_string(id).as_str(), 8);
    line.append("  ");
    push_padded_right(&mut line, text_or(r.str_member("status"), "\u{2014}"), 10);
    line.append("  ");
    push_padded_right(&mut line, text_or(r.str_member("conclusion"), "\u{2014}"), 12);
    line.append("  ");
    push_padded_right(&mut line, truncate(text_or(r.str_member("head_branch"), "\u{2014}"), 20).as_str(), 20);
    line.append("  ");
    line.append(text_or(r.str_member("event"), "\u{2014}"));
    line
}

/// The lines of the run list.
pub fn runs_table_lines(rs: &Vec<Json>) -> (r: Vec<String>)
    ensures
        lines_of(r@) == runs_table(rs@),
{
    if rs.len() == 0 {
        return one_line("No workflow runs found.".to_owned());
    }
    let mut header = String::new();
    push_padded_right(&mut header, "RUN ID", 8);
    header.append("  ");
    push_padded_right(&mut header, "STATUS", 10);
    header.append("  ");
    push_padded_right(&mut header, "CONCLUSION", 12);
    header.append("  ");
    push_padded_right(&mut header, "BRANCH", 20);
    header.append("  EVENT");
    let mut lines = one_line(header);
    let mut i: usize = 0;
    while i < rs.len()
        invariant
            i <= rs@.len(),
            rs@.len() > 0,
            lines_of(lines@) == seq![runs_header()] + rs@.take(i as int).map_values(|x: Json| run_row(x)),
        decreases rs@.len() - i,
    {
        push_line(&mut lines, run_row_line(&rs[i]));
        assert(rs@.take(i + 1).map_values(|x: Json| run_row(x))
            =~= rs@.take(i as int).map_values(|x: Json| run_row(x)).push(run_row(rs@[i as int])));
        i = i + 1;
    }
    assert(rs@.take(rs@.len() as int) == rs@);
    lines
}

/// At most the first `n` runs.
pub open spec fn first_runs(s: Seq<Json>, n: u32) -> Seq<Json> {
    if s.len() <= n { s } else { s.take(n as int) }
}

/// Said when no repository was named and none was found.
pub open spec fn undetected_repo() -> Seq<char> {
    "could not detect repository; specify OWNER/REPO with --repo"@
}

/// What `gor run` does on each event.
pub open spec fn run_step(cmd: RunCommand, detected: Option<RepoSplit>, event: Event, step: Step) -> bool {
    match cmd {
        RunCommand::List { workflow, branch, repo, limit, json, .. } => match event {
            Event::Start => match target_repo(repo, detected, undetected_repo()) {
                Err(m) => fails_with(step, m),
                Ok((o, n)) => sends(step, Method::Get, runs_path_of(o, n, workflow, branch, limit)),
            },
            Event::Reply(resp) => if !is_success(resp.status) {
                fails_with(step, http_failure("failed to list runs"@, resp.status_text@))
            } else {
                match resp.body {
                    None => fails_with(step, "failed to parse response"@),
                    Some(b) => {
                        let rs = first_runs(listed_runs(b), limit);
                        if json is Some {
                            step matches Step::PrintJson(j) && (if asks_fields(json) {
                                j matches Json::Object(out) && out@.len() == 0
                            } else {
                                value_of(j) == JsonValue::Array(values_of(rs))
                            })
                        } else {
                            prints(step, runs_table(rs))
                        }
                    },
                }
            },
            Event::FileText(_) => fails_with(step, unexpected_event()),
        },
    }
}

/// Run the `gor run` subcommand: one step, given the event. `detected` is
/// the repository of the working copy, when there is one.
pub fn run(cmd: &RunCommand, detected: &Option<RepoSplit>, event: Event) -> (r: Step)
    ensures
        run_step(*cmd, *detected, event, r),
{
    match cmd {
        RunCommand::List { workflow, branch, repo, limit, json, .. } => match event {
            Event::Start => match resolve_repo(repo, detected, "could not detect repository; specify OWNER/REPO with --repo") {
                Err(m) => Step::Fail(m),
                Ok(spec) => get_step(runs_path(&spec, workflow, branch, *limit)),
            },
            Event::Reply(resp) => {
                if !(200 <= resp.status && resp.status <= 299) {
                    return Step::Fail(http_failure_message("failed to list runs", resp.status_text.as_str()));
                }
                match resp.body {
                    None => Step::Fail("failed to parse response".to_owned()),
                    Some(b) => {
                        let ghost body = b;
                        let mut rs = match take_member(b, "workflow_runs") {
                            Json::Array(items) => items,
                            _ => Vec::new(),
                        };
                        assert(rs@ == listed_runs(body));
                        rs.truncate(*limit as usize);
                        assert(rs@ =~= first_runs(listed_runs(body), *limit));
                        if json.is_some() {
                            Step::PrintJson(json_output(Json::Array(rs), json))
                        } else {
                            Step::Print(runs_table_lines(&rs))
                        }
                    },
                }
            },
            Event::FileText(_) => Step::Fail("unexpected event".to_owned()),
        },
    }
}

} // verus!
