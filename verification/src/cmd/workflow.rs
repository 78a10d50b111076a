//! `gor workflow`: the GitHub Actions workflows of a repository.
use vstd::prelude::*;
use vstd::string::*;
use crate::cmd::flow::{Step, asks_fields, fails_with, http_failure, http_failure_message, json_output, lines_of,
    one_line, prints, push_line};
use crate::cmd::issue::{check_status, date_or_dash, repo_text, status_error};
use crate::cmd::keys::{dash, or_text};
use crate::cmd::util::{truncate, truncated};
use crate::json::{Json, JsonValue, member, str_member, take_member, u64_member, value_of, values_of};
use crate::output::{decimal, decimal_string, format_date, parsed_u64, parse_u64};
use crate::repository::{RepoSplit, repo_path, repo_prefix};
use crate::request::{ApiResponse, is_success};
use crate::table::{pad_right, push_padded_right};
use crate::text::{replace_all, replaced};

verus! {

/// `/repos/OWNER/REPO/actions/workflows`.
pub open spec fn workflows_prefix(owner: Seq<char>, repo: Seq<char>) -> Seq<char> {
    repo_prefix(owner, repo) + "/actions/workflows"@
}

fn workflows_path(spec: &RepoSplit) -> (r: String)
    ensures
        r@ == workflows_prefix(spec.owner@, spec.repo@),
{
    let mut p = repo_path(spec);
    p.append("/actions/workflows");
    p
}

/// The path that lists the workflows.
pub open spec fn list_path_of(owner: Seq<char>, repo: Seq<char>, limit: u32) -> Seq<char> {
    workflows_prefix(owner, repo) + "?per_page="@ + decimal(if limit < 100 { limit as nat } else { 100 })
}

/// Builds [`list_path_of`].
pub fn list_path(spec: &RepoSplit, limit: u32) -> (r: String)
    ensures
        r@ == list_path_of(spec.owner@, spec.repo@, limit),
{
    let mut p = workflows_path(spec);
    p.append("?per_page=");
    let n: u32 = if limit < 100 { limit } else { 100 };
    p.append(decimal_string(n as u64).as_str());
    p
}

/// The workflows a listing reply holds (`workflows`; none when absent).
pub open spec fn listed_workflows(b: Json) -> Seq<Json> {
    match member(b, "workflows"@) {
        Json::Array(items) => items@,
        _ => Seq::empty(),
    }
}

/// The header line of the workflow table.
pub open spec fn workflow_header() -> Seq<char> {
    pad_right("ID"@, 8) + "  "@ + pad_right("NAME"@, 40) + "  "@ + pad_right("STATE"@, 12)
}

/// A number, 0 when there is none.
pub open spec fn or_zero(n: Option<u64>) -> u64 {
    match n {
        Some(v) => v,
        None => 0,
    }
}

/// One row of the workflow table.
pub open spec fn workflow_row(w: Json) -> Seq<char> {
    pad_right(decimal(or_zero(u64_member(w, "id"@)) as nat), 8) + "  "@
        + pad_right(truncated(or_text(str_member(w, "name"@), dash()), 40), 40) + "  "@
        + pad_right(or_text(str_member(w, "state"@), dash()), 12)
}

/// What the workflow list prints.
pub open spec fn workflow_table(ws: Seq<Json>) -> Seq<Seq<char>> {
    if ws.len() == 0 {
        seq!["No workflows found."@]
    } else {
        seq![workflow_header()] + ws.map_values(|w: Json| workflow_row(w))
    }
}

fn text_or<'a>(t: Option<&'a str>, d: &'a str) -> (r: &'a str)
    ensures
        r@ == or_text(match t { Some(x) => Some(x@), None => None }, d@),
{
    match t {
        Some(x) => x,
        None => d,
    }
}

fn workflow_row_line(w: &Json) -> (r: String)
    ensures
        r@ == workflow_row(*w),
{
    let id = match w.u64_member("id") {
        Some(n) => n,
        None => 0,
    };
    let mut line = String::new();
    push_padded_right(&mut line, decimal_string(id).as_str(), 8);
    line.append("  ");
    push_padded_right(&mut line, truncate(text_or(w.str_member("name"), "\u{2014}"), 40).as_str(), 40);
    line.append("  ");
    push_padded_right(&mut line, text_or(w.str_member("state"), "\u{2014}"), 12);
    line
}

/// The lines of the workflow list.
pub fn workflow_table_lines(ws: &Vec<Json>) -> (r: Vec<String>)
    ensures
        lines_of(r@) == workflow_table(ws@),
{
    if ws.len() == 0 {
        return one_line("No workflows found.".to_owned());
    }
    let mut header = String::new();
    push_padded_right(&mut header, "ID", 8);
    header.append("  ");
    push_padded_right(&mut header, "NAME", 40);
    header.append("  ");
    push_padded_right(&mut header, "STATE", 12);
    let mut lines = one_line(header);
    let mut i: usize = 0;
    while i < ws.len()
        invariant
            i <= ws@.len(),
            ws@.len() > 0,
            lines_of(lines@) == seq![workflow_header()] + ws@.take(i as int).map_values(|x: Json| workflow_row(x)),
        decreases ws@.len() - i,
    {
        let row = workflow_row_line(&ws[i]);
        push_line(&mut lines, row);
        assert(ws@.take(i + 1).map_values(|x: Json| workflow_row(x))
            =~= ws@.take(i as int).map_values(|x: Json| workflow_row(x)).push(workflow_row(ws@[i as int])));
        i = i + 1;
    }
    assert(ws@.take(ws@.len() as int) == ws@);
    lines
}

fn quoted(prefix: &str, spec: &RepoSplit, suffix: &str) -> (r: String)
    ensures
        r@ == prefix@ + repo_text(spec.owner@, spec.repo@) + suffix@,
{
    let mut m = prefix.to_owned();
    m.append(spec.owner.as_str());
    m.append("/");
    m.append(spec.repo.as_str());
    m.append(suffix);
    m
}

/// At most the first `n` of `s`.
pub open spec fn first(s: Seq<Json>, n: u32) -> Seq<Json> {
    if s.len() <= n { s } else { s.take(n as int) }
}

/// What `gor workflow list` ends with, given the reply to its request.
pub open spec fn list_ending(owner: Seq<char>, repo: Seq<char>, limit: u32, json: Option<Vec<String>>,
    resp: ApiResponse, step: Step) -> bool
{
    let t = repo_text(owner, repo);
    match status_error(resp.status, resp.status_text@, "repository '"@ + t + "' not found"@, None,
        "failed to list workflows for '"@ + t + "'"@) {
        Some(m) => fails_with(step, m),
        None => match resp.body {
            None => fails_with(step, "failed to parse workflows response"@),
            Some(b) => {
                let ws = first(listed_workflows(b), limit);
                if json is Some {
                    step matches Step::PrintJson(j) && (if asks_fields(json) {
                        j matches Json::Object(out) && out@.len() == 0
                    } else {
                        value_of(j) == JsonValue::Array(values_of(ws))
                    })
                } else {
                    prints(step, workflow_table(ws))
                }
            },
        },
    }
}

/// Reads the reply to the workflow listing.
pub fn list_result(spec: &RepoSplit, limit: u32, json: &Option<Vec<String>>, resp: ApiResponse) -> (r: Step)
    ensures
        list_ending(spec.owner@, spec.repo@, limit, *json, resp, r),
{
    let err = check_status(resp.status, resp.status_text.as_str(), quoted("repository '", spec, "' not found"), None,
        quoted("failed to list workflows for '", spec, "'").as_str());
    if let Some(m) = err {
        return Step::Fail(m);
    }
    match resp.body {
        None => Step::Fail("failed to parse workflows response".to_owned()),
        Some(b) => {
            let ghost body = b;
            let mut ws = match take_member(b, "workflows") {
                Json::Array(items) => items,
                _ => Vec::new(),
            };
            assert(ws@ == listed_workflows(body));
            ws.truncate(limit as usize);
            assert(ws@ =~= first(listed_workflows(body), limit));
            if json.is_some() {
                Step::PrintJson(json_output(Json::Array(ws), json))
            } else {
                Step::Print(workflow_table_lines(&ws))
            }
        },
    }
}

// ---------------------------------------------------------------------------
// gor workflow view
// ---------------------------------------------------------------------------

/// How a workflow is named in a path: a numeric ID as it is, a file name
/// with each `/` written `%2F`.
pub open spec fn workflow_ref(workflow: Seq<char>) -> Seq<char> {
    if parsed_u64(workflow) is Some { workflow } else { replaced(workflow, "/"@, "%2F"@) }
}

/// The path that reads a workflow.
pub open spec fn view_path_of(owner: Seq<char>, repo: Seq<char>, workflow: Seq<char>) -> Seq<char> {
    workflows_prefix(owner, repo) + "/"@ + workflow_ref(workflow)
}

/// Builds [`view_path_of`].
pub fn view_path(spec: &RepoSplit, workflow: &str) -> (r: String)
    ensures
        r@ == view_path_of(spec.owner@, spec.repo@, workflow@),
{
    let mut p = workflows_path(spec);
    p.append("/");
    if parse_u64(workflow).is_some() {
        p.append(workflow);
    } else {
        proof { reveal_strlit("/"); }
        p.append(replace_all(workflow, "/", "%2F").as_str());
    }
    p
}

/// The path of a workflow's recent runs (the workflow named as given).
pub open spec fn runs_path_of(owner: Seq<char>, repo: Seq<char>, workflow: Seq<char>) -> Seq<char> {
    workflows_prefix(owner, repo) + "/"@ + workflow + "/runs?per_page=5"@
}

/// Builds [`runs_path_of`].
pub fn runs_path(spec: &RepoSplit, workflow: &str) -> (r: String)
    ensures
        r@ == runs_path_of(spec.owner@, spec.repo@, workflow@),
{
    let mut p = workflows_path(spec);
    p.append("/");
    p.append(workflow);
    p.append("/runs?per_page=5");
    p
}

/// The failure of the workflow request, if any.
pub open spec fn view_failure(workflow: Seq<char>, owner: Seq<char>, repo: Seq<char>, resp: ApiResponse) -> Option<Seq<char>> {
    match status_error(resp.status, resp.status_text@,
        "workflow '"@ + workflow + "' not found in repository '"@ + repo_text(owner, repo) + "'"@, None,
        "failed to view workflow"@) {
        Some(m) => Some(m),
        None => if resp.body is None { Some("failed to parse workflow response"@) } else { None },
    }
}

/// Reads the reply to the workflow request: the workflow, or the failure.
pub fn view_result(workflow: &str, spec: &RepoSplit, resp: ApiResponse) -> (r: Result<Json, String>)
    ensures
        match view_failure(workflow@, spec.owner@, spec.repo@, resp) {
            Some(m) => r matches Err(e) && e@ == m,
            None => r == Ok::<Json, String>(resp.body->0),
        },
{
    let mut nf = "workflow '".to_owned();
    nf.append(workflow);
    nf.append(quoted("' not found in repository '", spec, "'").as_str());
    assert(nf@ =~= "workflow '"@ + workflow@ + "' not found in repository '"@ + repo_text(spec.owner@, spec.repo@) + "'"@);
    let err = check_status(resp.status, resp.status_text.as_str(), nf, None, "failed to view workflow");
    if let Some(m) = err {
        return Err(m);
    }
    match resp.body {
        None => Err("failed to parse workflow response".to_owned()),
        Some(b) => Ok(b),
    }
}

/// The recent runs a reply lists: none when the request failed, was
/// refused or did not parse.
pub open spec fn recent_runs_of(resp: Option<ApiResponse>) -> Seq<Json> {
    match resp {
        Some(r) if is_success(r.status) => match r.body {
            Some(b) => match member(b, "workflow_runs"@) {
                Json::Array(items) => items@,
                _ => Seq::empty(),
            },
            None => Seq::empty(),
        },
        _ => Seq::empty(),
    }
}

/// Takes the recent runs out of a reply.
pub fn recent_runs(resp: Option<ApiResponse>) -> (r: Vec<Json>)
    ensures
        r@ == recent_runs_of(resp),
{
    match resp {
        Some(rp) => {
            if !(200 <= rp.status && rp.status <= 299) {
                return Vec::new();
            }
            match rp.body {
                Some(b) => match take_member(b, "workflow_runs") {
                    Json::Array(items) => items,
                    _ => Vec::new(),
                },
                None => Vec::new(),
            }
        },
        None => Vec::new(),
    }
}

/// The header of the recent-runs table.
pub open spec fn runs_header() -> Seq<char> {
    "    "@ + pad_right("RUN ID"@, 8) + "  "@ + pad_right("STATUS"@, 10) + "  "@ + pad_right("CONCLUSION"@, 12)
        + "  "@ + pad_right("BRANCH"@, 20) + "  "@ + pad_right("TIMESTAMP"@, 16)
}

/// One row of the recent-runs table.
pub open spec fn run_row(r: Json) -> Seq<char> {
    "    "@ + pad_right(decimal(or_zero(u64_member(r, "id"@)) as nat), 8) + "  "@
        + pad_right(or_text(str_member(r, "status"@), dash()), 10) + "  "@
        + pad_right(or_text(str_member(r, "conclusion"@), dash()), 12) + "  "@
        + pad_right(or_text(str_member(r, "head_branch"@), dash()), 20) + "  "@
        + pad_right(date_or_dash(str_member(r, "created_at"@)), 16)
}

/// What `gor workflow view` prints: name, state, path, the triggering
/// events (each as its JSON text, given in `events`), and the recent runs.
pub open spec fn workflow_view(w: Json, events: Seq<String>, runs: Seq<Json>) -> Seq<Seq<char>> {
    seq![
        "  Name: "@ + or_text(str_member(w, "name"@), dash()),
        "  State: "@ + or_text(str_member(w, "state"@), dash()),
        "  Path: "@ + or_text(str_member(w, "path"@), dash()),
    ]
        + (if events.len() > 0 {
            seq!["  Events:"@] + events.map_values(|e: String| "    - "@ + e@)
        } else {
            Seq::empty()
        })
        + (if runs.len() > 0 {
            seq!["  Recent runs:"@, runs_header()] + runs.map_values(|r: Json| run_row(r))
        } else {
            Seq::empty()
        })
}

fn run_row_line(r: &Json) -> (l: String)
    ensures
        l@ == run_row(*r),
{
    let id = match r.u64_member("id") {
        Some(n) => n,
        None => 0,
    };
    let created = match r.str_member("created_at") {
        Some(d) => format_date(d),
        None => "\u{2014}".to_owned(),
    };
    let mut line = "    ".to_owned();
    push_padded_right(&mut line, decimal_string(id).as_str(), 8);
    line.append("  ");
    push_padded_right(&mut line, text_or(r.str_member("status"), "\u{2014}"), 10);
    line.append("  ");
    push_padded_right(&mut line, text_or(r.str_member("conclusion"), "\u{2014}"), 12);
    line.append("  ");
    push_padded_right(&mut line, text_or(r.str_member("head_branch"), "\u{2014}"), 20);
    line.append("  ");
    push_padded_right(&mut line, created.as_str(), 16);
    line
}

/// The lines of `gor workflow view`. `events` are the workflow's
/// triggering events, each written out as JSON.
pub fn workflow_view_lines(w: &Json, events: &Vec<String>, runs: &Vec<Json>) -> (r: Vec<String>)
    ensures
        lines_of(r@) == workflow_view(*w, events@, runs@),
{
    let mut l = "  Name: ".to_owned();
    l.append(text_or(w.str_member("name"), "\u{2014}"));
    let mut lines = one_line(l);
    let mut l = "  State: ".to_owned();
    l.append(text_or(w.str_member("state"), "\u{2014}"));
    push_line(&mut lines, l);
    let mut l = "  Path: ".to_owned();
    l.append(text_or(w.str_member("path"), "\u{2014}"));
    push_line(&mut lines, l);
    let ghost head = lines_of(lines@);
    if events.len() > 0 {
        push_line(&mut lines, "  Events:".to_owned());
        let ghost start = lines_of(lines@);
        let mut i: usize = 0;
        while i < events.len()
            invariant
                i <= events@.len(),
                lines_of(lines@) == start + events@.take(i as int).map_values(|e: String| "    - "@ + e@),
            decreases events.len() - i,
        {
            let mut l = "    - ".to_owned();
            l.append(events[i].as_str());
            push_line(&mut lines, l);
            assert(events@.take(i + 1).map_values(|e: String| "    - "@ + e@)
                =~= events@.take(i as int).map_values(|e: String| "    - "@ + e@).push("    - "@ + events@[i as int]@));
            i = i + 1;
        }
        assert(events@.take(events@.len() as int) == events@);
    }
    let ghost mid = lines_of(lines@);
    if runs.len() > 0 {
        push_line(&mut lines, "  Recent runs:".to_owned());
        let mut h = "    ".to_owned();
        push_padded_right(&mut h, "RUN ID", 8);
        h.append("  ");
        push_padded_right(&mut h, "STATUS", 10);
        h.append("  ");
        push_padded_right(&mut h, "CONCLUSION", 12);
        h.append("  ");
        push_padded_right(&mut h, "BRANCH", 20);
        h.append("  ");
        push_padded_right(&mut h, "TIMESTAMP", 16);
        push_line(&mut lines, h);
        let ghost start = lines_of(lines@);
        let mut i: usize = 0;
        while i < runs.len()
            invariant
                i <= runs@.len(),
                lines_of(lines@) == start + runs@.take(i as int).map_values(|r: Json| run_row(r)),
            decreases runs.len() - i,
        {
            push_line(&mut lines, run_row_line(&runs[i]));
            assert(runs@.take(i + 1).map_values(|r: Json| run_row(r))
                =~= runs@.take(i as int).map_values(|r: Json| run_row(r)).push(run_row(runs@[i as int])));
            i = i + 1;
        }
        assert(runs@.take(runs@.len() as int) == runs@);
    }
    assert(lines_of(lines@) =~= workflow_view(*w, events@, runs@));
    lines
}

// ---------------------------------------------------------------------------
// enable, disable, run
// ---------------------------------------------------------------------------

/// The path that enables (`enable`) or disables (`disable`) a workflow, or
/// triggers it (`dispatches`).
pub open spec fn action_path_of(owner: Seq<char>, repo: Seq<char>, workflow: Seq<char>, action: Seq<char>) -> Seq<char> {
    workflows_prefix(owner, repo) + "/"@ + workflow + "/"@ + action
}

/// Builds [`action_path_of`].
pub fn action_path(spec: &RepoSplit, workflow: &str, action: &str) -> (r: String)
    ensures
        r@ == action_path_of(spec.owner@, spec.repo@, workflow@, action@),
{
    let mut p = workflows_path(spec);
    p.append("/");
    p.append(workflow);
    p.append("/");
    p.append(action);
    p
}

/// The branch a triggered run is for: the one given, else `main`.
pub fn dispatch_ref(branch: &Option<String>) -> (r: &str)
    ensures
        r@ == (match branch {
            Some(b) => b@,
            None => "main"@,
        }),
{
    match branch {
        Some(b) => b.as_str(),
        None => "main",
    }
}

/// What switching a workflow on or off ends with: the line printed, or the
/// failure. `enabled` says which way it was switched.
pub open spec fn switched(workflow: Seq<char>, enabled: bool, status: u16, status_text: Seq<char>) -> Result<Seq<char>, Seq<char>> {
    let verb = if enabled { "enable"@ } else { "disable"@ };
    if !is_success(status) {
        Err(http_failure("failed to "@ + verb + " workflow '"@ + workflow + "'"@, status_text))
    } else {
        Ok("Workflow '"@ + workflow + "' is now "@ + verb + "d."@)
    }
}

/// Reads the reply to enabling or disabling a workflow.
pub fn switch_result(workflow: &str, enabled: bool, status: u16, status_text: &str) -> (r: Result<String, String>)
    ensures
        match switched(workflow@, enabled, status, status_text@) {
            Ok(l) => r matches Ok(m) && m@ == l,
            Err(e) => r matches Err(m) && m@ == e,
        },
{
    let verb = if enabled { "enable" } else { "disable" };
    if !(200 <= status && status <= 299) {
        let mut p = "failed to ".to_owned();
        p.append(verb);
        p.append(" workflow '");
        p.append(workflow);
        p.append("'");
        return Err(http_failure_message(p.as_str(), status_text));
    }
    let mut m = "Workflow '".to_owned();
    m.append(workflow);
    m.append("' is now ");
    m.append(verb);
    m.append("d.");
    Ok(m)
}

/// What triggering a run ends with.
pub open spec fn triggered(workflow: Seq<char>, status: u16, status_text: Seq<char>) -> Result<Seq<char>, Seq<char>> {
    if !is_success(status) {
        Err(http_failure("failed to trigger workflow run"@, status_text))
    } else {
        Ok("Workflow run triggered for '"@ + workflow + "'."@)
    }
}

/// Reads the reply to triggering a run.
pub fn trigger_result(workflow: &str, status: u16, status_text: &str) -> (r: Result<String, String>)
    ensures
        match triggered(workflow@, status, status_text@) {
            Ok(l) => r matches Ok(m) && m@ == l,
            Err(e) => r matches Err(m) && m@ == e,
        },
{
    if !(200 <= status && status <= 299) {
        return Err(http_failure_message("failed to trigger workflow run", status_text));
    }
    let mut m = "Workflow run triggered for '".to_owned();
    m.append(workflow);
    m.append("'.");
    Ok(m)
}

/// The header of the short workflow table (ID, NAME, STATE).
pub open spec fn short_header() -> Seq<char> {
    pad_right("ID"@, 8) + "  "@ + pad_right("NAME"@, 30) + "  STATE"@
}

/// One row of the short workflow table.
pub open spec fn short_row(w: Json) -> Seq<char> {
    pad_right(decimal(or_zero(u64_member(w, "id"@)) as nat), 8) + "  "@
        + pad_right(truncated(or_text(str_member(w, "name"@), dash()), 30), 30) + "  "@
        + or_text(str_member(w, "state"@), dash())
}

/// The short workflow table, or a line saying there is none.
pub open spec fn short_table(ws: Seq<Json>) -> Seq<Seq<char>> {
    if ws.len() == 0 {
        seq!["No workflows found."@]
    } else {
        seq![short_header()] + ws.map_values(|w: Json| short_row(w))
    }
}

fn short_row_line(w: &Json) -> (r: String)
    ensures
        r@ == short_row(*w),
{
    let id = match w.u64_member("id") {
        Some(n) => n,
        None => 0,
    };
    let mut line = String::new();
    push_padded_right(&mut line, decimal_string(id).as_str(), 8);
    line.append("  ");
    push_padded_right(&mut line, truncate(text_or(w.str_member("name"), "\u{2014}"), 30).as_str(), 30);
    line.append("  ");
    line.append(text_or(w.str_member("state"), "\u{2014}"));
    line
}

/// The lines of the short workflow table.
pub fn short_table_lines(ws: &Vec<Json>) -> (r: Vec<String>)
    ensures
        lines_of(r@) == short_table(ws@),
{
    if ws.len() == 0 {
        return one_line("No workflows found.".to_owned());
    }
    let mut header = String::new();
    push_padded_right(&mut header, "ID", 8);
    header.append("  ");
    push_padded_right(&mut header, "NAME", 30);
    header.append("  STATE");
    let mut lines = one_line(header);
    let mut i: usize = 0;
    while i < ws.len()
        invariant
            i <= ws@.len(),
            ws@.len() > 0,
            lines_of(lines@) == seq![short_header()] + ws@.take(i as int).map_values(|x: Json| short_row(x)),
        decreases ws@.len() - i,
    {
        push_line(&mut lines, short_row_line(&ws[i]));
        assert(ws@.take(i + 1).map_values(|x: Json| short_row(x))
            =~= ws@.take(i as int).map_values(|x: Json| short_row(x)).push(short_row(ws@[i as int])));
        i = i + 1;
    }
    assert(ws@.take(ws@.len() as int) == ws@);
    lines
}

/// The short view of a workflow: its name, state and path.
pub open spec fn summary(w: Json) -> Seq<Seq<char>> {
    seq![
        "  Name: "@ + or_text(str_member(w, "name"@), dash()),
        "  State: "@ + or_text(str_member(w, "state"@), dash()),
        "  Path: "@ + or_text(str_member(w, "path"@), dash()),
    ]
}

fn labelled(label: &str, text: &str) -> (r: String)
    ensures
        r@ == label@ + text@,
{
    let mut l = label.to_owned();
    l.append(text);
    l
}

/// The lines of [`summary`].
pub fn summary_lines(w: &Json) -> (r: Vec<String>)
    ensures
        lines_of(r@) == summary(*w),
{
    let mut lines = one_line(labelled("  Name: ", text_or(w.str_member("name"), "\u{2014}")));
    push_line(&mut lines, labelled("  State: ", text_or(w.str_member("state"), "\u{2014}")));
    push_line(&mut lines, labelled("  Path: ", text_or(w.str_member("path"), "\u{2014}")));
    assert(lines_of(lines@) =~= summary(*w));
    lines
}

/// What the short form reports after switching a workflow.
pub fn switched_message(workflow: &str, enabled: bool) -> (r: String)
    ensures
        r@ == "Workflow '"@ + workflow@ + (if enabled { "' enabled."@ } else { "' disabled."@ }),
{
    let mut m = "Workflow '".to_owned();
    m.append(workflow);
    if enabled {
        m.append("' enabled.");
    } else {
        m.append("' disabled.");
    }
    m
}

} // verus!
