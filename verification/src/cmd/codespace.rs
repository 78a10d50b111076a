//! `gor codespace`: the codespaces of the signed-in user.
use vstd::prelude::*;
use vstd::string::*;
use crate::cmd::flow::{Step, asks_fields, fails_with, http_failure, http_failure_message, json_output, lines_of,
    message_or, one_line, prints, push_line, reply_message, shows_json};
use crate::cmd::keys::{dash, or_text};
use crate::cmd::util::{truncate, truncated};
use crate::json::{Json, JsonValue, has_member, member, members_of, no_members, push_member, str_member, str_value,
    string_json, take_member, value_of, values_of};
use crate::output::{decimal, decimal_string};
use crate::request::{ApiResponse, is_success};
use crate::table::{pad_right, push_padded_right};
use crate::text::str_eq;

verus! {

/// The path that lists codespaces, of one repository when named.
pub open spec fn list_path_of(repo: Option<String>) -> Seq<char> {
    match repo {
        Some(r) => "/user/codespaces?repository_id="@ + r@,
        None => "/user/codespaces"@,
    }
}

/// Builds [`list_path_of`].
pub fn list_path(repo: &Option<String>) -> (r: String)
    ensures
        r@ == list_path_of(*repo),
{
    match repo {
        Some(r) => {
            let mut p = "/user/codespaces?repository_id=".to_owned();
            p.append(r.as_str());
            p
        },
        None => "/user/codespaces".to_owned(),
    }
}

/// The codespaces a listing reply holds (`codespaces`; none when absent).
pub open spec fn listed_spaces(body: Json) -> Seq<Json> {
    match member(body, "codespaces"@) {
        Json::Array(items) => items@,
        _ => Seq::empty(),
    }
}

/// The header line of the codespace table.
pub open spec fn space_header() -> Seq<char> {
    pad_right("NAME"@, 24) + "  "@ + pad_right("REPOSITORY"@, 20) + "  "@ + pad_right("STATE"@, 15) + "  BRANCH"@
}

/// One row of the codespace table.
pub open spec fn space_row(s: Json) -> Seq<char> {
    pad_right(truncated(or_text(str_member(s, "name"@), dash()), 24), 24) + "  "@
        + pad_right(truncated(or_text(str_member(member(s, "repository"@), "full_name"@), dash()), 20), 20) + "  "@
        + pad_right(or_text(str_member(s, "state"@), dash()), 15) + "  "@
        + or_text(str_member(member(s, "git_status"@), "branch"@), dash())
}

/// What the codespace list prints.
pub open spec fn space_table(ss: Seq<Json>) -> Seq<Seq<char>> {
    if ss.len() == 0 {
        seq!["No codespaces found."@]
    } else {
        seq![space_header()] + ss.map_values(|s: Json| space_row(s))
    }
}

fn text_or<'a>(t: Option<&'a str>, d: &'a str) -> (r: &'a str)
    ensures
        r@ == or_text(match t { Some(x) => Some(x@), None => None }, d@),
{
    match t {
        Some(x) => x,
        None => d,
    }
}

fn nested_text<'a>(j: &'a Json, outer: &str, key: &str) -> (r: Option<&'a str>)
    ensures
        match r {
            Some(s) => str_member(member(*j, outer@), key@) == Some(s@),
            None => str_member(member(*j, outer@), key@) is None,
        },
{
    match j.get(outer) {
        Some(o) => o.str_member(key),
        None => {
            assert(str_member(Json::Null, key@) is None);
            None
        },
    }
}

fn space_row_line(s: &Json) -> (r: String)
    ensures
        r@ == space_row(*s),
{
    let mut line = String::new();
    push_padded_right(&mut line, truncate(text_or(s.str_member("name"), "\u{2014}"), 24).as_str(), 24);
    line.append("  ");
    push_padded_right(&mut line, truncate(text_or(nested_text(s, "repository", "full_name"), "\u{2014}"), 20).as_str(), 20);
    line.append("  ");
    push_padded_right(&mut line, text_or(s.str_member("state"), "\u{2014}"), 15);
    line.append("  ");
    line.append(text_or(nested_text(s, "git_status", "branch"), "\u{2014}"));
    line
}

/// The lines of the codespace list.
pub fn space_table_lines(ss: &Vec<Json>) -> (r: Vec<String>)
    ensures
        lines_of(r@) == space_table(ss@),
{
    if ss.len() == 0 {
        return one_line("No codespaces found.".to_owned());
    }
    let mut header = String::new();
    push_padded_right(&mut header, "NAME", 24);
    header.append("  ");
    push_padded_right(&mut header, "REPOSITORY", 20);
    header.append("  ");
    push_padded_right(&mut header, "STATE", 15);
    header.append("  BRANCH");
    let mut lines = one_line(header);
    let mut i: usize = 0;
    while i < ss.len()
        invariant
            i <= ss@.len(),
            ss@.len() > 0,
            lines_of(lines@) == seq![space_header()] + ss@.take(i as int).map_values(|x: Json| space_row(x)),
        decreases ss@.len() - i,
    {
        let row = space_row_line(&ss[i]);
        push_line(&mut lines, row);
        assert(ss@.take(i + 1).map_values(|x: Json| space_row(x))
            =~= ss@.take(i as int).map_values(|x: Json| space_row(x)).push(space_row(ss@[i as int])));
        i = i + 1;
    }
    assert(ss@.take(ss@.len() as int) == ss@);
    lines
}

/// What `gor codespace list` ends with, given the reply to its request.
pub open spec fn list_ending(json: Option<Vec<String>>, resp: ApiResponse, step: Step) -> bool {
    if !is_success(resp.status) {
        fails_with(step, http_failure("failed to list codespaces"@, resp.status_text@))
    } else {
        match resp.body {
            None => fails_with(step, "failed to parse response"@),
            Some(b) => {
                let ss = listed_spaces(b);
                if json is Some {
                    step matches Step::PrintJson(j) && (if asks_fields(json) {
                        j matches Json::Object(out) && out@.len() == 0
                    } else {
                        value_of(j) == JsonValue::Array(values_of(ss))
                    })
                } else {
                    prints(step, space_table(ss))
                }
            },
        }
    }
}

/// Reads the reply to the codespace listing.
pub fn list_result(json: &Option<Vec<String>>, resp: ApiResponse) -> (r: Step)
    ensures
        list_ending(*json, resp, r),
{
    if !(200 <= resp.status && resp.status <= 299) {
        return Step::Fail(http_failure_message("failed to list codespaces", resp.status_text.as_str()));
    }
    match resp.body {
        None => Step::Fail("failed to parse response".to_owned()),
        Some(b) => {
            let ss = match take_member(b, "codespaces") {
                Json::Array(items) => items,
                _ => Vec::new(),
            };
            if json.is_some() {
                Step::PrintJson(json_output(Json::Array(ss), json))
            } else {
                Step::Print(space_table_lines(&ss))
            }
        },
    }
}

/// The question asked before a deletion.
pub open spec fn delete_question(name: Seq<char>, repo: Option<String>) -> Seq<char> {
    match repo {
        Some(r) => "Are you sure you want to delete codespace '"@ + name + "' in repo '"@ + r@ + "'?"@,
        None => "Are you sure you want to delete codespace '"@ + name + "'?"@,
    }
}

/// Builds [`delete_question`].
pub fn delete_prompt(name: &str, repo: &Option<String>) -> (r: String)
    ensures
        r@ == delete_question(name@, *repo),
{
    let mut m = "Are you sure you want to delete codespace '".to_owned();
    m.append(name);
    match repo {
        Some(r) => {
            m.append("' in repo '");
            m.append(r.as_str());
            m.append("'?");
        },
        None => m.append("'?"),
    }
    m
}

/// The path of codespace `name`.
pub open spec fn space_path_of(name: Seq<char>) -> Seq<char> {
    "/user/codespaces/"@ + name
}

/// Builds [`space_path_of`].
pub fn space_path(name: &str) -> (r: String)
    ensures
        r@ == space_path_of(name@),
{
    let mut p = "/user/codespaces/".to_owned();
    p.append(name);
    p
}

/// What a deletion of codespace `name` ends with: the line it prints, or
/// the failure.
pub fn delete_result(name: &str, status: u16, status_text: &str) -> (r: Result<String, String>)
    ensures
        is_success(status) ==> (r matches Ok(m) && m@ == "Codespace '"@ + name@ + "' deleted."@),
        !is_success(status) ==> (r matches Err(m) && m@ == http_failure("failed to delete codespace '"@ + name@ + "'"@, status_text@)),
{
    if 200 <= status && status <= 299 {
        let mut m = "Codespace '".to_owned();
        m.append(name);
        m.append("' deleted.");
        Ok(m)
    } else {
        let mut p = "failed to delete codespace '".to_owned();
        p.append(name);
        p.append("'");
        Err(http_failure_message(p.as_str(), status_text))
    }
}

/// The body that creates a codespace of repository `repo`.
pub open spec fn create_body_of(repo: Seq<char>, branch: Option<String>, machine: Option<String>) -> JsonValue {
    JsonValue::Object(seq![("repository_id"@, str_value(repo))]
        + match branch {
            Some(b) => seq![("git_status"@, JsonValue::Object(seq![("branch"@, str_value(b@))]))],
            None => Seq::empty(),
        }
        + match machine {
            Some(m) => seq![("machine"@, str_value(m@))],
            None => Seq::empty(),
        })
}

/// Builds [`create_body_of`].
pub fn create_body(repo: &str, branch: &Option<String>, machine: &Option<String>) -> (r: Json)
    ensures
        value_of(r) == create_body_of(repo@, *branch, *machine),
{
    let mut e = no_members();
    push_member(&mut e, "repository_id", string_json(repo));
    let ghost after_repo = members_of(e@);
    match branch {
        Some(b) => {
            let mut g = no_members();
            push_member(&mut g, "branch", string_json(b.as_str()));
            push_member(&mut e, "git_status", Json::Object(g));
        },
        None => {},
    }
    let ghost after_branch = members_of(e@);
    match machine {
        Some(m) => push_member(&mut e, "machine", string_json(m.as_str())),
        None => {},
    }
    assert(members_of(e@) =~= seq![("repository_id"@, str_value(repo@))]
        + match *branch {
            Some(b) => seq![("git_status"@, JsonValue::Object(seq![("branch"@, str_value(b@))]))],
            None => Seq::<(Seq<char>, JsonValue)>::empty(),
        }
        + match *machine {
            Some(m) => seq![("machine"@, str_value(m@))],
            None => Seq::<(Seq<char>, JsonValue)>::empty(),
        });
    Json::Object(e)
}

/// What a creation ends with, given the reply: the line it prints, or the
/// failure.
pub open spec fn created(resp: ApiResponse, r: Result<String, String>) -> bool {
    if !is_success(resp.status) {
        r matches Err(m) && m@ == "failed to create codespace: "@ + reply_message(resp.body, "create failed"@)
    } else {
        match resp.body {
            None => r matches Err(m) && m@ == "failed to parse response"@,
            Some(b) => r matches Ok(m) && m@ == "Codespace '"@ + or_text(str_member(b, "name"@), dash()) + "' created."@,
        }
    }
}

/// Reads the reply to a creation.
pub fn create_result(resp: &ApiResponse) -> (r: Result<String, String>)
    ensures
        created(*resp, r),
{
    if !(200 <= resp.status && resp.status <= 299) {
        let mut m = "failed to create codespace: ".to_owned();
        m.append(message_or(&resp.body, "create failed").as_str());
        return Err(m);
    }
    match &resp.body {
        None => Err("failed to parse response".to_owned()),
        Some(b) => {
            let mut m = "Codespace '".to_owned();
            m.append(text_or(b.str_member("name"), "\u{2014}"));
            m.append("' created.");
            Ok(m)
        },
    }
}

/// The path of codespace `name`'s logs.
pub open spec fn logs_path_of(name: Seq<char>) -> Seq<char> {
    space_path_of(name) + "/logs"@
}

/// Builds [`logs_path_of`].
pub fn logs_path(name: &str) -> (r: String)
    ensures
        r@ == logs_path_of(name@),
{
    let mut p = space_path(name);
    p.append("/logs");
    p
}

/// What `gor codespace logs` ends with: the failure when the request
/// failed; with `--json`, the logs read as JSON (null when they are not);
/// else the text, after a title when following.
pub open spec fn logs_ending(name: Seq<char>, json: Option<Vec<String>>, follow: bool, status: u16,
    status_text: Seq<char>, text: Seq<char>, parsed: Option<Json>, step: Step) -> bool
{
    if !is_success(status) {
        fails_with(step, http_failure("failed to fetch logs for '"@ + name + "'"@, status_text))
    } else if json is Some {
        step matches Step::PrintJson(j) && shows_json(match parsed {
            Some(p) => p,
            None => Json::Null,
        }, json, j)
    } else {
        prints(step, (if follow { seq!["Logs for codespace '"@ + name + "':"@] } else { Seq::empty() }) + seq![text])
    }
}

/// Reads the reply to the logs request: its status, its text, and the text
/// read as JSON when it is JSON.
pub fn logs_result(name: &str, json: &Option<Vec<String>>, follow: bool, status: u16, status_text: &str, text: String,
    parsed: Option<Json>) -> (r: Step)
    ensures
        logs_ending(name@, *json, follow, status, status_text@, text@, parsed, r),
{
    if !(200 <= status && status <= 299) {
        let mut p = "failed to fetch logs for '".to_owned();
        p.append(name);
        p.append("'");
        return Step::Fail(http_failure_message(p.as_str(), status_text));
    }
    if json.is_some() {
        let v = match parsed {
            Some(p) => p,
            None => Json::Null,
        };
        return Step::PrintJson(json_output(v, json));
    }
    if follow {
        let mut t = "Logs for codespace '".to_owned();
        t.append(name);
        t.append("':");
        let mut lines = one_line(t);
        push_line(&mut lines, text);
        assert(lines_of(lines@) =~= seq!["Logs for codespace '"@ + name@ + "':"@] + seq![text@]);
        Step::Print(lines)
    } else {
        let lines = one_line(text);
        assert(lines_of(lines@) =~= Seq::<Seq<char>>::empty() + seq![text@]);
        Step::Print(lines)
    }
}

/// Whether the details of codespace `name` allow a connection: the failure
/// when the request failed, the reply is not JSON, or the codespace is not
/// `Available`.
pub open spec fn ssh_ready(name: Seq<char>, resp: ApiResponse) -> Result<(), Seq<char>> {
    if !is_success(resp.status) {
        Err(http_failure("failed to fetch codespace '"@ + name + "'"@, resp.status_text@))
    } else {
        match resp.body {
            None => Err("failed to parse response"@),
            Some(cs) => {
                let state = or_text(str_member(cs, "state"@), "unknown"@);
                if state == "Available"@ {
                    Ok(())
                } else {
                    Err("codespace '"@ + name + "' is not available (state: "@ + state + ")"@)
                }
            },
        }
    }
}

/// Decides [`ssh_ready`].
pub fn ssh_check(name: &str, resp: &ApiResponse) -> (r: Result<(), String>)
    ensures
        match ssh_ready(name@, *resp) {
            Ok(()) => r is Ok,
            Err(m) => r matches Err(e) && e@ == m,
        },
{
    if !(200 <= resp.status && resp.status <= 299) {
        let mut p = "failed to fetch codespace '".to_owned();
        p.append(name);
        p.append("'");
        return Err(http_failure_message(p.as_str(), resp.status_text.as_str()));
    }
    match &resp.body {
        None => Err("failed to parse response".to_owned()),
        Some(cs) => {
            let state = text_or(cs.str_member("state"), "unknown");
            if str_eq(state, "Available") {
                Ok(())
            } else {
                let mut m = "codespace '".to_owned();
                m.append(name);
                m.append("' is not available (state: ");
                m.append(state);
                m.append(")");
                Err(m)
            }
        },
    }
}

/// The SSH configuration of codespace `name` from its connection details;
/// `port` is the details' port written as JSON, when they have one.
pub open spec fn ssh_config(name: Seq<char>, details: Json, port: Option<String>) -> Seq<Seq<char>> {
    let conn = member(details, "connection"@);
    if conn is Object {
        seq!["Host "@ + name]
            + (match str_member(conn, "host"@) {
                Some(h) => seq!["  HostName "@ + h],
                None => Seq::empty(),
            })
            + (match port {
                Some(p) => if has_member(conn, "port"@) { seq!["  Port "@ + p@] } else { Seq::empty() },
                None => Seq::empty(),
            })
            + (match str_member(conn, "user"@) {
                Some(u) => seq!["  User "@ + u],
                None => Seq::empty(),
            })
    } else {
        seq!["# No SSH connection details available for '"@ + name + "'"@]
    }
}

/// What `gor codespace ssh` ends with, given the connection details (when
/// they read as JSON): with `--config`, their SSH configuration; else the
/// failure, since connecting is not done.
pub open spec fn ssh_ending(name: Seq<char>, config: bool, details: Option<Json>, port: Option<String>,
    r: Result<Vec<String>, String>) -> bool
{
    match details {
        None => r matches Err(m) && m@ == "failed to parse SSH details"@,
        Some(d) => if config {
            r matches Ok(v) && lines_of(v@) == ssh_config(name, d, port)
        } else {
            r matches Err(m) && m@ == "SSH connection is not yet implemented; use --config to view connection details"@
        },
    }
}

fn labelled(label: &str, text: &str) -> (r: String)
    ensures
        r@ == label@ + text@,
{
    let mut l = label.to_owned();
    l.append(text);
    l
}

fn no_details(name: &str) -> (r: String)
    ensures
        r@ == "# No SSH connection details available for '"@ + name@ + "'"@,
{
    let mut l = "# No SSH connection details available for '".to_owned();
    l.append(name);
    l.append("'");
    l
}

/// Decides [`ssh_ending`].
pub fn ssh_result(name: &str, config: bool, details: Option<Json>, port: &Option<String>) -> (r: Result<Vec<String>, String>)
    ensures
        ssh_ending(name@, config, details, *port, r),
{
    let d = match details {
        None => return Err("failed to parse SSH details".to_owned()),
        Some(d) => d,
    };
    if !config {
        return Err("SSH connection is not yet implemented; use --config to view connection details".to_owned());
    }
    let ghost dv = d;
    match d.get("connection") {
        Some(conn) => match conn {
            Json::Object(_) => {
                let mut lines = one_line(labelled("Host ", name));
                let ghost l0 = lines_of(lines@);
                match conn.str_member("host") {
                    Some(h) => push_line(&mut lines, labelled("  HostName ", h)),
                    None => {},
                }
                let ghost l1 = lines_of(lines@);
                match port {
                    Some(p) => if conn.get("port").is_some() {
                        push_line(&mut lines, labelled("  Port ", p.as_str()));
                    },
                    None => {},
                }
                let ghost l2 = lines_of(lines@);
                match conn.str_member("user") {
                    Some(u) => push_line(&mut lines, labelled("  User ", u)),
                    None => {},
                }
                assert(lines_of(lines@) =~= ssh_config(name@, dv, *port));
                Ok(lines)
            },
            _ => Ok(one_line(no_details(name))),
        },
        None => Ok(one_line(no_details(name))),
    }
}

/// Whether `gor codespace stop --all` stops a codespace: unless it is
/// `Shutdown` or `Deleted`.
pub open spec fn stops(s: Json) -> bool {
    let state = or_text(str_member(s, "state"@), Seq::empty());
    state != "Shutdown"@ && state != "Deleted"@
}

/// The names of the codespaces `gor codespace stop --all` stops, in order
/// (the empty name for one that has none).
pub open spec fn stop_targets_of(ss: Seq<Json>) -> Seq<Seq<char>>
    decreases ss.len(),
{
    if ss.len() == 0 {
        Seq::empty()
    } else {
        let prev = stop_targets_of(ss.drop_last());
        if stops(ss.last()) { prev.push(or_text(str_member(ss.last(), "name"@), Seq::empty())) } else { prev }
    }
}

/// The codespaces to stop, given the listing reply's body.
pub fn stop_targets(body: &Json) -> (r: Vec<String>)
    ensures
        lines_of(r@) == stop_targets_of(listed_spaces(*body)),
{
    let empty: Vec<Json> = Vec::new();
    let ss: &Vec<Json> = match body.get("codespaces") {
        Some(Json::Array(items)) => items,
        _ => &empty,
    };
    assert(ss@ == listed_spaces(*body));
    let mut out: Vec<String> = Vec::new();
    let mut i: usize = 0;
    while i < ss.len()
        invariant
            i <= ss@.len(),
            lines_of(out@) == stop_targets_of(ss@.take(i as int)),
        decreases ss@.len() - i,
    {
        let s = &ss[i];
        let state = text_or(s.str_member("state"), "");
        proof { reveal_strlit(""); }
        assert(ss@.take(i + 1).drop_last() =~= ss@.take(i as int));
        assert(ss@.take(i + 1).last() == ss@[i as int]);
        let ghost prev = stop_targets_of(ss@.take(i as int));
        assert(state@ == or_text(str_member(ss@[i as int], "state"@), Seq::empty()));
        if !str_eq(state, "Shutdown") && !str_eq(state, "Deleted") {
            assert(stops(ss@[i as int]));
            let nm: String = text_or(s.str_member("name"), "").to_owned();
            assert(nm@ == or_text(str_member(ss@[i as int], "name"@), Seq::empty()));
            push_line(&mut out, nm);
            assert(lines_of(out@) == prev.push(or_text(str_member(ss@[i as int], "name"@), Seq::empty())));
        } else {
            assert(!stops(ss@[i as int]));
        }
        assert(stop_targets_of(ss@.take(i + 1)) == (if stops(ss@[i as int]) {
            prev.push(or_text(str_member(ss@[i as int], "name"@), Seq::empty()))
        } else {
            prev
        }));
        i = i + 1;
    }
    assert(ss@.take(ss@.len() as int) == ss@);
    out
}

/// The path that stops codespace `name`.
pub open spec fn stop_path_of(name: Seq<char>) -> Seq<char> {
    space_path_of(name) + "/stop"@
}

/// Builds [`stop_path_of`].
pub fn stop_path(name: &str) -> (r: String)
    ensures
        r@ == stop_path_of(name@),
{
    let mut p = space_path(name);
    p.append("/stop");
    p
}

/// What `gor codespace stop --all` prints after stopping `n` codespaces.
pub fn stopped_message(n: u32) -> (r: String)
    ensures
        r@ == "Stopped "@ + decimal(n as nat) + " codespace(s)."@,
{
    let mut m = "Stopped ".to_owned();
    m.append(decimal_string(n as u64).as_str());
    m.append(" codespace(s).");
    m
}

/// The codespace to stop when not stopping all, which must be named.
pub fn stop_name(name: &Option<String>) -> (r: Result<&str, String>)
    ensures
        match name {
            Some(n) => r matches Ok(x) && x@ == n@,
            None => r matches Err(m) && m@ == "codespace name is required"@,
        },
{
    match name {
        Some(n) => Ok(n.as_str()),
        None => Err("codespace name is required".to_owned()),
    }
}

/// What stopping codespace `name` ends with: the line it prints, or the
/// failure.
pub fn stop_result(name: &str, status: u16, status_text: &str) -> (r: Result<String, String>)
    ensures
        is_success(status) ==> (r matches Ok(m) && m@ == "Codespace '"@ + name@ + "' stopped."@),
        !is_success(status) ==> (r matches Err(m) && m@ == http_failure("failed to stop codespace '"@ + name@ + "'"@, status_text@)),
{
    if 200 <= status && status <= 299 {
        let mut m = "Codespace '".to_owned();
        m.append(name);
        m.append("' stopped.");
        Ok(m)
    } else {
        let mut p = "failed to stop codespace '".to_owned();
        p.append(name);
        p.append("'");
        Err(http_failure_message(p.as_str(), status_text))
    }
}

} // verus!
