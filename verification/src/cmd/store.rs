//! `gor secret` and `gor variable`: the Actions secrets and variables of a
//! repository or an organization. Both work alike; [`Store`] says which.
use vstd::prelude::*;
use vstd::string::*;
use crate::cmd::flow::{Event, Step, asks_fields, fails_with, get_step, http_failure, http_failure_message,
    json_output, lines_of, one_line, prints, push_line, reads, sends, unexpected_event};
use crate::cmd::keys::{dash, or_text};
use crate::cmd::util::{truncate, truncated};
use crate::json::{Json, JsonValue, member, no_members, push_member, str_member, str_value, string_json, take_member,
    value_of, values_of};
use crate::repository::{RepoSplit, repo_path, repo_prefix};
use crate::request::{ApiRequest, Method, RequestBody, is_success};
use crate::table::{pad_right, push_padded_right};
use crate::text::{trim_str, trimmed};

verus! {

/// Which store a command works on.
#[derive(Debug, Clone, Copy, PartialEq, Eq, Structural)]
pub enum Store {
    Secrets,
    Variables,
}

/// A subcommand of `gor secret` or `gor variable`.
#[derive(Debug)]
pub enum StoreCommand {
    /// List the names (and, for variables, the values).
    List { org: Option<String>, json: Option<Vec<String>>, hostname: Option<String> },
    /// Set one, from `--body` or from a file.
    SetValue { name: String, body: Option<String>, file: Option<String>, org: Option<String>, hostname: Option<String> },
    /// Delete one.
    Delete { name: String, org: Option<String>, hostname: Option<String> },
}

/// The store's path segment (`secrets`, `variables`).
pub open spec fn collection(s: Store) -> Seq<char> {
    match s { Store::Secrets => "secrets"@, Store::Variables => "variables"@ }
}

/// What one item is called (`secret`, `variable`).
pub open spec fn noun(s: Store) -> Seq<char> {
    match s { Store::Secrets => "secret"@, Store::Variables => "variable"@ }
}

/// The same, capitalized.
pub open spec fn title_noun(s: Store) -> Seq<char> {
    match s { Store::Secrets => "Secret"@, Store::Variables => "Variable"@ }
}

/// The member of a set request that holds the value.
pub open spec fn value_key(s: Store) -> Seq<char> {
    match s { Store::Secrets => "encrypted_value"@, Store::Variables => "value"@ }
}

/// The method that sets a value.
pub open spec fn set_method(s: Store) -> Method {
    match s { Store::Secrets => Method::Put, Store::Variables => Method::Patch }
}

fn collection_str(s: Store) -> (r: &'static str)
    ensures r@ == collection(s),
{
    match s { Store::Secrets => "secrets", Store::Variables => "variables" }
}

fn noun_str(s: Store) -> (r: &'static str)
    ensures r@ == noun(s),
{
    match s { Store::Secrets => "secret", Store::Variables => "variable" }
}

fn title_noun_str(s: Store) -> (r: &'static str)
    ensures r@ == title_noun(s),
{
    match s { Store::Secrets => "Secret", Store::Variables => "Variable" }
}

/// Said when neither an organization nor a repository is known.
pub open spec fn no_target() -> Seq<char> {
    "could not detect repository; specify --org or run from a repo directory"@
}

/// The path of the store: the organization's, else the repository's.
pub open spec fn store_base(s: Store, org: Option<String>, detected: Option<RepoSplit>) -> Option<Seq<char>> {
    match org {
        Some(o) => Some("/orgs/"@ + o@ + "/actions/"@ + collection(s)),
        None => match detected {
            Some(d) => Some(repo_prefix(d.owner@, d.repo@) + "/actions/"@ + collection(s)),
            None => None,
        },
    }
}

fn base_path(s: Store, org: &Option<String>, detected: &Option<RepoSplit>) -> (r: Option<String>)
    ensures
        match store_base(s, *org, *detected) {
            Some(p) => r matches Some(x) && x@ == p,
            None => r is None,
        },
{
    match org {
        Some(o) => {
            let mut p = "/orgs/".to_owned();
            p.append(o.as_str());
            p.append("/actions/");
            p.append(collection_str(s));
            Some(p)
        },
        None => match detected {
            Some(d) => {
                let mut p = repo_path(d);
                p.append("/actions/");
                p.append(collection_str(s));
                Some(p)
            },
            None => None,
        },
    }
}

/// The header of the listing.
pub open spec fn store_header(s: Store) -> Seq<char> {
    pad_right("NAME"@, 30) + match s { Store::Secrets => "  UPDATED"@, Store::Variables => "  VALUE"@ }
}

/// One row of the listing.
pub open spec fn store_row(s: Store, item: Json) -> Seq<char> {
    pad_right(truncated(or_text(str_member(item, "name"@), dash()), 30), 30) + "  "@ + match s {
        Store::Secrets => or_text(str_member(item, "updated_at"@), dash()),
        Store::Variables => truncated(or_text(str_member(item, "value"@), dash()), 40),
    }
}

/// What the listing prints.
pub open spec fn store_table(s: Store, items: Seq<Json>) -> Seq<Seq<char>> {
    if items.len() == 0 {
        seq!["No "@ + collection(s) + " found."@]
    } else {
        seq![store_header(s)] + items.map_values(|i: Json| store_row(s, i))
    }
}

fn text_or<'a>(t: Option<&'a str>, d: &'a str) -> (r: &'a str)
    ensures
        r@ == or_text(match t { Some(x) => Some(x@), None => None }, d@),
{
    match t {
        Some(x) => x,
        None => d,
    }
}

fn store_row_line(s: Store, item: &Json) -> (r: String)
    ensures
        r@ == store_row(s, *item),
{
    let mut line = String::new();
    push_padded_right(&mut line, truncate(text_or(item.str_member("name"), "\u{2014}"), 30).as_str(), 30);
    line.append("  ");
    match s {
        Store::Secrets => line.append(text_or(item.str_member("updated_at"), "\u{2014}")),
        Store::Variables => line.append(truncate(text_or(item.str_member("value"), "\u{2014}"), 40).as_str()),
    }
    line
}

fn store_table_lines(s: Store, items: &Vec<Json>) -> (r: Vec<String>)
    ensures
        lines_of(r@) == store_table(s, items@),
{
    if items.len() == 0 {
        let mut m = "No ".to_owned();
        m.append(collection_str(s));
        m.append(" found.");
        return one_line(m);
    }
    let mut header = String::new();
    push_padded_right(&mut header, "NAME", 30);
    match s {
        Store::Secrets => header.append("  UPDATED"),
        Store::Variables => header.append("  VALUE"),
    }
    let mut lines = one_line(header);
    let mut i: usize = 0;
    while i < items.len()
        invariant
            i <= items@.len(),
            items@.len() > 0,
            lines_of(lines@) == seq![store_header(s)] + items@.take(i as int).map_values(|x: Json| store_row(s, x)),
        decreases items@.len() - i,
    {
        push_line(&mut lines, store_row_line(s, &items[i]));
        assert(items@.take(i + 1).map_values(|x: Json| store_row(s, x))
            =~= items@.take(i as int).map_values(|x: Json| store_row(s, x)).push(store_row(s, items@[i as int])));
        i = i + 1;
    }
    assert(items@.take(items@.len() as int) == items@);
    lines
}

/// Whether `step` sets the value: the store's method on the item's path,
/// with the value in the body.
pub open spec fn sets_value(step: Step, s: Store, base: Seq<char>, name: Seq<char>, value: Seq<char>) -> bool {
    step matches Step::Send(req) && req.method == set_method(s) && req.path@ == base + "/"@ + name
        && (req.body matches RequestBody::JsonBytes(j) && value_of(j) == JsonValue::Object(seq![(value_key(s), str_value(value))]))
}

/// The step that sets `value`, or the failure when there is no target.
pub open spec fn setting(step: Step, s: Store, org: Option<String>, detected: Option<RepoSplit>, name: Seq<char>, value: Seq<char>) -> bool {
    match store_base(s, org, detected) {
        None => fails_with(step, no_target()),
        Some(b) => sets_value(step, s, b, name, value),
    }
}

fn set_step(s: Store, org: &Option<String>, detected: &Option<RepoSplit>, name: &str, value: &str) -> (r: Step)
    ensures
        setting(r, s, *org, *detected, name@, value@),
{
    match base_path(s, org, detected) {
        None => Step::Fail("could not detect repository; specify --org or run from a repo directory".to_owned()),
        Some(mut p) => {
            p.append("/");
            p.append(name);
            let mut e = no_members();
            let key: &str = match s { Store::Secrets => "encrypted_value", Store::Variables => "value" };
            push_member(&mut e, key, string_json(value));
            assert(crate::json::members_of(e@) =~= seq![(value_key(s), str_value(value@))]);
            let method = match s { Store::Secrets => Method::Put, Store::Variables => Method::Patch };
            Step::Send(ApiRequest { method, path: p, body: RequestBody::JsonBytes(Json::Object(e)) })
        },
    }
}

/// What a store command does on each event.
pub open spec fn store_step(s: Store, cmd: StoreCommand, detected: Option<RepoSplit>, event: Event, step: Step) -> bool {
    match cmd {
        StoreCommand::List { org, json, .. } => match event {
            Event::Start => match store_base(s, org, detected) {
                None => fails_with(step, no_target()),
                Some(b) => sends(step, Method::Get, b + "?per_page=100"@),
            },
            Event::Reply(resp) => if !is_success(resp.status) {
                fails_with(step, http_failure("failed to list "@ + collection(s), resp.status_text@))
            } else {
                match resp.body {
                    None => fails_with(step, "failed to parse response"@),
                    Some(b) => {
                        let items = match member(b, collection(s)) {
                            Json::Array(v) => v@,
                            _ => Seq::empty(),
                        };
                        if json is Some {
                            step matches Step::PrintJson(j) && (if asks_fields(json) {
                                j matches Json::Object(out) && out@.len() == 0
                            } else {
                                value_of(j) == JsonValue::Array(values_of(items))
                            })
                        } else {
                            prints(step, store_table(s, items))
                        }
                    },
                }
            },
            Event::FileText(_) => fails_with(step, unexpected_event()),
        },
        StoreCommand::SetValue { name, body, file, org, .. } => match event {
            Event::Start => match body {
                Some(b) => setting(step, s, org, detected, name@, b@),
                None => match file {
                    Some(f) => reads(step, f@),
                    None => fails_with(step, "no "@ + noun(s) + " value provided (use --body or --file)"@),
                },
            },
            Event::FileText(t) => setting(step, s, org, detected, name@, trimmed(t@)),
            Event::Reply(resp) => if !is_success(resp.status) {
                fails_with(step, http_failure("failed to set "@ + noun(s) + " '"@ + name@ + "'"@, resp.status_text@))
            } else {
                prints(step, seq![title_noun(s) + " '"@ + name@ + "' set."@])
            },
        },
        StoreCommand::Delete { name, org, .. } => match event {
            Event::Start => match store_base(s, org, detected) {
                None => fails_with(step, no_target()),
                Some(b) => sends(step, Method::Delete, b + "/"@ + name@),
            },
            Event::Reply(resp) => if resp.status == 404 {
                fails_with(step, noun(s) + " '"@ + name@ + "' not found"@)
            } else if !is_success(resp.status) {
                fails_with(step, http_failure("failed to delete "@ + noun(s) + " '"@ + name@ + "'"@, resp.status_text@))
            } else {
                prints(step, seq![title_noun(s) + " '"@ + name@ + "' deleted."@])
            },
            Event::FileText(_) => fails_with(step, unexpected_event()),
        },
    }
}

fn about(prefix: &str, s: Store, name: &str, suffix: &str) -> (r: String)
    ensures
        r@ == prefix@ + noun(s) + " '"@ + name@ + suffix@,
{
    let mut m = prefix.to_owned();
    m.append(noun_str(s));
    m.append(" '");
    m.append(name);
    m.append(suffix);
    m
}

/// Runs a `gor secret` or `gor variable` subcommand: one step, given the
/// event. `detected` is the repository of the working copy, when there is
/// one.
pub fn run(s: Store, cmd: &StoreCommand, detected: &Option<RepoSplit>, event: Event) -> (r: Step)
    ensures
        store_step(s, *cmd, *detected, event, r),
{
    match cmd {
        StoreCommand::List { org, json, .. } => match event {
            Event::Start => match base_path(s, org, detected) {
                None => Step::Fail("could not detect repository; specify --org or run from a repo directory".to_owned()),
                Some(mut p) => {
                    p.append("?per_page=100");
                    get_step(p)
                },
            },
            Event::Reply(resp) => {
                if !(200 <= resp.status && resp.status <= 299) {
                    let mut pre = "failed to list ".to_owned();
                    pre.append(collection_str(s));
                    return Step::Fail(http_failure_message(pre.as_str(), resp.status_text.as_str()));
                }
                match resp.body {
                    None => Step::Fail("failed to parse response".to_owned()),
                    Some(b) => {
                        let items = match take_member(b, collection_str(s)) {
                            Json::Array(v) => v,
                            _ => Vec::new(),
                        };
                        if json.is_some() {
                            Step::PrintJson(json_output(Json::Array(items), json))
                        } else {
                            Step::Print(store_table_lines(s, &items))
                        }
                    },
                }
            },
            Event::FileText(_) => Step::Fail("unexpected event".to_owned()),
        },
        StoreCommand::SetValue { name, body, file, org, .. } => match event {
            Event::Start => match body {
                Some(b) => set_step(s, org, detected, name.as_str(), b.as_str()),
                None => match file {
                    Some(f) => Step::ReadFile(f.clone()),
                    None => {
                        let mut m = "no ".to_owned();
                        m.append(noun_str(s));
                        m.append(" value provided (use --body or --file)");
                        Step::Fail(m)
                    },
                },
            },
            Event::FileText(t) => {
                let v = trim_str(t.as_str());
                set_step(s, org, detected, name.as_str(), v.as_str())
            },
            Event::Reply(resp) => {
                if !(200 <= resp.status && resp.status <= 299) {
                    let pre = about("failed to set ", s, name.as_str(), "'");
                    return Step::Fail(http_failure_message(pre.as_str(), resp.status_text.as_str()));
                }
                let mut m = title_noun_str(s).to_owned();
                m.append(" '");
                m.append(name.as_str());
                m.append("' set.");
                Step::Print(one_line(m))
            },
        },
        StoreCommand::Delete { name, org, .. } => match event {
            Event::Start => match base_path(s, org, detected) {
                None => Step::Fail("could not detect repository; specify --org or run from a repo directory".to_owned()),
                Some(mut p) => {
                    p.append("/");
                    p.append(name.as_str());
                    Step::Send(ApiRequest { method: Method::Delete, path: p, body: RequestBody::Empty })
                },
            },
            Event::Reply(resp) => {
                if resp.status == 404 {
                    let mut m = noun_str(s).to_owned();
                    m.append(" '");
                    m.append(name.as_str());
                    m.append("' not found");
                    return Step::Fail(m);
                }
                if !(200 <= resp.status && resp.status <= 299) {
                    let pre = about("failed to delete ", s, name.as_str(), "'");
                    return Step::Fail(http_failure_message(pre.as_str(), resp.status_text.as_str()));
                }
                let mut m = title_noun_str(s).to_owned();
                m.append(" '");
                m.append(name.as_str());
                m.append("' deleted.");
                Step::Print(one_line(m))
            },
            Event::FileText(_) => Step::Fail("unexpected event".to_owned()),
        },
    }
}

} // verus!
