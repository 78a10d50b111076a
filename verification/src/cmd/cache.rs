//! `gor cache`: the Actions caches of a repository.
use vstd::prelude::*;
use vstd::string::*;
use crate::cache::{list_path, list_path_of};
use crate::cli::CacheCommand;
use crate::cmd::flow::{
    Event, Step, asks_fields, fails_with, get_step, http_failure, http_failure_message, json_output, lines_of,
    one_line, prints, push_line, sends, unexpected_event,
};
use crate::cmd::keys::{dash, or_text, prints_json};
use crate::cmd::util::{truncate, truncated};
use crate::json::{Json, JsonValue, value_of, values_of, member, str_member, take_member, u64_member};
use crate::output::{decimal, decimal_string};
use crate::repository::{RepoSplit, resolve_repo, target_repo};
use crate::request::{Method, is_success};
use crate::table::{pad_right, push_padded_right};

verus! {

/// Said when no repository was named and none was found.
pub open spec fn undetected_repo() -> Seq<char> {
    "could not detect repository; specify OWNER/REPO with --repo"@
}

/// The caches a reply's body lists (`actions_caches`; none when absent).
pub open spec fn listed_caches(body: Json) -> Seq<Json> {
    match member(body, "actions_caches"@) {
        Json::Array(items) => items@,
        _ => Seq::empty(),
    }
}

/// The header line of the cache table.
pub open spec fn cache_header() -> Seq<char> {
    pad_right("KEY"@, 30) + "  "@ + pad_right("SIZE (MB)"@, 10) + "  CREATED"@
}

/// A size in bytes as whole mebibytes.
pub open spec fn size_mb(c: Json) -> nat {
    let size = match u64_member(c, "size_in_bytes"@) {
        Some(n) => n,
        None => 0,
    };
    (size / 1024 / 1024) as nat
}

/// One row of the cache table.
pub open spec fn cache_row(c: Json) -> Seq<char> {
    let key = or_text(str_member(c, "key"@), dash());
    let created = or_text(str_member(c, "created_at"@), dash());
    pad_right(truncated(key, 30), 30) + "  "@ + pad_right(decimal(size_mb(c)), 10) + "  "@ + created
}

/// The cache table.
pub open spec fn cache_table(caches: Seq<Json>) -> Seq<Seq<char>> {
    seq![cache_header()] + caches.map_values(|c: Json| cache_row(c))
}

fn cache_row_line(c: &Json) -> (r: String)
    ensures
        r@ == cache_row(*c),
{
    let key = match c.str_member("key") {
        Some(t) => t,
        None => "\u{2014}",
    };
    let created = match c.str_member("created_at") {
        Some(t) => t,
        None => "\u{2014}",
    };
    let size = match c.u64_member("size_in_bytes") {
        Some(n) => n,
        None => 0,
    };
    let mut line = String::new();
    let kt = truncate(key, 30);
    push_padded_right(&mut line, kt.as_str(), 30);
    line.append("  ");
    let mb = decimal_string(size / 1024 / 1024);
    push_padded_right(&mut line, mb.as_str(), 10);
    line.append("  ");
    line.append(created);
    line
}

fn cache_table_lines(caches: &Vec<Json>) -> (r: Vec<String>)
    ensures
        lines_of(r@) == cache_table(caches@),
{
    let mut header = String::new();
    push_padded_right(&mut header, "KEY", 30);
    header.append("  ");
    push_padded_right(&mut header, "SIZE (MB)", 10);
    header.append("  CREATED");
    let mut lines = one_line(header);
    let mut i: usize = 0;
    while i < caches.len()
        invariant
            i <= caches@.len(),
            lines_of(lines@) == seq![cache_header()] + caches@.take(i as int).map_values(|c: Json| cache_row(c)),
        decreases caches@.len() - i,
    {
        let row = cache_row_line(&caches[i]);
        push_line(&mut lines, row);
        assert(caches@.take(i + 1).map_values(|c: Json| cache_row(c))
            =~= caches@.take(i as int).map_values(|c: Json| cache_row(c)).push(cache_row(caches@[i as int])));
        i = i + 1;
    }
    assert(caches@.take(caches@.len() as int) == caches@);
    lines
}

/// What `gor cache` does on each event.
pub open spec fn cache_step(cmd: CacheCommand, detected: Option<RepoSplit>, event: Event, step: Step) -> bool {
    match cmd {
        CacheCommand::List { repo, json, .. } => match event {
            Event::Start => match target_repo(repo, detected, undetected_repo()) {
                Err(m) => fails_with(step, m),
                Ok((o, n)) => sends(step, Method::Get, list_path_of(o, n)),
            },
            Event::Reply(resp) => if !is_success(resp.status) {
                fails_with(step, http_failure("failed to list caches"@, resp.status_text@))
            } else {
                match resp.body {
                    None => fails_with(step, "failed to parse response"@),
                    Some(body) => {
                        let caches = listed_caches(body);
                        if json is Some {
                            step matches Step::PrintJson(j) && (if asks_fields(json) {
                                j matches Json::Object(out) && out@.len() == 0
                            } else {
                                value_of(j) == JsonValue::Array(values_of(caches))
                            })
                        } else if caches.len() == 0 {
                            prints(step, seq!["No caches found."@])
                        } else {
                            prints(step, cache_table(caches))
                        }
                    },
                }
            },
            Event::FileText(_) => fails_with(step, unexpected_event()),
        },
    }
}

/// Run the `gor cache` subcommand: one step, given the event. `detected`
/// is the repository of the working copy, when there is one.
pub fn run(cmd: &CacheCommand, detected: &Option<RepoSplit>, event: Event) -> (r: Step)
    ensures
        cache_step(*cmd, *detected, event, r),
{
    match cmd {
        CacheCommand::List { repo, json, .. } => match event {
            Event::Start => match resolve_repo(repo, detected, "could not detect repository; specify OWNER/REPO with --repo") {
                Err(m) => Step::Fail(m),
                Ok(spec) => get_step(list_path(&spec)),
            },
            Event::Reply(resp) => {
                let ok = 200 <= resp.status && resp.status <= 299;
                if !ok {
                    return Step::Fail(http_failure_message("failed to list caches", resp.status_text.as_str()));
                }
                match resp.body {
                    None => Step::Fail("failed to parse response".to_owned()),
                    Some(body) => {
                        let ghost b = body;
                        let caches = match take_member(body, "actions_caches") {
                            Json::Array(items) => items,
                            _ => Vec::new(),
                        };
                        if json.is_some() {
                            Step::PrintJson(json_output(Json::Array(caches), json))
                        } else if caches.len() == 0 {
                            Step::Print(one_line("No caches found.".to_owned()))
                        } else {
                            Step::Print(cache_table_lines(&caches))
                        }
                    },
                }
            },
            Event::FileText(_) => Step::Fail("unexpected event".to_owned()),
        },
    }
}

} // verus!
