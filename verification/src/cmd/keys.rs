//! `gor ssh-key` and `gor gpg-key`: the keys of the authenticated user.
use vstd::prelude::*;
use vstd::string::*;
use crate::cli::{GpgKeyCommand, SshKeyCommand};
use crate::cmd::flow::{
    Event, Step, array_items, asks_fields, fails_with, get_step, http_failure,
    http_failure_message, json_output, lines_of, message_or, one_line, prints, push_line, reads,
    reply_message, sends, take_items, unexpected_event,
};
use crate::cmd::util::{truncate, truncated};
use crate::json::{
    Json, JsonValue, collect_nested_texts, nested_texts, selection, str_member, str_value,
    string_json, texts_of, u64_member, value_of, members_of,
};
use crate::output::{decimal, decimal_string, split_chars, split_on};
use crate::request::{ApiRequest, ApiResponse, Method, RequestBody, is_success};
use crate::table::{pad_right, push_padded_right};
use crate::text::{chars_of, join_strings, join_with, string_of, trim_str, trimmed};

verus! {

// ---------------------------------------------------------------------------
// Shared pieces
// ---------------------------------------------------------------------------

/// The text of an optional string member, or `default`.
pub open spec fn or_text(t: Option<Seq<char>>, default: Seq<char>) -> Seq<char> {
    match t {
        Some(x) => x,
        None => default,
    }
}

/// The placeholder shown for a missing value.
pub open spec fn dash() -> Seq<char> {
    "\u{2014}"@
}

/// Whether `step` prints `value` as `--json` asks (see [`json_output`]).
pub open spec fn prints_json(step: Step, value: Json, fields: Option<Vec<String>>) -> bool {
    step matches Step::PrintJson(j) && (!asks_fields(fields) ==> j == value) && (asks_fields(fields) ==> (
        j matches Json::Object(out) && out@ == (match value {
            Json::Object(entries) => selection(entries@, fields->0@),
            _ => Seq::empty(),
        })))
}

/// How a listing command ends on the reply to its request: the HTTP
/// failure, a body that is no JSON array, the JSON, the "none found" line,
/// or the table of the items.
pub open spec fn list_outcome(
    step: Step,
    resp: ApiResponse,
    fail_prefix: Seq<char>,
    parse_error: Seq<char>,
    fields: Option<Vec<String>>,
    none_found: Seq<char>,
    table: spec_fn(Seq<Json>) -> Seq<Seq<char>>,
) -> bool {
    if !is_success(resp.status) {
        fails_with(step, http_failure(fail_prefix, resp.status_text@))
    } else {
        match array_items(resp.body) {
            None => fails_with(step, parse_error),
            Some(items) => if fields is Some {
                prints_json(step, Json::Array(items), fields)
            } else if items@.len() == 0 {
                prints(step, seq![none_found])
            } else {
                prints(step, table(items@))
            },
        }
    }
}

/// What a listing command decides before it lays out a table.
pub open spec fn list_decided(
    r: Result<Vec<Json>, Step>,
    resp: ApiResponse,
    fail_prefix: Seq<char>,
    parse_error: Seq<char>,
    fields: Option<Vec<String>>,
    none_found: Seq<char>,
) -> bool {
    if !is_success(resp.status) {
        r matches Err(s) && fails_with(s, http_failure(fail_prefix, resp.status_text@))
    } else {
        match array_items(resp.body) {
            None => r matches Err(s) && fails_with(s, parse_error),
            Some(items) => if fields is Some {
                r matches Err(s) && prints_json(s, Json::Array(items), fields)
            } else if items@.len() == 0 {
                r matches Err(s) && prints(s, seq![none_found])
            } else {
                r == Ok::<Vec<Json>, Step>(items)
            },
        }
    }
}

/// The part of a listing that does not depend on its table.
pub fn decide_list(
    resp: ApiResponse,
    fail_prefix: &str,
    parse_error: &str,
    fields: &Option<Vec<String>>,
    none_found: &str,
) -> (r: Result<Vec<Json>, Step>)
    ensures
        list_decided(r, resp, fail_prefix@, parse_error@, *fields, none_found@),
{
    let ok = 200 <= resp.status && resp.status <= 299;
    if !ok {
        return Err(Step::Fail(http_failure_message(fail_prefix, resp.status_text.as_str())));
    }
    match take_items(resp.body) {
        None => Err(Step::Fail(parse_error.to_owned())),
        Some(items) => {
            if fields.is_some() {
                Err(Step::PrintJson(json_output(Json::Array(items), fields)))
            } else if items.len() == 0 {
                Err(Step::Print(one_line(none_found.to_owned())))
            } else {
                Ok(items)
            }
        },
    }
}

/// A JSON object of text members.
pub open spec fn text_object(members: Seq<(Seq<char>, Seq<char>)>) -> JsonValue {
    JsonValue::Object(members.map_values(|m: (Seq<char>, Seq<char>)| (m.0, str_value(m.1))))
}

// ---------------------------------------------------------------------------
// gor ssh-key
// ---------------------------------------------------------------------------

/// The header line of the SSH key table.
pub open spec fn ssh_header() -> Seq<char> {
    pad_right("TITLE"@, 30) + "  "@ + pad_right("TYPE"@, 10) + "  KEY"@
}

/// The first `n` characters of `s` (all of it when shorter).
pub open spec fn first_chars(s: Seq<char>, n: nat) -> Seq<char> {
    if s.len() <= n { s } else { s.take(n as int) }
}

/// The key type of an SSH public key line (`ssh-ed25519 AAAA… comment`).
pub open spec fn key_type(key: Seq<char>) -> Seq<char> {
    split_on(key, ' ')[0]
}

/// The first 40 characters of the key material of an SSH public key line.
pub open spec fn key_short(key: Seq<char>) -> Seq<char> {
    let parts = split_on(key, ' ');
    first_chars(if parts.len() > 1 { parts[1] } else { Seq::empty() }, 40)
}

/// One row of the SSH key table.
pub open spec fn ssh_row(key: Json) -> Seq<char> {
    let title = or_text(str_member(key, "title"@), dash());
    let material = or_text(str_member(key, "key"@), Seq::empty());
    pad_right(truncated(title, 30), 30) + "  "@ + pad_right(key_type(material), 10) + "  "@ + key_short(material)
}

/// The SSH key table.
pub open spec fn ssh_table(keys: Seq<Json>) -> Seq<Seq<char>> {
    seq![ssh_header()] + keys.map_values(|k: Json| ssh_row(k))
}

proof fn lemma_split_nonempty(s: Seq<char>, sep: char)
    ensures
        split_on(s, sep).len() >= 1,
    decreases s.len(),
{
    if s.len() > 0 {
        lemma_split_nonempty(s.drop_last(), sep);
    }
}

fn ssh_row_line(key: &Json) -> (r: String)
    ensures
        r@ == ssh_row(*key),
{
    let title = match key.str_member("title") {
        Some(t) => t,
        None => "\u{2014}",
    };
    let material = match key.str_member("key") {
        Some(k) => k,
        None => "",
    };
    proof { reveal_strlit("\u{2014}"); reveal_strlit(""); }
    let v = chars_of(material);
    let parts = split_chars(&v, ' ');
    proof { lemma_split_nonempty(material@, ' '); }
    let kind = string_of(parts[0].as_slice());
    let mut short: Vec<char> = Vec::new();
    if parts.len() > 1 {
        let p = &parts[1];
        let n: usize = if p.len() <= 40 { p.len() } else { 40 };
        let mut i: usize = 0;
        while i < n
            invariant
                i <= n <= p@.len(),
                short@ == p@.take(i as int),
            decreases n - i,
        {
            short.push(p[i]);
            i = i + 1;
            assert(p@.take(i as int) == p@.take(i - 1).push(p@[i - 1]));
        }
        assert(p@.take(p@.len() as int) == p@);
    }
    let short_s = string_of(short.as_slice());
    let mut line = String::new();
    let tt = truncate(title, 30);
    push_padded_right(&mut line, tt.as_str(), 30);
    line.append("  ");
    push_padded_right(&mut line, kind.as_str(), 10);
    line.append("  ");
    line.append(short_s.as_str());
    proof {
        assert(short_s@ == key_short(material@));
    }
    line
}

fn ssh_table_lines(keys: &Vec<Json>) -> (r: Vec<String>)
    ensures
        lines_of(r@) == ssh_table(keys@),
{
    let mut header = String::new();
    push_padded_right(&mut header, "TITLE", 30);
    header.append("  ");
    push_padded_right(&mut header, "TYPE", 10);
    header.append("  KEY");
    let mut lines = one_line(header);
    let mut i: usize = 0;
    while i < keys.len()
        invariant
            i <= keys@.len(),
            lines_of(lines@) == seq![ssh_header()] + keys@.take(i as int).map_values(|k: Json| ssh_row(k)),
        decreases keys@.len() - i,
    {
        let row = ssh_row_line(&keys[i]);
        push_line(&mut lines, row);
        assert(keys@.take(i + 1).map_values(|k: Json| ssh_row(k))
            =~= keys@.take(i as int).map_values(|k: Json| ssh_row(k)).push(ssh_row(keys@[i as int])));
        i = i + 1;
    }
    assert(keys@.take(keys@.len() as int) == keys@);
    lines
}

/// The body that adds SSH key `key` titled `title`.
pub open spec fn ssh_add_body(title: Seq<char>, key: Seq<char>) -> JsonValue {
    text_object(seq![("title"@, title), ("key"@, key)])
}

/// Whether `step` posts the new SSH key.
pub open spec fn posts_ssh_key(step: Step, title: Seq<char>, key: Seq<char>) -> bool {
    step matches Step::Send(req) && req.method == Method::Post && req.path@ == "/user/keys"@
        && (req.body matches RequestBody::Json(j) && value_of(j) == ssh_add_body(title, key))
}

/// The step that posts key `key`, or the failure for an empty one.
pub open spec fn ssh_key_given(step: Step, title: Seq<char>, key: Seq<char>) -> bool {
    if key.len() == 0 {
        fails_with(step, "SSH key body is empty"@)
    } else {
        posts_ssh_key(step, title, key)
    }
}

/// Builds an object of text members, in order.
fn text_object_json(members: Vec<(&str, &str)>) -> (r: Json)
    ensures
        value_of(r) == text_object(members@.map_values(|m: (&str, &str)| (m.0@, m.1@))),
{
    let mut entries: Vec<(String, Json)> = Vec::new();
    let mut i: usize = 0;
    assert(members_of(entries@) =~= Seq::<(Seq<char>, JsonValue)>::empty());
    while i < members.len()
        invariant
            i <= members@.len(),
            members_of(entries@) == text_object_members(members@.take(i as int)),
        decreases members@.len() - i,
    {
        let e = (members[i].0.to_owned(), string_json(members[i].1));
        proof {
            crate::json::lemma_members_push(entries@, e);
            assert(text_object_members(members@.take(i + 1)) =~= text_object_members(members@.take(i as int)).push((e.0@, value_of(e.1))));
        }
        entries.push(e);
        i = i + 1;
    }
    assert(members@.take(members@.len() as int) == members@);
    assert(text_object_members(members@) =~= members@.map_values(|m: (&str, &str)| (m.0@, m.1@)).map_values(|m: (Seq<char>, Seq<char>)| (m.0, str_value(m.1))));
    Json::Object(entries)
}

/// The members of [`text_object_json`]'s result.
pub open spec fn text_object_members(members: Seq<(&str, &str)>) -> Seq<(Seq<char>, JsonValue)> {
    members.map_values(|m: (&str, &str)| (m.0@, str_value(m.1@)))
}

fn post_ssh_key(title: &str, key: &str) -> (r: Step)
    ensures
        ssh_key_given(r, title@, key@),
{
    if chars_of(key).len() == 0 {
        return Step::Fail("SSH key body is empty".to_owned());
    }
    let mut members: Vec<(&str, &str)> = Vec::new();
    members.push(("title", title));
    members.push(("key", key));
    let j = text_object_json(members);
    assert(members@.map_values(|m: (&str, &str)| (m.0@, m.1@)) =~= seq![("title"@, title@), ("key"@, key@)]);
    Step::Send(ApiRequest { method: Method::Post, path: "/user/keys".to_owned(), body: RequestBody::Json(j) })
}

/// What `gor ssh-key` does on each event.
pub open spec fn ssh_step(cmd: SshKeyCommand, event: Event, step: Step) -> bool {
    match cmd {
        SshKeyCommand::List { json, .. } => match event {
            Event::Start => sends(step, Method::Get, "/user/keys"@),
            Event::Reply(resp) => list_outcome(step, resp, "failed to list SSH keys"@,
                "failed to parse SSH keys response"@, json, "No SSH keys found."@, |ks: Seq<Json>| ssh_table(ks)),
            Event::FileText(_) => fails_with(step, unexpected_event()),
        },
        SshKeyCommand::Add { title, file, body, .. } => match event {
            Event::Start => match body {
                Some(b) => ssh_key_given(step, title@, b@),
                None => match file {
                    Some(f) => reads(step, f@),
                    None => fails_with(step, "no SSH key provided (use --file or --body)"@),
                },
            },
            Event::FileText(text) => ssh_key_given(step, title@, trimmed(text@)),
            Event::Reply(resp) => if !is_success(resp.status) {
                fails_with(step, "failed to add SSH key: "@ + reply_message(resp.body, "add failed"@))
            } else {
                match resp.body {
                    None => fails_with(step, "failed to parse response"@),
                    Some(j) => prints(step, seq!["SSH key added: "@
                        + decimal(or_id(u64_member(j, "id"@)) as nat) + " ("@ + title@ + ")"@]),
                }
            },
        },
    }
}

/// A numeric id, or 0 when there is none.
pub open spec fn or_id(id: Option<u64>) -> u64 {
    match id {
        Some(n) => n,
        None => 0,
    }
}

/// Run the `gor ssh-key` subcommand: one step, given the event.
pub fn run_ssh(cmd: &SshKeyCommand, event: Event) -> (r: Step)
    ensures
        ssh_step(*cmd, event, r),
{
    match cmd {
        SshKeyCommand::List { json, .. } => match event {
            Event::Start => get_step("/user/keys".to_owned()),
            Event::Reply(resp) => {
                let ghost g = resp;
                match decide_list(resp, "failed to list SSH keys", "failed to parse SSH keys response", json,
                    "No SSH keys found.") {
                    Err(step) => step,
                    Ok(keys) => {
                        let lines = ssh_table_lines(&keys);
                        Step::Print(lines)
                    },
                }
            },
            Event::FileText(_) => Step::Fail("unexpected event".to_owned()),
        },
        SshKeyCommand::Add { title, file, body, .. } => match event {
            Event::Start => match body {
                Some(b) => post_ssh_key(title.as_str(), b.as_str()),
                None => match file {
                    Some(f) => Step::ReadFile(f.clone()),
                    None => Step::Fail("no SSH key provided (use --file or --body)".to_owned()),
                },
            },
            Event::FileText(text) => {
                let key = trim_str(text.as_str());
                post_ssh_key(title.as_str(), key.as_str())
            },
            Event::Reply(resp) => {
                let ok = 200 <= resp.status && resp.status <= 299;
                if !ok {
                    let mut m = "failed to add SSH key: ".to_owned();
                    let msg = message_or(&resp.body, "add failed");
                    m.append(msg.as_str());
                    Step::Fail(m)
                } else {
                    match &resp.body {
                        None => Step::Fail("failed to parse response".to_owned()),
                        Some(j) => {
                            let id = match j.u64_member("id") {
                                Some(n) => n,
                                None => 0,
                            };
                            let mut m = "SSH key added: ".to_owned();
                            m.append(decimal_string(id).as_str());
                            m.append(" (");
                            m.append(title.as_str());
                            m.append(")");
                            Step::Print(one_line(m))
                        },
                    }
                }
            },
        },
    }
}

// ---------------------------------------------------------------------------
// gor gpg-key
// ---------------------------------------------------------------------------

/// The header line of the GPG key table.
pub open spec fn gpg_header() -> Seq<char> {
    pad_right("KEY ID"@, 16) + "  "@ + pad_right("NAME"@, 30) + "  EMAILS"@
}

/// One row of the GPG key table.
pub open spec fn gpg_row(key: Json) -> Seq<char> {
    let id = or_text(str_member(key, "key_id"@), dash());
    let name = or_text(str_member(key, "name"@), dash());
    pad_right(id, 16) + "  "@ + pad_right(truncated(name, 30), 30) + "  "@
        + join_with(nested_texts(key, "emails"@, "email"@), ", "@)
}

/// The GPG key table.
pub open spec fn gpg_table(keys: Seq<Json>) -> Seq<Seq<char>> {
    seq![gpg_header()] + keys.map_values(|k: Json| gpg_row(k))
}

fn gpg_row_line(key: &Json) -> (r: String)
    ensures
        r@ == gpg_row(*key),
{
    let id = match key.str_member("key_id") {
        Some(t) => t,
        None => "\u{2014}",
    };
    let name = match key.str_member("name") {
        Some(t) => t,
        None => "\u{2014}",
    };
    let emails = collect_nested_texts(key, "emails", "email");
    let joined = join_strings(&emails, ", ");
    let mut line = String::new();
    push_padded_right(&mut line, id, 16);
    line.append("  ");
    let nt = truncate(name, 30);
    push_padded_right(&mut line, nt.as_str(), 30);
    line.append("  ");
    line.append(joined.as_str());
    assert(emails@.map_values(|p: String| p@) == texts_of(emails@));
    line
}

fn gpg_table_lines(keys: &Vec<Json>) -> (r: Vec<String>)
    ensures
        lines_of(r@) == gpg_table(keys@),
{
    let mut header = String::new();
    push_padded_right(&mut header, "KEY ID", 16);
    header.append("  ");
    push_padded_right(&mut header, "NAME", 30);
    header.append("  EMAILS");
    let mut lines = one_line(header);
    let mut i: usize = 0;
    while i < keys.len()
        invariant
            i <= keys@.len(),
            lines_of(lines@) == seq![gpg_header()] + keys@.take(i as int).map_values(|k: Json| gpg_row(k)),
        decreases keys@.len() - i,
    {
        let row = gpg_row_line(&keys[i]);
        push_line(&mut lines, row);
        assert(keys@.take(i + 1).map_values(|k: Json| gpg_row(k))
            =~= keys@.take(i as int).map_values(|k: Json| gpg_row(k)).push(gpg_row(keys@[i as int])));
        i = i + 1;
    }
    assert(keys@.take(keys@.len() as int) == keys@);
    lines
}

/// The step that posts armored key `key`, or the failure for an empty one.
pub open spec fn gpg_key_given(step: Step, key: Seq<char>) -> bool {
    if key.len() == 0 {
        fails_with(step, "GPG key body is empty"@)
    } else {
        step matches Step::Send(req) && req.method == Method::Post && req.path@ == "/user/gpg_keys"@
            && (req.body matches RequestBody::Json(j) && value_of(j) == text_object(seq![("armored_public_key"@, key)]))
    }
}

fn post_gpg_key(key: &str) -> (r: Step)
    ensures
        gpg_key_given(r, key@),
{
    if chars_of(key).len() == 0 {
        return Step::Fail("GPG key body is empty".to_owned());
    }
    let mut members: Vec<(&str, &str)> = Vec::new();
    members.push(("armored_public_key", key));
    let j = text_object_json(members);
    assert(members@.map_values(|m: (&str, &str)| (m.0@, m.1@)) =~= seq![("armored_public_key"@, key@)]);
    Step::Send(ApiRequest { method: Method::Post, path: "/user/gpg_keys".to_owned(), body: RequestBody::Json(j) })
}

/// What `gor gpg-key` does on each event.
pub open spec fn gpg_step(cmd: GpgKeyCommand, event: Event, step: Step) -> bool {
    match cmd {
        GpgKeyCommand::List { json, .. } => match event {
            Event::Start => sends(step, Method::Get, "/user/gpg_keys"@),
            Event::Reply(resp) => list_outcome(step, resp, "failed to list GPG keys"@,
                "failed to parse GPG keys response"@, json, "No GPG keys found."@, |ks: Seq<Json>| gpg_table(ks)),
            Event::FileText(_) => fails_with(step, unexpected_event()),
        },
        GpgKeyCommand::Add { file, body, .. } => match event {
            Event::Start => match body {
                Some(b) => gpg_key_given(step, b@),
                None => match file {
                    Some(f) => reads(step, f@),
                    None => fails_with(step, "no GPG key provided (use --file or --body)"@),
                },
            },
            Event::FileText(text) => gpg_key_given(step, trimmed(text@)),
            Event::Reply(resp) => if !is_success(resp.status) {
                fails_with(step, "failed to add GPG key: "@ + reply_message(resp.body, "add failed"@))
            } else {
                match resp.body {
                    None => fails_with(step, "failed to parse response"@),
                    Some(j) => prints(step, seq!["GPG key added: "@ + or_text(str_member(j, "key_id"@), dash())]),
                }
            },
        },
    }
}

/// Run the `gor gpg-key` subcommand: one step, given the event.
pub fn run_gpg(cmd: &GpgKeyCommand, event: Event) -> (r: Step)
    ensures
        gpg_step(*cmd, event, r),
{
    match cmd {
        GpgKeyCommand::List { json, .. } => match event {
            Event::Start => get_step("/user/gpg_keys".to_owned()),
            Event::Reply(resp) => {
                match decide_list(resp, "failed to list GPG keys", "failed to parse GPG keys response", json,
                    "No GPG keys found.") {
                    Err(step) => step,
                    Ok(keys) => Step::Print(gpg_table_lines(&keys)),
                }
            },
            Event::FileText(_) => Step::Fail("unexpected event".to_owned()),
        },
        GpgKeyCommand::Add { file, body, .. } => match event {
            Event::Start => match body {
                Some(b) => post_gpg_key(b.as_str()),
                None => match file {
                    Some(f) => Step::ReadFile(f.clone()),
                    None => Step::Fail("no GPG key provided (use --file or --body)".to_owned()),
                },
            },
            Event::FileText(text) => {
                let key = trim_str(text.as_str());
                post_gpg_key(key.as_str())
            },
            Event::Reply(resp) => {
                let ok = 200 <= resp.status && resp.status <= 299;
                if !ok {
                    let mut m = "failed to add GPG key: ".to_owned();
                    let msg = message_or(&resp.body, "add failed");
                    m.append(msg.as_str());
                    Step::Fail(m)
                } else {
                    match &resp.body {
                        None => Step::Fail("failed to parse response".to_owned()),
                        Some(j) => {
                            let id = match j.str_member("key_id") {
                                Some(t) => t,
                                None => "\u{2014}",
                            };
                            let mut m = "GPG key added: ".to_owned();
                            m.append(id);
                            Step::Print(one_line(m))
                        },
                    }
                }
            },
        },
    }
}

} // verus!
