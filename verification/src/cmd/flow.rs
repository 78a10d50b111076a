//! How a command talks to the program that runs it.
//!
//! A command is a function from its arguments and an [`Event`] to the next
//! [`Step`]. The program starts it with [`Event::Start`], does what each
//! step asks (reads a file, sends a request), and hands the outcome back as
//! the next event, until a step prints or fails.
use vstd::prelude::*;
use vstd::string::*;
use crate::json::{Json, str_member, select_fields, selection};
use crate::request::{ApiRequest, ApiResponse, Method, RequestBody};

verus! {

/// What the program hands a command.
#[derive(Debug)]
pub enum Event {
    /// The command begins.
    Start,
    /// The text of the file the command asked for.
    FileText(String),
    /// The reply to the request the command sent.
    Reply(ApiResponse),
}

/// What a command asks of the program next.
#[derive(Debug)]
pub enum Step {
    /// Read this file and hand its text back.
    ReadFile(String),
    /// Send this request and hand its reply back.
    Send(ApiRequest),
    /// Print this document as pretty JSON; the command is done.
    PrintJson(Json),
    /// Print these lines; the command is done.
    Print(Vec<String>),
    /// Open this URL in the browser; the command is done.
    Open(String),
    /// The command fails with this message.
    Fail(String),
}

/// The message for an event that the command did not ask for.
pub open spec fn unexpected_event() -> Seq<char> {
    "unexpected event"@
}

/// The texts of some lines.
pub open spec fn lines_of(lines: Seq<String>) -> Seq<Seq<char>> {
    lines.map_values(|s: String| s@)
}

/// Whether `step` prints exactly `lines`.
pub open spec fn prints(step: Step, lines: Seq<Seq<char>>) -> bool {
    step matches Step::Print(v) && lines_of(v@) == lines
}

/// Whether `step` fails with exactly `msg`.
pub open spec fn fails_with(step: Step, msg: Seq<char>) -> bool {
    step matches Step::Fail(m) && m@ == msg
}

/// Whether `step` sends a body-less request of `method` to `path`.
pub open spec fn sends(step: Step, method: Method, path: Seq<char>) -> bool {
    step matches Step::Send(req) && req.method == method && req.path@ == path && req.body == RequestBody::Empty
}

/// Whether `step` asks to read the file `path`.
pub open spec fn reads(step: Step, path: Seq<char>) -> bool {
    step matches Step::ReadFile(p) && p@ == path
}

/// `PREFIX: HTTP 404 Not Found`: a failed status, as the commands report it.
pub open spec fn http_failure(prefix: Seq<char>, status_text: Seq<char>) -> Seq<char> {
    prefix + ": HTTP "@ + status_text
}

/// Builds [`http_failure`].
pub fn http_failure_message(prefix: &str, status_text: &str) -> (r: String)
    ensures
        r@ == http_failure(prefix@, status_text@),
{
    let mut m = prefix.to_owned();
    m.append(": HTTP ");
    m.append(status_text);
    m
}

/// The `message` of an error reply's JSON body, or `default`.
pub open spec fn reply_message(body: Option<Json>, default: Seq<char>) -> Seq<char> {
    match body {
        Some(j) => match str_member(j, "message"@) {
            Some(m) => m,
            None => default,
        },
        None => default,
    }
}

/// Reads [`reply_message`].
pub fn message_or(body: &Option<Json>, default: &str) -> (r: String)
    ensures
        r@ == reply_message(*body, default@),
{
    match body {
        Some(j) => match j.str_member("message") {
            Some(m) => m.to_owned(),
            None => default.to_owned(),
        },
        None => default.to_owned(),
    }
}

/// The items of a reply whose body is a JSON array.
pub open spec fn array_items(body: Option<Json>) -> Option<Vec<Json>> {
    match body {
        Some(Json::Array(items)) => Some(items),
        _ => None,
    }
}

/// Takes the items of an array body.
pub fn take_items(body: Option<Json>) -> (r: Option<Vec<Json>>)
    ensures
        r == array_items(body),
{
    match body {
        Some(Json::Array(items)) => Some(items),
        _ => None,
    }
}

/// Whether `--json` asked for particular fields.
pub open spec fn asks_fields(fields: Option<Vec<String>>) -> bool {
    fields matches Some(f) && f@.len() > 0
}

/// Whether `out` is what `--json` prints of `value` (see [`json_output`]).
pub open spec fn shows_json(value: Json, fields: Option<Vec<String>>, out: Json) -> bool {
    &&& !asks_fields(fields) ==> out == value
    &&& asks_fields(fields) ==> (out matches Json::Object(e) && e@ == (match value {
        Json::Object(entries) => selection(entries@, fields->0@),
        _ => Seq::empty(),
    }))
}

/// `--json` with an empty list of fields prints the whole value, as it
/// does with no list at all.
pub proof fn law_empty_fields_print_everything(value: Json, fields: Vec<String>, out: Json)
    requires
        fields@.len() == 0,
        shows_json(value, Some(fields), out),
    ensures
        out == value,
{
}

/// What `--json` prints of `value`: all of it, or when fields are named,
/// those fields of an object (an empty object for anything else).
pub fn json_output(value: Json, fields: &Option<Vec<String>>) -> (r: Json)
    ensures
        !asks_fields(*fields) ==> r == value,
        asks_fields(*fields) ==> (r matches Json::Object(out) && out@ == (match value {
            Json::Object(entries) => selection(entries@, fields->0@),
            _ => Seq::empty(),
        })),
{
    match fields {
        Some(f) => if f.len() > 0 { select_fields(value, f) } else { value },
        None => value,
    }
}

/// One line.
pub fn one_line(s: String) -> (r: Vec<String>)
    ensures
        lines_of(r@) == seq![s@],
{
    let mut v: Vec<String> = Vec::new();
    v.push(s);
    assert(lines_of(v@) =~= seq![s@]);
    v
}

/// Pushes a line.
pub fn push_line(lines: &mut Vec<String>, s: String)
    ensures
        lines_of(final(lines)@) == lines_of(old(lines)@).push(s@),
{
    lines.push(s);
    assert(lines_of(lines@) =~= lines_of(old(lines)@).push(s@));
}

/// A body-less GET of `path`.
pub fn get_step(path: String) -> (r: Step)
    ensures
        sends(r, Method::Get, path@),
{
    Step::Send(ApiRequest { method: Method::Get, path, body: RequestBody::Empty })
}

} // verus!
