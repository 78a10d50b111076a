//! SSH and GPG keys of the signed-in user: the requests that list, add and
//! delete them, and what their replies give.
use vstd::prelude::*;
use vstd::string::*;
use crate::cmd::flow::{array_items, http_failure, http_failure_message, message_or, reply_message, take_items};
use crate::error::GorError;
use crate::json::{Json, JsonValue, members_of, no_members, push_member, str_member, str_value, string_json, u64_member,
    value_of};
use crate::org::{has_optional_text, optional_text};
use crate::output::{decimal, decimal_string};
use crate::request::{ApiResponse, is_success};

verus! {

/// Whether a value reads as an SSH key: an object with a whole `id` and a
/// string `title` and `key`.
pub open spec fn is_ssh_key(j: Json) -> bool {
    &&& j is Object
    &&& u64_member(j, "id"@) is Some
    &&& str_member(j, "title"@) is Some
    &&& str_member(j, "key"@) is Some
}

/// Whether a value reads as a GPG key: an object whose `key_id` and `name`
/// are each a string, null or absent.
pub open spec fn is_gpg_key(j: Json) -> bool {
    &&& j is Object
    &&& optional_text(j, "key_id"@)
    &&& optional_text(j, "name"@)
}

/// Which kind of key.
#[derive(Debug, Clone, Copy)]
pub enum KeyKind {
    Ssh,
    Gpg,
}

/// Whether a value reads as a key of `kind`.
pub open spec fn is_key(kind: KeyKind, j: Json) -> bool {
    match kind {
        KeyKind::Ssh => is_ssh_key(j),
        KeyKind::Gpg => is_gpg_key(j),
    }
}

/// The name of a kind in messages.
pub open spec fn kind_name(kind: KeyKind) -> Seq<char> {
    match kind {
        KeyKind::Ssh => "SSH"@,
        KeyKind::Gpg => "GPG"@,
    }
}

fn kind_text(kind: KeyKind) -> (r: &'static str)
    ensures
        r@ == kind_name(kind),
{
    match kind {
        KeyKind::Ssh => "SSH",
        KeyKind::Gpg => "GPG",
    }
}

/// Tests [`is_key`].
pub fn key_value(kind: KeyKind, j: &Json) -> (b: bool)
    ensures
        b == is_key(kind, *j),
{
    match j {
        Json::Object(_) => match kind {
            KeyKind::Ssh => j.u64_member("id").is_some() && j.str_member("title").is_some()
                && j.str_member("key").is_some(),
            KeyKind::Gpg => has_optional_text(j, "key_id") && has_optional_text(j, "name"),
        },
        _ => false,
    }
}

/// Whether every item reads as a key of `kind`.
pub open spec fn all_keys(kind: KeyKind, items: Seq<Json>) -> bool {
    forall|i: int| 0 <= i < items.len() ==> #[trigger] is_key(kind, items[i])
}

fn every_key(kind: KeyKind, items: &Vec<Json>) -> (b: bool)
    ensures
        b == all_keys(kind, items@),
{
    let mut i: usize = 0;
    while i < items.len()
        invariant
            i <= items@.len(),
            forall|k: int| 0 <= k < i ==> #[trigger] is_key(kind, items@[k]),
        decreases items.len() - i,
    {
        if !key_value(kind, &items[i]) {
            return false;
        }
        i = i + 1;
    }
    true
}

/// The path of the keys of `kind`.
pub open spec fn keys_path_of(kind: KeyKind) -> Seq<char> {
    match kind {
        KeyKind::Ssh => "/user/keys"@,
        KeyKind::Gpg => "/user/gpg_keys"@,
    }
}

/// Builds [`keys_path_of`].
pub fn keys_path(kind: KeyKind) -> (r: String)
    ensures
        r@ == keys_path_of(kind),
{
    match kind {
        KeyKind::Ssh => "/user/keys".to_owned(),
        KeyKind::Gpg => "/user/gpg_keys".to_owned(),
    }
}

/// Reads the reply listing the keys of `kind`.
pub fn list_outcome(kind: KeyKind, resp: ApiResponse) -> (r: Result<Vec<Json>, GorError>)
    ensures
        !is_success(resp.status) ==> (r matches Err(GorError::InvalidInput(m))
            && m@ == http_failure("failed to list "@ + kind_name(kind) + " keys"@, resp.status_text@)),
        is_success(resp.status) && !(array_items(resp.body) matches Some(items) && all_keys(kind, items@)) ==> (
            r matches Err(GorError::Http(m)) && m@ == "error decoding response body"@),
        is_success(resp.status) ==> (array_items(resp.body) matches Some(items) ==> (all_keys(kind, items@) ==> r
            == Ok::<Vec<Json>, GorError>(items))),
{
    if !(200 <= resp.status && resp.status <= 299) {
        let mut p = "failed to list ".to_owned();
        p.append(kind_text(kind));
        p.append(" keys");
        return Err(GorError::InvalidInput(http_failure_message(p.as_str(), resp.status_text.as_str())));
    }
    match take_items(resp.body) {
        None => Err(GorError::Http("error decoding response body".to_owned())),
        Some(items) => if every_key(kind, &items) {
            Ok(items)
        } else {
            Err(GorError::Http("error decoding response body".to_owned()))
        },
    }
}

/// The body that adds an SSH key.
pub open spec fn ssh_body(title: Seq<char>, key: Seq<char>) -> JsonValue {
    JsonValue::Object(seq![("title"@, str_value(title)), ("key"@, str_value(key))])
}

/// Builds [`ssh_body`].
pub fn ssh_request_body(title: &str, key: &str) -> (r: Json)
    ensures
        value_of(r) == ssh_body(title@, key@),
{
    let mut e = no_members();
    push_member(&mut e, "title", string_json(title));
    push_member(&mut e, "key", string_json(key));
    assert(members_of(e@) =~= seq![("title"@, str_value(title@)), ("key"@, str_value(key@))]);
    Json::Object(e)
}

/// The body that adds a GPG key.
pub open spec fn gpg_body(armored: Seq<char>) -> JsonValue {
    JsonValue::Object(seq![("armored_public_key"@, str_value(armored))])
}

/// Builds [`gpg_body`].
pub fn gpg_request_body(armored: &str) -> (r: Json)
    ensures
        value_of(r) == gpg_body(armored@),
{
    let mut e = no_members();
    push_member(&mut e, "armored_public_key", string_json(armored));
    assert(members_of(e@) =~= seq![("armored_public_key"@, str_value(armored@))]);
    Json::Object(e)
}

/// The error for a refused request about a key: `failed to VERB KIND key:`
/// and the reply's message, or `DEFAULT failed`.
pub open spec fn refusal(verb: Seq<char>, kind: KeyKind, body: Option<Json>) -> Seq<char> {
    "failed to "@ + verb + " "@ + kind_name(kind) + " key: "@ + reply_message(body, verb + " failed"@)
}

fn refusal_text(verb: &str, kind: KeyKind, body: &Option<Json>) -> (r: String)
    ensures
        r@ == refusal(verb@, kind, *body),
{
    let mut d = verb.to_owned();
    d.append(" failed");
    let mut m = "failed to ".to_owned();
    m.append(verb);
    m.append(" ");
    m.append(kind_text(kind));
    m.append(" key: ");
    m.append(message_or(body, d.as_str()).as_str());
    m
}

/// Reads the reply to adding a key of `kind`.
pub fn add_outcome(kind: KeyKind, resp: ApiResponse) -> (r: Result<Json, GorError>)
    ensures
        !is_success(resp.status) ==> (r matches Err(GorError::InvalidInput(m)) && m@ == refusal("add"@, kind, resp.body)),
        is_success(resp.status) && !(resp.body matches Some(b) && is_key(kind, b)) ==> (r matches Err(GorError::Http(m))
            && m@ == "error decoding response body"@),
        is_success(resp.status) ==> (resp.body matches Some(b) ==> (is_key(kind, b) ==> r == Ok::<Json, GorError>(b))),
{
    if !(200 <= resp.status && resp.status <= 299) {
        return Err(GorError::InvalidInput(refusal_text("add", kind, &resp.body)));
    }
    match resp.body {
        Some(b) => if key_value(kind, &b) {
            Ok(b)
        } else {
            Err(GorError::Http("error decoding response body".to_owned()))
        },
        None => Err(GorError::Http("error decoding response body".to_owned())),
    }
}

/// The path of one key: SSH keys by number, GPG keys by key ID.
pub open spec fn key_path_of(kind: KeyKind, id: Seq<char>) -> Seq<char> {
    keys_path_of(kind) + "/"@ + id
}

/// Builds [`key_path_of`] for SSH key `id`.
pub fn ssh_key_path(id: u64) -> (r: String)
    ensures
        r@ == key_path_of(KeyKind::Ssh, decimal(id as nat)),
{
    let mut p = "/user/keys".to_owned();
    p.append("/");
    p.append(decimal_string(id).as_str());
    p
}

/// Builds [`key_path_of`] for GPG key `key_id`.
pub fn gpg_key_path(key_id: &str) -> (r: String)
    ensures
        r@ == key_path_of(KeyKind::Gpg, key_id@),
{
    let mut p = "/user/gpg_keys".to_owned();
    p.append("/");
    p.append(key_id);
    p
}

/// Reads the reply to deleting a key of `kind`.
pub fn delete_outcome(kind: KeyKind, resp: &ApiResponse) -> (r: Result<(), GorError>)
    ensures
        is_success(resp.status) ==> r is Ok,
        !is_success(resp.status) ==> (r matches Err(GorError::InvalidInput(m)) && m@ == refusal("delete"@, kind, resp.body)),
{
    if !(200 <= resp.status && resp.status <= 299) {
        return Err(GorError::InvalidInput(refusal_text("delete", kind, &resp.body)));
    }
    Ok(())
}

} // verus!
