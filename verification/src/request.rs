//! Requests to the REST API and what their replies carry, as plain values.
use vstd::prelude::*;
use crate::cmd::flow::{http_failure, http_failure_message};
use crate::text::{chars_of, find_first, find_in, string_of, trim_str, trimmed};
use crate::error::GorError;
use crate::json::{Json, JsonValue, has_member, member, members_of, no_members, push_member, str_member, str_value,
    string_json, value_of};

verus! {

/// An HTTP method.
#[derive(Debug)]
pub enum Method {
    Get,
    Post,
    Put,
    Patch,
    Delete,
}

/// The body of a request.
#[derive(Debug)]
pub enum RequestBody {
    /// No body.
    Empty,
    /// A JSON body sent as such (with a JSON content type).
    Json(Json),
    /// A JSON document serialized to bytes and sent as the raw body.
    JsonBytes(Json),
}

/// A request to an API path of the host.
#[derive(Debug)]
pub struct ApiRequest {
    pub method: Method,
    /// The API path, starting with `/`.
    pub path: String,
    pub body: RequestBody,
}

/// A reply to a request.
#[derive(Debug)]
pub struct ApiResponse {
    /// The status code.
    pub status: u16,
    /// The status as displayed (`404 Not Found`).
    pub status_text: String,
    /// The body read as JSON (`None` when it is not JSON).
    pub body: Option<Json>,
}

/// Whether a status code means success (2xx).
pub open spec fn is_success(status: u16) -> bool {
    200 <= status <= 299
}

/// A GET request of `path`.
pub fn get_request(path: String) -> (r: ApiRequest)
    ensures
        r.method == Method::Get,
        r.path == path,
        r.body == RequestBody::Empty,
{
    ApiRequest { method: Method::Get, path, body: RequestBody::Empty }
}

/// The body of a GraphQL request: the query, and the variables when given.
pub open spec fn graphql_body(query: Seq<char>, variables: Option<JsonValue>) -> JsonValue {
    JsonValue::Object(seq![("query"@, str_value(query))] + match variables {
        Some(v) => seq![("variables"@, v)],
        None => Seq::empty(),
    })
}

/// The GraphQL request of `query`: a POST of [`graphql_body`] to `/graphql`.
pub fn graphql_request(query: &str, variables: Option<Json>) -> (r: ApiRequest)
    ensures
        r.method == Method::Post,
        r.path@ == "/graphql"@,
        r.body matches RequestBody::Json(b) && value_of(b) == graphql_body(query@, match variables {
            Some(v) => Some(value_of(v)),
            None => None,
        }),
{
    let ghost vars = variables;
    let mut e = no_members();
    push_member(&mut e, "query", string_json(query));
    match variables {
        Some(v) => push_member(&mut e, "variables", v),
        None => {},
    }
    assert(members_of(e@) =~= seq![("query"@, str_value(query@))] + match vars {
        Some(v) => seq![("variables"@, value_of(v))],
        None => Seq::<(Seq<char>, JsonValue)>::empty(),
    });
    ApiRequest { method: Method::Post, path: "/graphql".to_owned(), body: RequestBody::Json(Json::Object(e)) }
}

/// The first item of an array, or null.
pub open spec fn first_item(j: Json) -> Json {
    match j {
        Json::Array(items) => if items@.len() > 0 { items@[0] } else { Json::Null },
        _ => Json::Null,
    }
}

/// The message of a GraphQL reply's first error, or `GraphQL error`.
pub open spec fn graphql_error_message(result: Json) -> Seq<char> {
    match str_member(first_item(member(result, "errors"@)), "message"@) {
        Some(m) => m,
        None => "GraphQL error"@,
    }
}

/// Reads a GraphQL reply: the reply itself, unless it has an `errors`
/// member, which fails as an authentication error.
pub fn graphql_outcome(result: Json) -> (r: Result<Json, GorError>)
    ensures
        has_member(result, "errors"@) ==> (r matches Err(GorError::Auth(m)) && m@ == graphql_error_message(result)),
        !has_member(result, "errors"@) ==> r == Ok::<Json, GorError>(result),
{
    let msg: Option<String> = match result.get("errors") {
        Some(errors) => {
            let first: Option<&Json> = match errors {
                Json::Array(items) => if items.len() > 0 { Some(&items[0]) } else { None },
                _ => None,
            };
            let m: &str = match first {
                Some(f) => match f.str_member("message") {
                    Some(x) => x,
                    None => "GraphQL error",
                },
                None => {
                    assert(str_member(Json::Null, "message"@) is None);
                    "GraphQL error"
                },
            };
            Some(m.to_owned())
        },
        None => None,
    };
    match msg {
        Some(m) => Err(GorError::Auth(m)),
        None => Ok(result),
    }
}

/// What a request that only succeeds or fails gives: nothing, or the
/// failure `WHAT: HTTP STATUS`.
pub fn done_outcome(what: &str, status: u16, status_text: &str) -> (r: Result<(), GorError>)
    ensures
        is_success(status) ==> r is Ok,
        !is_success(status) ==> (r matches Err(GorError::InvalidInput(m)) && m@ == http_failure(what@, status_text@)),
{
    if 200 <= status && status <= 299 {
        Ok(())
    } else {
        Err(GorError::InvalidInput(http_failure_message(what, status_text)))
    }
}

/// What a deletion of `NOUN 'name'` gives: nothing; `NOUN 'name' not
/// found` for a 404; else the failure `failed to delete NOUN 'name': HTTP
/// STATUS`.
pub fn removal_outcome(noun: &str, name: &str, status: u16, status_text: &str) -> (r: Result<(), GorError>)
    ensures
        status == 404 ==> (r matches Err(GorError::NotFound(m)) && m@ == noun@ + " '"@ + name@ + "' not found"@),
        status != 404 && is_success(status) ==> r is Ok,
        status != 404 && !is_success(status) ==> (r matches Err(GorError::InvalidInput(m))
            && m@ == http_failure("failed to delete "@ + noun@ + " '"@ + name@ + "'"@, status_text@)),
{
    if status == 404 {
        let mut m = noun.to_owned();
        m.append(" '");
        m.append(name);
        m.append("' not found");
        return Err(GorError::NotFound(m));
    }
    let mut w = "failed to delete ".to_owned();
    w.append(noun);
    w.append(" '");
    w.append(name);
    w.append("'");
    done_outcome(w.as_str(), status, status_text)
}

/// A `Key: Value` header as sent: split at the first `:`, each side
/// trimmed; nothing for a header without `:`.
pub open spec fn header_pair_of(h: Seq<char>) -> Option<(Seq<char>, Seq<char>)> {
    match find_first(h, seq![':']) {
        Some(i) => Some((trimmed(h.take(i)), trimmed(h.skip(i + 1)))),
        None => None,
    }
}

/// Splits a header given as `Key: Value` (see [`header_pair_of`]).
pub fn header_pair(h: &str) -> (r: Option<(String, String)>)
    ensures
        match header_pair_of(h@) {
            Some((k, v)) => r matches Some((rk, rv)) && rk@ == k && rv@ == v,
            None => r is None,
        },
{
    let v = chars_of(h);
    let colon: Vec<char> = vec![':'];
    assert(colon@ =~= seq![':']);
    match find_in(&v, &colon) {
        Some(i) => {
            let key = string_of(v.as_slice().split_at(i).0);
            let rest = string_of(v.as_slice().split_at(i + 1).1);
            assert(key@ =~= h@.take(i as int));
            assert(rest@ =~= h@.skip(i + 1));
            Some((trim_str(key.as_str()), trim_str(rest.as_str())))
        },
        None => None,
    }
}

} // verus!
