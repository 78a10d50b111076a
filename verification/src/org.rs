//! GitHub organizations: the paths that list and read them, and what a
//! reply to those requests gives.
use vstd::prelude::*;
use vstd::string::*;
use crate::cmd::flow::{array_items, http_failure, http_failure_message, take_items};
use crate::error::GorError;
use crate::json::{Json, member, str_member};
use crate::output::{decimal, decimal_string};
use crate::request::{ApiResponse, is_success};

verus! {

/// The path that lists the organizations of the signed-in user, at most
/// 100 to a page.
pub open spec fn list_path_of(limit: u32) -> Seq<char> {
    "/user/orgs?per_page="@ + decimal(if limit < 100 { limit as nat } else { 100 })
}

/// Builds [`list_path_of`].
pub fn list_path(limit: u32) -> (r: String)
    ensures
        r@ == list_path_of(limit),
{
    let mut p = "/user/orgs?per_page=".to_owned();
    let n: u32 = if limit < 100 { limit } else { 100 };
    p.append(decimal_string(n as u64).as_str());
    p
}

/// At most the first `n` of `s`.
pub open spec fn at_most(s: Seq<Json>, n: u32) -> Seq<Json> {
    if s.len() <= n { s } else { s.take(n as int) }
}

/// Whether member `key` of `j` reads as an optional text: a string, null
/// or absent.
pub open spec fn optional_text(j: Json, key: Seq<char>) -> bool {
    member(j, key) is Null || member(j, key) is String
}

/// Tests [`optional_text`].
pub fn has_optional_text(j: &Json, key: &str) -> (b: bool)
    ensures
        b == optional_text(*j, key@),
{
    match j.get(key) {
        None => true,
        Some(Json::Null) => true,
        Some(Json::String(_)) => true,
        Some(_) => false,
    }
}

/// Whether a value reads as an organization: an object with a string
/// `login` and a `description` that is a string, null or absent.
pub open spec fn is_org(j: Json) -> bool {
    &&& j is Object
    &&& str_member(j, "login"@) is Some
    &&& optional_text(j, "description"@)
}

fn org_value(j: &Json) -> (b: bool)
    ensures
        b == is_org(*j),
{
    match j {
        Json::Object(_) => j.str_member("login").is_some() && has_optional_text(j, "description"),
        _ => false,
    }
}

/// Whether every item reads as an organization.
pub open spec fn all_orgs(items: Seq<Json>) -> bool {
    forall|i: int| 0 <= i < items.len() ==> #[trigger] is_org(items[i])
}

fn every_org(items: &Vec<Json>) -> (b: bool)
    ensures
        b == all_orgs(items@),
{
    let mut i: usize = 0;
    while i < items.len()
        invariant
            i <= items@.len(),
            forall|k: int| 0 <= k < i ==> #[trigger] is_org(items@[k]),
        decreases items.len() - i,
    {
        if !org_value(&items[i]) {
            return false;
        }
        i = i + 1;
    }
    true
}

/// Reads the reply to the listing: the first `limit` organizations; an
/// error when the request failed or the body is not a list of them.
pub fn list_outcome(limit: u32, resp: ApiResponse) -> (r: Result<Vec<Json>, GorError>)
    ensures
        !is_success(resp.status) ==> (r matches Err(GorError::InvalidInput(m))
            && m@ == http_failure("failed to list organizations"@, resp.status_text@)),
        is_success(resp.status) && !(array_items(resp.body) matches Some(items) && all_orgs(items@)) ==> (r matches Err(
            GorError::Http(m)) && m@ == "error decoding response body"@),
        is_success(resp.status) ==> (array_items(resp.body) matches Some(items) ==> (all_orgs(items@) ==> (r matches Ok(v)
            && v@ == at_most(items@, limit)))),
{
    if !(200 <= resp.status && resp.status <= 299) {
        return Err(GorError::InvalidInput(http_failure_message("failed to list organizations", resp.status_text.as_str())));
    }
    let ghost body = resp.body;
    match take_items(resp.body) {
        None => Err(GorError::Http("error decoding response body".to_owned())),
        Some(items) => {
            if !every_org(&items) {
                return Err(GorError::Http("error decoding response body".to_owned()));
            }
            let mut v = items;
            v.truncate(limit as usize);
            assert(v@ =~= at_most(array_items(body)->0@, limit));
            Ok(v)
        },
    }
}

/// The path that reads organization `org`.
pub open spec fn view_path_of(org: Seq<char>) -> Seq<char> {
    "/orgs/"@ + org
}

/// Builds [`view_path_of`].
pub fn view_path(org: &str) -> (r: String)
    ensures
        r@ == view_path_of(org@),
{
    let mut p = "/orgs/".to_owned();
    p.append(org);
    p
}

/// Reads the reply to reading organization `org`: its JSON, or the error
/// the reply stands for.
pub fn view_outcome(org: &str, resp: ApiResponse) -> (r: Result<Json, GorError>)
    ensures
        resp.status == 404 ==> (r matches Err(GorError::NotFound(m))
            && m@ == "organization '"@ + org@ + "' not found"@),
        resp.status != 404 && !is_success(resp.status) ==> (r matches Err(GorError::InvalidInput(m))
            && m@ == http_failure("failed to view organization"@, resp.status_text@)),
        is_success(resp.status) && resp.body is None ==> (r matches Err(GorError::Http(m))
            && m@ == "error decoding response body"@),
        is_success(resp.status) ==> (resp.body matches Some(b) ==> r == Ok::<Json, GorError>(b)),
{
    if resp.status == 404 {
        let mut m = "organization '".to_owned();
        m.append(org);
        m.append("' not found");
        return Err(GorError::NotFound(m));
    }
    if !(200 <= resp.status && resp.status <= 299) {
        return Err(GorError::InvalidInput(http_failure_message("failed to view organization", resp.status_text.as_str())));
    }
    match resp.body {
        None => Err(GorError::Http("error decoding response body".to_owned())),
        Some(b) => Ok(b),
    }
}

} // verus!
