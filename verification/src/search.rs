//! GitHub search: the query encoding, the search paths, and what a reply
//! gives.
use vstd::prelude::*;
use vstd::string::*;
use vstd::utf8::*;
use crate::cmd::flow::{http_failure, http_failure_message};
use crate::error::GorError;
use crate::json::{Json, member, take_member};
use crate::org::at_most;
use crate::output::{decimal, decimal_string};
use crate::request::{ApiResponse, is_success};
use crate::text::{replace_all, replaced};
use crate::util::{form_encoded, form_urlencode};

verus! {

/// Form-encodes the UTF-8 bytes of a query: unreserved ASCII stays, a
/// space becomes `+`, every other byte becomes `%XX`.
pub fn urlencoding_helper(s: &str) -> (r: String)
    ensures
        r@ == form_encoded(encode_utf8(s@)),
{
    form_urlencode(s)
}

/// The encoding of a query in a search path.
pub open spec fn query_text(s: Seq<char>) -> Seq<char> {
    replaced(form_encoded(encode_utf8(s)), " "@, "+"@)
}

/// Encodes [`query_text`].
pub fn urlencoding(s: &str) -> (r: String)
    ensures
        r@ == query_text(s@),
{
    proof { reveal_strlit(" "); }
    let e = urlencoding_helper(s);
    replace_all(e.as_str(), " ", "+")
}

/// The page size asked for.
pub open spec fn per_page(limit: u32) -> Seq<char> {
    decimal(if limit < 100 { limit as nat } else { 100 })
}

fn per_page_text(limit: u32) -> (r: String)
    ensures
        r@ == per_page(limit),
{
    let n: u32 = if limit < 100 { limit } else { 100 };
    decimal_string(n as u64)
}

/// What is searched.
#[derive(Debug, Clone, Copy)]
pub enum SearchKind {
    Code,
    Issues,
    Commits,
}

/// The path segment of a kind.
pub open spec fn kind_segment(kind: SearchKind) -> Seq<char> {
    match kind {
        SearchKind::Code => "code"@,
        SearchKind::Issues => "issues"@,
        SearchKind::Commits => "commits"@,
    }
}

/// The path that searches repositories.
pub open spec fn repos_path_of(query: Seq<char>, sort: Seq<char>, order: Seq<char>, limit: u32) -> Seq<char> {
    "/search/repositories?q="@ + query_text(query) + "&sort="@ + sort + "&order="@ + order + "&per_page="@
        + per_page(limit)
}

/// Builds [`repos_path_of`].
pub fn repos_path(query: &str, sort: &str, order: &str, limit: u32) -> (r: String)
    ensures
        r@ == repos_path_of(query@, sort@, order@, limit),
{
    let mut p = "/search/repositories?q=".to_owned();
    p.append(urlencoding(query).as_str());
    p.append("&sort=");
    p.append(sort);
    p.append("&order=");
    p.append(order);
    p.append("&per_page=");
    p.append(per_page_text(limit).as_str());
    p
}

/// The path that searches code, issues or commits.
pub open spec fn search_path_of(kind: SearchKind, query: Seq<char>, limit: u32) -> Seq<char> {
    "/search/"@ + kind_segment(kind) + "?q="@ + query_text(query) + "&per_page="@ + per_page(limit)
}

/// Builds [`search_path_of`].
pub fn search_path(kind: SearchKind, query: &str, limit: u32) -> (r: String)
    ensures
        r@ == search_path_of(kind, query@, limit),
{
    let mut p = "/search/".to_owned();
    match kind {
        SearchKind::Code => p.append("code"),
        SearchKind::Issues => p.append("issues"),
        SearchKind::Commits => p.append("commits"),
    }
    p.append("?q=");
    p.append(urlencoding(query).as_str());
    p.append("&per_page=");
    p.append(per_page_text(limit).as_str());
    p
}

/// The items of a search reply (`items`; none when absent).
pub open spec fn found_items(body: Json) -> Seq<Json> {
    match member(body, "items"@) {
        Json::Array(items) => items@,
        _ => Seq::empty(),
    }
}

/// Reads a search reply: the first `limit` items found.
pub fn search_outcome(limit: u32, resp: ApiResponse) -> (r: Result<Vec<Json>, GorError>)
    ensures
        !is_success(resp.status) ==> (r matches Err(GorError::InvalidInput(m))
            && m@ == http_failure("search failed"@, resp.status_text@)),
        is_success(resp.status) && resp.body is None ==> (r matches Err(GorError::Http(m))
            && m@ == "error decoding response body"@),
        is_success(resp.status) ==> (resp.body matches Some(b) ==> (r matches Ok(v) && v@ == at_most(found_items(b), limit))),
{
    if !(200 <= resp.status && resp.status <= 299) {
        return Err(GorError::InvalidInput(http_failure_message("search failed", resp.status_text.as_str())));
    }
    match resp.body {
        None => Err(GorError::Http("error decoding response body".to_owned())),
        Some(b) => {
            let ghost body = b;
            let mut items = match take_member(b, "items") {
                Json::Array(v) => v,
                _ => Vec::new(),
            };
            items.truncate(limit as usize);
            assert(items@ =~= at_most(found_items(body), limit));
            Ok(items)
        },
    }
}

} // verus!
