//! GitHub Actions caches: the paths that list and delete them, and what a
//! deletion reports.
use vstd::prelude::*;
use vstd::string::*;
use crate::error::GorError;
use crate::json::u64_member;
use crate::cmd::flow::{http_failure, http_failure_message};
use crate::repository::{RepoSplit, repo_path, repo_prefix};
use crate::request::{ApiResponse, is_success};
use crate::text::chars_of;

verus! {

/// Options for deleting caches.
#[derive(Debug)]
pub struct DeleteOptions<'a> {
    /// Delete a specific cache key.
    pub key: Option<&'a str>,
    /// Delete caches with a key prefix.
    pub key_prefix: Option<&'a str>,
    /// Filter by Git ref.
    pub ref_: Option<&'a str>,
}

impl<'a> Default for DeleteOptions<'a> {
    fn default() -> (o: DeleteOptions<'a>)
        ensures
            o.key is None,
            o.key_prefix is None,
            o.ref_ is None,
    {
        DeleteOptions { key: None, key_prefix: None, ref_: None }
    }
}

/// `/repos/OWNER/REPO/actions/caches`.
pub open spec fn caches_prefix(owner: Seq<char>, repo: Seq<char>) -> Seq<char> {
    repo_prefix(owner, repo) + "/actions/caches"@
}

/// The path that lists the caches of a repository.
pub open spec fn list_path_of(owner: Seq<char>, repo: Seq<char>) -> Seq<char> {
    caches_prefix(owner, repo) + "?per_page=100"@
}

/// The key part of a deletion's query: the key, else the prefix (which the
/// API matches as a key too).
pub open spec fn key_query(opts: DeleteOptions) -> Seq<char> {
    match opts.key {
        Some(k) => "?key="@ + k@,
        None => match opts.key_prefix {
            Some(p) => "?key="@ + p@,
            None => Seq::empty(),
        },
    }
}

/// The path that deletes the caches `opts` selects.
pub open spec fn delete_path_of(owner: Seq<char>, repo: Seq<char>, opts: DeleteOptions) -> Seq<char> {
    let base = caches_prefix(owner, repo) + key_query(opts);
    match opts.ref_ {
        Some(r) => base + (if base.contains('?') { "&"@ } else { "?"@ }) + "ref="@ + r@,
        None => base,
    }
}

/// Builds the path that lists the caches of `spec`.
pub fn list_path(spec: &RepoSplit) -> (r: String)
    ensures
        r@ == list_path_of(spec.owner@, spec.repo@),
{
    let mut p = repo_path(spec);
    p.append("/actions/caches");
    p.append("?per_page=100");
    p
}

fn has_question_mark(s: &str) -> (b: bool)
    ensures
        b == s@.contains('?'),
{
    let v = chars_of(s);
    let mut i: usize = 0;
    while i < v.len()
        invariant
            v@ == s@,
            i <= v@.len(),
            forall|j: int| 0 <= j < i ==> v@[j] != '?',
        decreases v.len() - i,
    {
        if v[i] == '?' {
            return true;
        }
        i = i + 1;
    }
    false
}

/// Builds the path that deletes the caches `opts` selects.
pub fn delete_path(spec: &RepoSplit, opts: &DeleteOptions) -> (r: String)
    ensures
        r@ == delete_path_of(spec.owner@, spec.repo@, *opts),
{
    let mut path = repo_path(spec);
    path.append("/actions/caches");
    if let Some(k) = opts.key {
        path.append("?key=");
        path.append(k);
    } else if let Some(p) = opts.key_prefix {
        path.append("?key=");
        path.append(p);
    }
    proof {
        assert(path@ == caches_prefix(spec.owner@, spec.repo@) + key_query(*opts));
    }
    if let Some(r) = opts.ref_ {
        if has_question_mark(path.as_str()) {
            path.append("&");
        } else {
            path.append("?");
        }
        path.append("ref=");
        path.append(r);
    }
    path
}

/// The number of caches a successful deletion reports (`total_count`, 0
/// when absent).
pub open spec fn total_count(body: crate::json::Json) -> u64 {
    match u64_member(body, "total_count"@) {
        Some(n) => n,
        None => 0,
    }
}

/// Reads the reply to a deletion.
pub fn delete_outcome(resp: &ApiResponse) -> (r: Result<u64, GorError>)
    ensures
        !is_success(resp.status) ==> (r matches Err(GorError::InvalidInput(m))
            && m@ == http_failure("failed to delete caches"@, resp.status_text@)),
        is_success(resp.status) && resp.body is None ==> (r matches Err(GorError::Http(m))
            && m@ == "error decoding response body"@),
        is_success(resp.status) && resp.body is Some ==> r == Ok::<u64, GorError>(total_count(resp.body->0)),
{
    let ok = 200 <= resp.status && resp.status <= 299;
    if !ok {
        return Err(GorError::InvalidInput(http_failure_message("failed to delete caches", resp.status_text.as_str())));
    }
    match &resp.body {
        None => Err(GorError::Http("error decoding response body".to_owned())),
        Some(j) => Ok(match j.u64_member("total_count") {
            Some(n) => n,
            None => 0,
        }),
    }
}

} // verus!
