//! GitHub Actions workflows: the requests that read, switch and dispatch a
//! workflow, and what their replies give.
use vstd::prelude::*;
use vstd::string::*;
use crate::error::GorError;
use crate::json::{Json, JsonValue, members_of, no_members, push_member, str_value, string_json, value_of};
use crate::repository::{RepoSplit, repo_path, repo_prefix};
use crate::request::{ApiResponse, is_success};

verus! {

/// The path of workflow `workflow` (an ID or a file name, as given).
pub open spec fn workflow_path_of(owner: Seq<char>, repo: Seq<char>, workflow: Seq<char>) -> Seq<char> {
    repo_prefix(owner, repo) + "/actions/workflows/"@ + workflow
}

/// Builds [`workflow_path_of`].
pub fn workflow_path(spec: &RepoSplit, workflow: &str) -> (r: String)
    ensures
        r@ == workflow_path_of(spec.owner@, spec.repo@, workflow@),
{
    let mut p = repo_path(spec);
    p.append("/actions/workflows/");
    p.append(workflow);
    p
}

/// Builds the path of an action on a workflow (`enable`, `disable`,
/// `dispatches`).
pub fn workflow_action_path(spec: &RepoSplit, workflow: &str, action: &str) -> (r: String)
    ensures
        r@ == workflow_path_of(spec.owner@, spec.repo@, workflow@) + "/"@ + action@,
{
    let mut p = workflow_path(spec, workflow);
    p.append("/");
    p.append(action);
    p
}

/// Reads the reply to reading workflow `workflow`.
pub fn view_outcome(workflow: &str, resp: ApiResponse) -> (r: Result<Json, GorError>)
    ensures
        resp.status == 404 ==> (r matches Err(GorError::NotFound(m)) && m@ == "workflow '"@ + workflow@ + "' not found"@),
        resp.status != 404 && !is_success(resp.status) ==> (r matches Err(GorError::InvalidInput(m))
            && m@ == "HTTP "@ + resp.status_text@),
        is_success(resp.status) && resp.body is None ==> (r matches Err(GorError::Http(m))
            && m@ == "error decoding response body"@),
        is_success(resp.status) ==> (resp.body matches Some(b) ==> r == Ok::<Json, GorError>(b)),
{
    if resp.status == 404 {
        let mut m = "workflow '".to_owned();
        m.append(workflow);
        m.append("' not found");
        return Err(GorError::NotFound(m));
    }
    if !(200 <= resp.status && resp.status <= 299) {
        let mut m = "HTTP ".to_owned();
        m.append(resp.status_text.as_str());
        return Err(GorError::InvalidInput(m));
    }
    match resp.body {
        None => Err(GorError::Http("error decoding response body".to_owned())),
        Some(b) => Ok(b),
    }
}

/// The body that dispatches a run on `branch`.
pub open spec fn dispatch_body(branch: Seq<char>) -> JsonValue {
    JsonValue::Object(seq![("ref"@, str_value(branch))])
}

/// Builds [`dispatch_body`].
pub fn dispatch_request_body(branch: &str) -> (r: Json)
    ensures
        value_of(r) == dispatch_body(branch@),
{
    let mut e = no_members();
    push_member(&mut e, "ref", string_json(branch));
    assert(members_of(e@) =~= seq![("ref"@, str_value(branch@))]);
    Json::Object(e)
}

} // verus!
