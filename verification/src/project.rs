//! Scopes of GitHub Projects (classic) and the API paths they lead to.
use vstd::prelude::*;
use vstd::string::*;
use crate::output::{decimal, decimal_string};
use crate::repository::{RepoSplit, repo_prefix, repo_path};
use crate::cmd::flow::{array_items, http_failure, http_failure_message, message_or, reply_message, take_items};
use crate::error::GorError;
use crate::json::{Json, JsonValue, members_of, no_members, number_json, number_value, push_member, str_member,
    str_value, string_json, u64_member, value_of};
use crate::org::{at_most, has_optional_text, optional_text};
use crate::request::{ApiResponse, is_success};

verus! {

/// Scope for listing projects.
pub enum ProjectScope {
    /// Organization projects.
    Org(String),
    /// User projects.
    User(String),
    /// Repository projects.
    Repo(RepoSplit),
}

/// The page size asked for when at most `limit` items are wanted.
pub open spec fn page_size(limit: u32) -> nat {
    if limit < 100 { limit as nat } else { 100 }
}

/// The API path of the projects collection of a scope.
pub open spec fn projects_base(scope: ProjectScope) -> Seq<char> {
    match scope {
        ProjectScope::Org(org) => "/orgs/"@ + org@ + "/projects"@,
        ProjectScope::User(user) => "/users/"@ + user@ + "/projects"@,
        ProjectScope::Repo(spec) => repo_prefix(spec.owner@, spec.repo@) + "/projects"@,
    }
}

/// `?per_page=N` for the page size that `limit` asks for.
pub fn per_page_query(limit: u32) -> (r: String)
    ensures
        r@ == "?per_page="@ + decimal(page_size(limit)),
{
    let n: u32 = if limit < 100 { limit } else { 100 };
    let mut q = "?per_page=".to_owned();
    let d = decimal_string(n as u64);
    q.append(d.as_str());
    q
}

impl ProjectScope {
    /// The API path that lists this scope's projects, asking for
    /// `min(limit, 100)` per page.
    pub fn api_list_path(&self, limit: u32) -> (r: String)
        ensures
            r@ == projects_base(*self) + "?per_page="@ + decimal(page_size(limit)),
    {
        let mut p = match self {
            ProjectScope::Org(org) => {
                let mut p = "/orgs/".to_owned();
                p.append(org.as_str());
                p.append("/projects");
                p
            },
            ProjectScope::User(user) => {
                let mut p = "/users/".to_owned();
                p.append(user.as_str());
                p.append("/projects");
                p
            },
            ProjectScope::Repo(spec) => {
                let mut p = repo_path(spec);
                p.append("/projects");
                p
            },
        };
        let q = per_page_query(limit);
        p.append(q.as_str());
        p
    }
}

/// Whether a value reads as a project: an object with a whole `number`, a
/// string `name`, and a `state` and `visibility` that are each a string,
/// null or absent.
pub open spec fn is_project(j: Json) -> bool {
    &&& j is Object
    &&& u64_member(j, "number"@) is Some
    &&& str_member(j, "name"@) is Some
    &&& optional_text(j, "state"@)
    &&& optional_text(j, "visibility"@)
}

fn project_value(j: &Json) -> (b: bool)
    ensures
        b == is_project(*j),
{
    match j {
        Json::Object(_) => j.u64_member("number").is_some() && j.str_member("name").is_some()
            && has_optional_text(j, "state") && has_optional_text(j, "visibility"),
        _ => false,
    }
}

/// Whether every item reads as a project.
pub open spec fn all_projects(items: Seq<Json>) -> bool {
    forall|i: int| 0 <= i < items.len() ==> #[trigger] is_project(items[i])
}

fn every_project(items: &Vec<Json>) -> (b: bool)
    ensures
        b == all_projects(items@),
{
    let mut i: usize = 0;
    while i < items.len()
        invariant
            i <= items@.len(),
            forall|k: int| 0 <= k < i ==> #[trigger] is_project(items@[k]),
        decreases items.len() - i,
    {
        if !project_value(&items[i]) {
            return false;
        }
        i = i + 1;
    }
    true
}

/// Reads the reply to a listing: the first `limit` projects; an error when
/// the request failed or the body is not a list of them.
pub fn list_outcome(limit: u32, resp: ApiResponse) -> (r: Result<Vec<Json>, GorError>)
    ensures
        !is_success(resp.status) ==> (r matches Err(GorError::InvalidInput(m))
            && m@ == http_failure("failed to list projects"@, resp.status_text@)),
        is_success(resp.status) && !(array_items(resp.body) matches Some(items) && all_projects(items@)) ==> (r matches Err(
            GorError::Http(m)) && m@ == "error decoding response body"@),
        is_success(resp.status) ==> (array_items(resp.body) matches Some(items) ==> (all_projects(items@) ==> (
            r matches Ok(v) && v@ == at_most(items@, limit)))),
{
    if !(200 <= resp.status && resp.status <= 299) {
        return Err(GorError::InvalidInput(http_failure_message("failed to list projects", resp.status_text.as_str())));
    }
    let ghost body = resp.body;
    match take_items(resp.body) {
        None => Err(GorError::Http("error decoding response body".to_owned())),
        Some(items) => {
            if !every_project(&items) {
                return Err(GorError::Http("error decoding response body".to_owned()));
            }
            let mut v = items;
            v.truncate(limit as usize);
            assert(v@ =~= at_most(array_items(body)->0@, limit));
            Ok(v)
        },
    }
}

/// The path of project `number`.
pub open spec fn project_path_of(number: u64) -> Seq<char> {
    "/projects/"@ + decimal(number as nat)
}

/// Builds [`project_path_of`].
pub fn project_path(number: u64) -> (r: String)
    ensures
        r@ == project_path_of(number),
{
    let mut p = "/projects/".to_owned();
    p.append(decimal_string(number).as_str());
    p
}

/// Reads the reply to reading project `number`.
pub fn view_outcome(number: u64, resp: ApiResponse) -> (r: Result<Json, GorError>)
    ensures
        resp.status == 404 ==> (r matches Err(GorError::NotFound(m))
            && m@ == "project #"@ + decimal(number as nat) + " not found"@),
        resp.status != 404 && !is_success(resp.status) ==> (r matches Err(GorError::InvalidInput(m))
            && m@ == http_failure("failed to view project"@, resp.status_text@)),
        is_success(resp.status) && resp.body is None ==> (r matches Err(GorError::Http(m))
            && m@ == "error decoding response body"@),
        is_success(resp.status) ==> (resp.body matches Some(b) ==> r == Ok::<Json, GorError>(b)),
{
    if resp.status == 404 {
        let mut m = "project #".to_owned();
        m.append(decimal_string(number).as_str());
        m.append(" not found");
        return Err(GorError::NotFound(m));
    }
    if !(200 <= resp.status && resp.status <= 299) {
        return Err(GorError::InvalidInput(http_failure_message("failed to view project", resp.status_text.as_str())));
    }
    match resp.body {
        None => Err(GorError::Http("error decoding response body".to_owned())),
        Some(b) => Ok(b),
    }
}

/// The path that adds items to project `project`.
pub open spec fn items_path_of(project: u64) -> Seq<char> {
    project_path_of(project) + "/items"@
}

/// Builds [`items_path_of`].
pub fn items_path(project: u64) -> (r: String)
    ensures
        r@ == items_path_of(project),
{
    let mut p = project_path(project);
    p.append("/items");
    p
}

/// The body that adds an item to a project.
pub open spec fn item_body(content_id: u64, content_type: Seq<char>) -> JsonValue {
    JsonValue::Object(seq![("content_id"@, number_value(content_id)), ("content_type"@, str_value(content_type))])
}

/// Builds [`item_body`].
pub fn item_request_body(content_id: u64, content_type: &str) -> (r: Json)
    ensures
        value_of(r) == item_body(content_id, content_type@),
{
    let mut e = no_members();
    push_member(&mut e, "content_id", number_json(content_id));
    push_member(&mut e, "content_type", string_json(content_type));
    assert(members_of(e@) =~= seq![("content_id"@, number_value(content_id)), ("content_type"@, str_value(content_type@))]);
    Json::Object(e)
}

/// Reads the reply to adding an item to project `project`.
pub fn item_add_outcome(project: u64, resp: ApiResponse) -> (r: Result<Json, GorError>)
    ensures
        !is_success(resp.status) ==> (r matches Err(GorError::InvalidInput(m))
            && m@ == "failed to add item to project #"@ + decimal(project as nat) + ": "@
                + reply_message(resp.body, "add failed"@)),
        is_success(resp.status) && resp.body is None ==> (r matches Err(GorError::Http(m))
            && m@ == "error decoding response body"@),
        is_success(resp.status) ==> (resp.body matches Some(b) ==> r == Ok::<Json, GorError>(b)),
{
    if !(200 <= resp.status && resp.status <= 299) {
        let mut m = "failed to add item to project #".to_owned();
        m.append(decimal_string(project).as_str());
        m.append(": ");
        m.append(message_or(&resp.body, "add failed").as_str());
        return Err(GorError::InvalidInput(m));
    }
    match resp.body {
        None => Err(GorError::Http("error decoding response body".to_owned())),
        Some(b) => Ok(b),
    }
}

} // verus!
