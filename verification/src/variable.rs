//! Scopes of GitHub Actions variables and the API paths they lead to.
use vstd::prelude::*;
use vstd::string::*;
use crate::json::{Json, JsonValue, members_of, no_members, push_member, str_value, string_json, value_of};
use crate::error::GorError;
use crate::request::{done_outcome, removal_outcome, is_success};
use crate::cmd::flow::http_failure;
use crate::repository::{RepoSplit, repo_prefix, repo_path};

verus! {

/// Scope for a variable operation.
pub enum VariableScope {
    /// Repository-level variable.
    Repo(RepoSplit),
    /// Environment-level variable within a repository.
    Environment {
        /// The repository specification.
        spec: RepoSplit,
        /// The environment name.
        env: String,
    },
    /// Organization-level variable.
    Org(String),
}

/// The API path of the variables collection of a scope.
pub open spec fn variables_base(scope: VariableScope) -> Seq<char> {
    match scope {
        VariableScope::Repo(spec) => repo_prefix(spec.owner@, spec.repo@) + "/actions/variables"@,
        VariableScope::Environment { spec, env } => repo_prefix(spec.owner@, spec.repo@) + "/environments/"@ + env@ + "/variables"@,
        VariableScope::Org(org) => "/orgs/"@ + org@ + "/actions/variables"@,
    }
}

impl VariableScope {
    fn base(&self) -> (r: String)
        ensures
            r@ == variables_base(*self),
    {
        match self {
            VariableScope::Repo(spec) => {
                let mut p = repo_path(spec);
                p.append("/actions/variables");
                p
            },
            VariableScope::Environment { spec, env } => {
                let mut p = repo_path(spec);
                p.append("/environments/");
                p.append(env.as_str());
                p.append("/variables");
                p
            },
            VariableScope::Org(org) => {
                let mut p = "/orgs/".to_owned();
                p.append(org.as_str());
                p.append("/actions/variables");
                p
            },
        }
    }

    /// The API path of the variable `name` in this scope.
    pub fn api_path(&self, name: &str) -> (r: String)
        ensures
            r@ == variables_base(*self) + "/"@ + name@,
    {
        let mut p = self.base();
        p.append("/");
        p.append(name);
        p
    }

    /// The API path that lists this scope's variables (up to 100 of them).
    pub fn api_list_path(&self) -> (r: String)
        ensures
            r@ == variables_base(*self) + "?per_page=100"@,
    {
        let mut p = self.base();
        p.append("?per_page=100");
        p
    }
}

/// The body that sets a variable.
pub open spec fn set_body(value: Seq<char>) -> JsonValue {
    JsonValue::Object(seq![("value"@, str_value(value))])
}

/// Builds [`set_body`].
pub fn set_request_body(value: &str) -> (r: Json)
    ensures
        value_of(r) == set_body(value@),
{
    let mut e = no_members();
    push_member(&mut e, "value", string_json(value));
    assert(members_of(e@) =~= seq![("value"@, str_value(value@))]);
    Json::Object(e)
}

/// Reads the reply to setting variable `name` (sent with `PATCH`).
pub fn set_outcome(name: &str, status: u16, status_text: &str) -> (r: Result<(), GorError>)
    ensures
        is_success(status) ==> r is Ok,
        !is_success(status) ==> (r matches Err(GorError::InvalidInput(m))
            && m@ == http_failure("failed to set variable '"@ + name@ + "'"@, status_text@)),
{
    let mut w = "failed to set variable '".to_owned();
    w.append(name);
    w.append("'");
    done_outcome(w.as_str(), status, status_text)
}

/// Reads the reply to deleting variable `name`.
pub fn delete_outcome(name: &str, status: u16, status_text: &str) -> (r: Result<(), GorError>)
    ensures
        status == 404 ==> (r matches Err(GorError::NotFound(m)) && m@ == "variable"@ + " '"@ + name@ + "' not found"@),
        status != 404 && is_success(status) ==> r is Ok,
        status != 404 && !is_success(status) ==> (r matches Err(GorError::InvalidInput(m))
            && m@ == http_failure("failed to delete "@ + "variable"@ + " '"@ + name@ + "'"@, status_text@)),
{
    removal_outcome("variable", name, status, status_text)
}

} // verus!
