//! Scopes of GitHub Actions secrets and the API paths they lead to.
use vstd::prelude::*;
use vstd::string::*;
use crate::json::{Json, JsonValue, members_of, no_members, push_member, str_value, string_json, value_of};
use crate::error::GorError;
use crate::request::{done_outcome, removal_outcome, is_success};
use crate::cmd::flow::http_failure;
use crate::repository::{RepoSplit, repo_prefix, repo_path};

verus! {

/// Scope for a secret operation.
pub enum SecretScope {
    /// Repository-level secret.
    Repo(RepoSplit),
    /// Environment-level secret within a repository.
    Environment {
        /// The repository specification.
        spec: RepoSplit,
        /// The environment name.
        env: String,
    },
    /// Organization-level secret.
    Org(String),
}

/// The API path of the secrets collection of a scope.
pub open spec fn secrets_base(scope: SecretScope) -> Seq<char> {
    match scope {
        SecretScope::Repo(spec) => repo_prefix(spec.owner@, spec.repo@) + "/actions/secrets"@,
        SecretScope::Environment { spec, env } => repo_prefix(spec.owner@, spec.repo@) + "/environments/"@ + env@ + "/secrets"@,
        SecretScope::Org(org) => "/orgs/"@ + org@ + "/actions/secrets"@,
    }
}

impl SecretScope {
    fn base(&self) -> (r: String)
        ensures
            r@ == secrets_base(*self),
    {
        match self {
            SecretScope::Repo(spec) => {
                let mut p = repo_path(spec);
                p.append("/actions/secrets");
                p
            },
            SecretScope::Environment { spec, env } => {
                let mut p = repo_path(spec);
                p.append("/environments/");
                p.append(env.as_str());
                p.append("/secrets");
                p
            },
            SecretScope::Org(org) => {
                let mut p = "/orgs/".to_owned();
                p.append(org.as_str());
                p.append("/actions/secrets");
                p
            },
        }
    }

    /// The API path of the secret `name` in this scope.
    pub fn api_path(&self, name: &str) -> (r: String)
        ensures
            r@ == secrets_base(*self) + "/"@ + name@,
    {
        let mut p = self.base();
        p.append("/");
        p.append(name);
        p
    }

    /// The API path that lists this scope's secrets (up to 100 of them).
    pub fn api_list_path(&self) -> (r: String)
        ensures
            r@ == secrets_base(*self) + "?per_page=100"@,
    {
        let mut p = self.base();
        p.append("?per_page=100");
        p
    }
}

/// The body that sets a secret.
pub open spec fn set_body(value: Seq<char>) -> JsonValue {
    JsonValue::Object(seq![("encrypted_value"@, str_value(value))])
}

/// Builds [`set_body`].
pub fn set_request_body(value: &str) -> (r: Json)
    ensures
        value_of(r) == set_body(value@),
{
    let mut e = no_members();
    push_member(&mut e, "encrypted_value", string_json(value));
    assert(members_of(e@) =~= seq![("encrypted_value"@, str_value(value@))]);
    Json::Object(e)
}

/// Reads the reply to setting secret `name` (sent with `PUT`).
pub fn set_outcome(name: &str, status: u16, status_text: &str) -> (r: Result<(), GorError>)
    ensures
        is_success(status) ==> r is Ok,
        !is_success(status) ==> (r matches Err(GorError::InvalidInput(m))
            && m@ == http_failure("failed to set secret '"@ + name@ + "'"@, status_text@)),
{
    let mut w = "failed to set secret '".to_owned();
    w.append(name);
    w.append("'");
    done_outcome(w.as_str(), status, status_text)
}

/// Reads the reply to deleting secret `name`.
pub fn delete_outcome(name: &str, status: u16, status_text: &str) -> (r: Result<(), GorError>)
    ensures
        status == 404 ==> (r matches Err(GorError::NotFound(m)) && m@ == "secret"@ + " '"@ + name@ + "' not found"@),
        status != 404 && is_success(status) ==> r is Ok,
        status != 404 && !is_success(status) ==> (r matches Err(GorError::InvalidInput(m))
            && m@ == http_failure("failed to delete "@ + "secret"@ + " '"@ + name@ + "'"@, status_text@)),
{
    removal_outcome("secret", name, status, status_text)
}

} // verus!
