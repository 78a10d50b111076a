//! `gor browse`: the web page of a repository or of something in it.
use vstd::prelude::*;
use vstd::string::*;
use crate::output::{decimal, decimal_string};
use crate::repository::RepoSplit;

verus! {

/// What to open.
#[derive(Debug)]
pub struct BrowseTarget {
    pub issue: Option<u64>,
    pub pr: Option<u64>,
    pub branch: Option<String>,
    pub commit: Option<String>,
    pub projects: bool,
    pub wiki: bool,
    pub settings: bool,
}

/// The page of a repository on `host`.
pub open spec fn repo_url(host: Seq<char>, owner: Seq<char>, repo: Seq<char>) -> Seq<char> {
    "https://"@ + host + "/"@ + owner + "/"@ + repo
}

/// The page opened: the issue, else the pull request, the branch, the
/// commit, the projects, the wiki, the settings, else the repository.
pub open spec fn browse_url_of(host: Seq<char>, owner: Seq<char>, repo: Seq<char>, t: BrowseTarget) -> Seq<char> {
    let base = repo_url(host, owner, repo);
    match t.issue {
        Some(i) => base + "/issues/"@ + decimal(i as nat),
        None => match t.pr {
            Some(p) => base + "/pull/"@ + decimal(p as nat),
            None => match t.branch {
                Some(b) => base + "/tree/"@ + b@,
                None => match t.commit {
                    Some(c) => base + "/commit/"@ + c@,
                    None => if t.projects {
                        base + "/projects"@
                    } else if t.wiki {
                        base + "/wiki"@
                    } else if t.settings {
                        base + "/settings"@
                    } else {
                        base
                    },
                },
            },
        },
    }
}

/// Builds [`browse_url_of`].
pub fn browse_url(host: &str, spec: &RepoSplit, t: &BrowseTarget) -> (r: String)
    ensures
        r@ == browse_url_of(host@, spec.owner@, spec.repo@, *t),
{
    let mut u = "https://".to_owned();
    u.append(host);
    u.append("/");
    u.append(spec.owner.as_str());
    u.append("/");
    u.append(spec.repo.as_str());
    match t.issue {
        Some(i) => {
            u.append("/issues/");
            u.append(decimal_string(i).as_str());
        },
        None => match t.pr {
            Some(p) => {
                u.append("/pull/");
                u.append(decimal_string(p).as_str());
            },
            None => match &t.branch {
                Some(b) => {
                    u.append("/tree/");
                    u.append(b.as_str());
                },
                None => match &t.commit {
                    Some(c) => {
                        u.append("/commit/");
                        u.append(c.as_str());
                    },
                    None => if t.projects {
                        u.append("/projects");
                    } else if t.wiki {
                        u.append("/wiki");
                    } else if t.settings {
                        u.append("/settings");
                    },
                },
            },
        },
    }
    u
}

/// What `gor browse` prints after opening `url`.
pub fn opening_message(url: &str) -> (r: String)
    ensures
        r@ == "Opening "@ + url@,
{
    let mut m = "Opening ".to_owned();
    m.append(url);
    m
}

} // verus!
