//! Repository specifications.
use vstd::prelude::*;
use vstd::string::*;
use crate::output::{split_chars, split_on};
use crate::text::{chars_of, find_first, find_in, str_eq, string_of, trim_str, trimmed};

verus! {

/// A repository named by its owner and its name.
#[derive(Debug)]
pub struct RepoSplit {
    /// The owning user or organization.
    pub owner: String,
    /// The repository name.
    pub repo: String,
}

impl RepoSplit {
    /// `OWNER/REPO`, as the repository is shown in messages.
    pub fn full_name(&self) -> (r: String)
        ensures
            r@ == self.owner@ + "/"@ + self.repo@,
    {
        let mut s = self.owner.clone();
        s.append("/");
        s.append(self.repo.as_str());
        s
    }
}

impl Clone for RepoSplit {
    fn clone(&self) -> (r: RepoSplit)
        ensures
            r.owner@ == self.owner@,
            r.repo@ == self.repo@,
    {
        RepoSplit { owner: self.owner.clone(), repo: self.repo.clone() }
    }
}

/// `/repos/OWNER/REPO`, the API path of a repository.
pub open spec fn repo_prefix(owner: Seq<char>, repo: Seq<char>) -> Seq<char> {
    "/repos/"@ + owner + "/"@ + repo
}

/// Builds `/repos/OWNER/REPO`.
pub fn repo_path(spec: &RepoSplit) -> (r: String)
    ensures
        r@ == repo_prefix(spec.owner@, spec.repo@),
{
    let mut p = "/repos/".to_owned();
    p.append(spec.owner.as_str());
    p.append("/");
    p.append(spec.repo.as_str());
    p
}

/// The repository that `OWNER/REPO` names: two non-empty parts around a
/// single `/`.
pub open spec fn parsed_repo(s: Seq<char>) -> Option<(Seq<char>, Seq<char>)> {
    let parts = split_on(s, '/');
    if parts.len() == 2 && parts[0].len() > 0 && parts[1].len() > 0 {
        Some((parts[0], parts[1]))
    } else {
        None
    }
}

/// Reads `OWNER/REPO`.
pub fn parse_repo_spec(s: &str) -> (r: Option<RepoSplit>)
    ensures
        match parsed_repo(s@) {
            Some((o, n)) => r matches Some(spec) && spec.owner@ == o && spec.repo@ == n,
            None => r is None,
        },
{
    let v = chars_of(s);
    let parts = split_chars(&v, '/');
    if parts.len() == 2 && parts[0].len() > 0 && parts[1].len() > 0 {
        Some(RepoSplit { owner: string_of(parts[0].as_slice()), repo: string_of(parts[1].as_slice()) })
    } else {
        None
    }
}

/// The repository a command works on: the one named on the command line,
/// else the one found in the working copy; the error says which is missing.
pub open spec fn target_repo(named: Option<String>, detected: Option<RepoSplit>, undetected: Seq<char>) -> Result<(Seq<char>, Seq<char>), Seq<char>> {
    match named {
        Some(s) => match parsed_repo(s@) {
            Some(p) => Ok(p),
            None => Err("invalid repository spec"@),
        },
        None => match detected {
            Some(d) => Ok((d.owner@, d.repo@)),
            None => Err(undetected),
        },
    }
}

/// Resolves [`target_repo`].
pub fn resolve_repo(named: &Option<String>, detected: &Option<RepoSplit>, undetected: &str) -> (r: Result<RepoSplit, String>)
    ensures
        match target_repo(*named, *detected, undetected@) {
            Ok((o, n)) => r matches Ok(spec) && spec.owner@ == o && spec.repo@ == n,
            Err(m) => r matches Err(e) && e@ == m,
        },
{
    match named {
        Some(s) => match parse_repo_spec(s.as_str()) {
            Some(p) => Ok(p),
            None => Err("invalid repository spec".to_owned()),
        },
        None => match detected {
            Some(d) => Ok(d.clone()),
            None => Err(undetected.to_owned()),
        },
    }
}

// ---------------------------------------------------------------------------
// The repository of the working copy
// ---------------------------------------------------------------------------

/// Whether `c` separates the pieces of a remote URL (`/` or `:`).
pub open spec fn is_url_sep(c: char) -> bool {
    c == '/' || c == ':'
}

/// The index of the last separator of `s`, if any.
pub open spec fn last_sep(s: Seq<char>) -> Option<int>
    decreases s.len(),
{
    if s.len() == 0 {
        None
    } else if is_url_sep(s.last()) {
        Some(s.len() - 1)
    } else {
        last_sep(s.drop_last())
    }
}

/// `s` without a trailing `.git`.
pub open spec fn without_git_suffix(s: Seq<char>) -> Seq<char> {
    if s.len() >= 4 && s.skip(s.len() - 4) == ".git"@ { s.take(s.len() - 4) } else { s }
}

/// The repository a remote URL names (`https://github.com/OWNER/REPO.git`,
/// `git@github.com:OWNER/REPO`): its last two pieces between `/` and `:`,
/// without a trailing `.git`, read as `OWNER/REPO`.
pub open spec fn remote_repo_of(url: Seq<char>) -> Option<(Seq<char>, Seq<char>)> {
    let u = without_git_suffix(url);
    match last_sep(u) {
        None => None,
        Some(i) => {
            let head = u.take(i);
            let owner = match last_sep(head) {
                Some(j) => head.skip(j + 1),
                None => head,
            };
            parsed_repo(owner + "/"@ + u.skip(i + 1))
        },
    }
}

proof fn lemma_last_sep_range(s: Seq<char>)
    ensures
        last_sep(s) matches Some(i) ==> 0 <= i < s.len() && is_url_sep(s[i]),
    decreases s.len(),
{
    if s.len() > 0 && !is_url_sep(s.last()) {
        lemma_last_sep_range(s.drop_last());
        assert(s.drop_last().len() < s.len());
    }
}

fn find_last_sep(v: &Vec<char>, end: usize) -> (r: Option<usize>)
    requires
        end <= v@.len(),
    ensures
        match r {
            Some(i) => last_sep(v@.take(end as int)) == Some(i as int) && i < end,
            None => last_sep(v@.take(end as int)) is None,
        },
{
    let mut i: usize = end;
    while i > 0
        invariant
            i <= end <= v@.len(),
            last_sep(v@.take(end as int)) == last_sep(v@.take(i as int)),
        decreases i,
    {
        let ghost t = v@.take(i as int);
        assert(t.last() == v@[i - 1]);
        assert(t.drop_last() == v@.take(i - 1));
        if v[i - 1] == '/' || v[i - 1] == ':' {
            return Some(i - 1);
        }
        i = i - 1;
    }
    None
}

/// Reads the repository a remote URL names (see [`remote_repo_of`]).
pub fn remote_repo(url: &str) -> (r: Option<RepoSplit>)
    ensures
        match remote_repo_of(url@) {
            Some((o, n)) => r matches Some(spec) && spec.owner@ == o && spec.repo@ == n,
            None => r is None,
        },
{
    let v = chars_of(url);
    let n = v.len();
    let ghost u = without_git_suffix(url@);
    let end: usize = if n >= 4 && v[n - 4] == '.' && v[n - 3] == 'g' && v[n - 2] == 'i' && v[n - 1] == 't' {
        proof { reveal_strlit(".git"); }
        assert(v@.skip(n - 4) =~= ".git"@);
        n - 4
    } else {
        proof { reveal_strlit(".git"); }
        if n >= 4 {
            assert(v@.skip(n - 4)[0] == v@[n - 4]);
            assert(v@.skip(n - 4)[1] == v@[n - 3]);
            assert(v@.skip(n - 4)[2] == v@[n - 2]);
            assert(v@.skip(n - 4)[3] == v@[n - 1]);
        }
        n
    };
    assert(u == v@.take(end as int));
    match find_last_sep(&v, end) {
        None => None,
        Some(i) => {
            proof { lemma_last_sep_range(u); }
            assert(v@.take(i as int) == u.take(i as int));
            let owner_start: usize = match find_last_sep(&v, i) {
                Some(j) => j + 1,
                None => 0,
            };
            let mut text: Vec<char> = Vec::new();
            let mut k: usize = owner_start;
            while k < i
                invariant
                    owner_start <= k <= i,
                    i < end <= v@.len(),
                    text@ == v@.subrange(owner_start as int, k as int),
                decreases i - k,
            {
                text.push(v[k]);
                k = k + 1;
            }
            text.push('/');
            let mut k: usize = i + 1;
            while k < end
                invariant
                    i + 1 <= k <= end,
                    end <= v@.len(),
                    text@ == v@.subrange(owner_start as int, i as int).push('/') + v@.subrange(i + 1, k as int),
                decreases end - k,
            {
                text.push(v[k]);
                k = k + 1;
                assert(v@.subrange(i + 1, k as int) == v@.subrange(i + 1, k - 1).push(v@[k - 1]));
            }
            let ghost head = u.take(i as int);
            proof {
                reveal_strlit("/");
                let owner = match last_sep(head) {
                    Some(j) => head.skip(j + 1),
                    None => head,
                };
                assert(owner == v@.subrange(owner_start as int, i as int));
                assert(u.skip(i + 1) == v@.subrange(i + 1, end as int));
                assert(text@ == owner + "/"@ + u.skip(i + 1));
            }
            let joined = string_of(text.as_slice());
            parse_repo_spec(joined.as_str())
        },
    }
}

/// The `url` of the `[remote "origin"]` section of a git configuration,
/// read line by line: `in_origin` while inside that section; the first
/// `url = VALUE` line there gives the value, both sides trimmed.
pub open spec fn origin_url_in(lines: Seq<Seq<char>>, in_origin: bool) -> Option<Seq<char>>
    decreases lines.len(),
{
    if lines.len() == 0 {
        None
    } else {
        let l = trimmed(lines[0]);
        if l.len() > 0 && l[0] == '[' {
            origin_url_in(lines.drop_first(), l == "[remote \"origin\"]"@)
        } else if in_origin && (find_first(l, "="@) matches Some(e) && trimmed(l.take(e)) == "url"@) {
            Some(trimmed(l.skip(find_first(l, "="@)->0 + 1)))
        } else {
            origin_url_in(lines.drop_first(), in_origin)
        }
    }
}

/// The URL of the `origin` remote in the text of a git configuration file.
pub open spec fn origin_url_of(text: Seq<char>) -> Option<Seq<char>> {
    origin_url_in(split_on(text, '\n'), false)
}

/// Reads the URL of the `origin` remote from the text of a git
/// configuration file (see [`origin_url_of`]).
pub fn origin_url(text: &str) -> (r: Option<String>)
    ensures
        match origin_url_of(text@) {
            Some(u) => r matches Some(x) && x@ == u,
            None => r is None,
        },
{
    let v = chars_of(text);
    let lines = split_chars(&v, '\n');
    let ghost all = split_on(text@, '\n');
    let eq: Vec<char> = vec!['='];
    proof {
        reveal_strlit("=");
        assert(eq@ =~= "="@);
    }
    let mut in_origin = false;
    let mut i: usize = 0;
    assert(all.skip(0) == all);
    while i < lines.len()
        invariant
            i <= lines@.len(),
            lines@.len() == all.len(),
            forall|k: int| 0 <= k < lines@.len() ==> #[trigger] lines@[k]@ == all[k],
            eq@ == "="@,
            origin_url_of(text@) == origin_url_in(all.skip(i as int), in_origin),
        decreases lines.len() - i,
    {
        let ghost rest = all.skip(i as int);
        assert(rest[0] == all[i as int]);
        assert(rest.drop_first() == all.skip(i + 1));
        let raw = string_of(lines[i].as_slice());
        let l = trim_str(raw.as_str());
        let lc = chars_of(l.as_str());
        if lc.len() > 0 && lc[0] == '[' {
            in_origin = str_eq(l.as_str(), "[remote \"origin\"]");
        } else if in_origin {
            match find_in(&lc, &eq) {
                Some(e) => {
                    proof { reveal_strlit("="); }
                    assert(eq@.len() == 1);
                    let key = trim_str(string_of(lc.as_slice().split_at(e).0).as_str());
                    assert(lc@.take(e as int) =~= lc@.subrange(0, e as int));
                    if str_eq(key.as_str(), "url") {
                        let value = trim_str(string_of(lc.as_slice().split_at(e + 1).1).as_str());
                        assert(lc@.skip(e + 1) =~= lc@.subrange(e + 1, lc@.len() as int));
                        return Some(value);
                    }
                },
                None => {},
            }
        }
        i = i + 1;
    }
    None
}

} // verus!
