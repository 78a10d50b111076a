//! `gor secret` and `gor variable` with environment scopes: where a
//! command works, what it lists, and what it reports.
use vstd::prelude::*;
use vstd::string::*;
use crate::cmd::flow::{lines_of, one_line, push_line};
use crate::cmd::keys::{dash, or_text};
use crate::cmd::store::{Store, collection, noun, title_noun};
use crate::cmd::util::{truncate, truncated};
use crate::json::{Json, str_member};
use crate::repository::RepoSplit;
use crate::secret::SecretScope;
use crate::table::{pad_right, push_padded_right};
use crate::text::{trim_str, trimmed};
use crate::variable::VariableScope;

verus! {

/// Said when an environment is named but no repository is known.
pub open spec fn no_env_repo() -> Seq<char> {
    "could not detect repository; specify --repo or run from a repo directory"@
}

/// Said when neither an organization nor a repository is known.
pub open spec fn no_repo() -> Seq<char> {
    "could not detect repository; specify --org or run from a repo directory"@
}

/// Where a secret command works: the organization when named, else the
/// environment of the detected repository when named, else that
/// repository.
pub open spec fn secret_scope_of(org: Option<String>, env: Option<String>, detected: Option<RepoSplit>,
    r: Result<SecretScope, String>) -> bool
{
    match org {
        Some(o) => r matches Ok(SecretScope::Org(x)) && x@ == o@,
        None => match detected {
            None => r matches Err(m) && m@ == (if env is Some { no_env_repo() } else { no_repo() }),
            Some(d) => match env {
                Some(e) => r matches Ok(SecretScope::Environment { spec, env: x })
                    && spec.owner@ == d.owner@ && spec.repo@ == d.repo@ && x@ == e@,
                None => r matches Ok(SecretScope::Repo(spec)) && spec.owner@ == d.owner@ && spec.repo@ == d.repo@,
            },
        },
    }
}

/// Decides [`secret_scope_of`].
pub fn resolve_secret_scope(org: &Option<String>, env: &Option<String>, detected: &Option<RepoSplit>)
    -> (r: Result<SecretScope, String>)
    ensures
        secret_scope_of(*org, *env, *detected, r),
{
    if let Some(o) = org {
        return Ok(SecretScope::Org(o.clone()));
    }
    match detected {
        None => if env.is_some() {
            Err("could not detect repository; specify --repo or run from a repo directory".to_owned())
        } else {
            Err("could not detect repository; specify --org or run from a repo directory".to_owned())
        },
        Some(d) => match env {
            Some(e) => Ok(SecretScope::Environment { spec: d.clone(), env: e.clone() }),
            None => Ok(SecretScope::Repo(d.clone())),
        },
    }
}

/// Where a variable command works (as for secrets).
pub open spec fn variable_scope_of(org: Option<String>, env: Option<String>, detected: Option<RepoSplit>,
    r: Result<VariableScope, String>) -> bool
{
    match org {
        Some(o) => r matches Ok(VariableScope::Org(x)) && x@ == o@,
        None => match detected {
            None => r matches Err(m) && m@ == (if env is Some { no_env_repo() } else { no_repo() }),
            Some(d) => match env {
                Some(e) => r matches Ok(VariableScope::Environment { spec, env: x })
                    && spec.owner@ == d.owner@ && spec.repo@ == d.repo@ && x@ == e@,
                None => r matches Ok(VariableScope::Repo(spec)) && spec.owner@ == d.owner@ && spec.repo@ == d.repo@,
            },
        },
    }
}

/// Decides [`variable_scope_of`].
pub fn resolve_variable_scope(org: &Option<String>, env: &Option<String>, detected: &Option<RepoSplit>)
    -> (r: Result<VariableScope, String>)
    ensures
        variable_scope_of(*org, *env, *detected, r),
{
    if let Some(o) = org {
        return Ok(VariableScope::Org(o.clone()));
    }
    match detected {
        None => if env.is_some() {
            Err("could not detect repository; specify --repo or run from a repo directory".to_owned())
        } else {
            Err("could not detect repository; specify --org or run from a repo directory".to_owned())
        },
        Some(d) => match env {
            Some(e) => Ok(VariableScope::Environment { spec: d.clone(), env: e.clone() }),
            None => Ok(VariableScope::Repo(d.clone())),
        },
    }
}

/// The header of a listing.
pub open spec fn scoped_header(s: Store) -> Seq<char> {
    match s {
        Store::Secrets => pad_right("NAME"@, 30) + "  UPDATED"@,
        Store::Variables => pad_right("NAME"@, 30) + "  "@ + pad_right("VALUE"@, 40) + "  UPDATED"@,
    }
}

/// One row of a listing.
pub open spec fn scoped_row(s: Store, item: Json) -> Seq<char> {
    let name = pad_right(truncated(or_text(str_member(item, "name"@), dash()), 30), 30);
    let updated = or_text(str_member(item, "updated_at"@), dash());
    match s {
        Store::Secrets => name + "  "@ + updated,
        Store::Variables => name + "  "@ + pad_right(truncated(or_text(str_member(item, "value"@), dash()), 40), 40)
            + "  "@ + updated,
    }
}

/// What a listing prints.
pub open spec fn scoped_table(s: Store, items: Seq<Json>) -> Seq<Seq<char>> {
    if items.len() == 0 {
        seq!["No "@ + collection(s) + " found."@]
    } else {
        seq![scoped_header(s)] + items.map_values(|i: Json| scoped_row(s, i))
    }
}

fn text_or<'a>(t: Option<&'a str>, d: &'a str) -> (r: &'a str)
    ensures
        r@ == or_text(match t { Some(x) => Some(x@), None => None }, d@),
{
    match t {
        Some(x) => x,
        None => d,
    }
}

fn collection_text(s: Store) -> (r: &'static str)
    ensures
        r@ == collection(s),
{
    match s {
        Store::Secrets => "secrets",
        Store::Variables => "variables",
    }
}

fn noun_text(s: Store) -> (r: &'static str)
    ensures
        r@ == noun(s),
{
    match s {
        Store::Secrets => "secret",
        Store::Variables => "variable",
    }
}

fn title_text(s: Store) -> (r: &'static str)
    ensures
        r@ == title_noun(s),
{
    match s {
        Store::Secrets => "Secret",
        Store::Variables => "Variable",
    }
}

fn scoped_row_line(s: Store, item: &Json) -> (r: String)
    ensures
        r@ == scoped_row(s, *item),
{
    let mut line = String::new();
    push_padded_right(&mut line, truncate(text_or(item.str_member("name"), "\u{2014}"), 30).as_str(), 30);
    line.append("  ");
    match s {
        Store::Secrets => {},
        Store::Variables => {
            push_padded_right(&mut line, truncate(text_or(item.str_member("value"), "\u{2014}"), 40).as_str(), 40);
            line.append("  ");
        },
    }
    line.append(text_or(item.str_member("updated_at"), "\u{2014}"));
    line
}

/// The lines of a listing.
pub fn scoped_table_lines(s: Store, items: &Vec<Json>) -> (r: Vec<String>)
    ensures
        lines_of(r@) == scoped_table(s, items@),
{
    if items.len() == 0 {
        let mut m = "No ".to_owned();
        m.append(collection_text(s));
        m.append(" found.");
        return one_line(m);
    }
    let mut header = String::new();
    push_padded_right(&mut header, "NAME", 30);
    match s {
        Store::Secrets => header.append("  UPDATED"),
        Store::Variables => {
            header.append("  ");
            push_padded_right(&mut header, "VALUE", 40);
            header.append("  UPDATED");
        },
    }
    let mut lines = one_line(header);
    let mut i: usize = 0;
    while i < items.len()
        invariant
            i <= items@.len(),
            items@.len() > 0,
            lines_of(lines@) == seq![scoped_header(s)] + items@.take(i as int).map_values(|x: Json| scoped_row(s, x)),
        decreases items@.len() - i,
    {
        push_line(&mut lines, scoped_row_line(s, &items[i]));
        assert(items@.take(i + 1).map_values(|x: Json| scoped_row(s, x))
            =~= items@.take(i as int).map_values(|x: Json| scoped_row(s, x)).push(scoped_row(s, items@[i as int])));
        i = i + 1;
    }
    assert(items@.take(items@.len() as int) == items@);
    lines
}

/// Where the value to set comes from.
#[derive(Debug)]
pub enum ValueFrom {
    /// Given on the command line.
    Given(String),
    /// Read from this file, then trimmed.
    File(String),
}

/// Chooses where the value comes from: `--body`, else `--file`; one of
/// them must be given.
pub fn value_from(s: Store, body: &Option<String>, file: &Option<String>) -> (r: Result<ValueFrom, String>)
    ensures
        match body {
            Some(b) => r matches Ok(ValueFrom::Given(x)) && x@ == b@,
            None => match file {
                Some(f) => r matches Ok(ValueFrom::File(x)) && x@ == f@,
                None => r matches Err(m) && m@ == "no "@ + noun(s) + " value provided (use --body or --file)"@,
            },
        },
{
    match body {
        Some(b) => Ok(ValueFrom::Given(b.clone())),
        None => match file {
            Some(f) => Ok(ValueFrom::File(f.clone())),
            None => {
                let mut m = "no ".to_owned();
                m.append(noun_text(s));
                m.append(" value provided (use --body or --file)");
                Err(m)
            },
        },
    }
}

/// The value a file holds: its text, trimmed.
pub fn file_value(text: &str) -> (r: String)
    ensures
        r@ == trimmed(text@),
{
    trim_str(text)
}

/// What a command reports when done: `Secret 'NAME' set.` and the like.
pub fn done_message(s: Store, name: &str, deleted: bool) -> (r: String)
    ensures
        r@ == title_noun(s) + " '"@ + name@ + (if deleted { "' deleted."@ } else { "' set."@ }),
{
    let mut m = title_text(s).to_owned();
    m.append(" '");
    m.append(name);
    if deleted {
        m.append("' deleted.");
    } else {
        m.append("' set.");
    }
    m
}

} // verus!
