//! `gor search` in its qualifier form: the query with `+key:value`
//! qualifiers, the web page of a search, and the tables of what was found.
use vstd::prelude::*;
use vstd::string::*;
use crate::cmd::flow::{lines_of, one_line, push_line};
use crate::cmd::keys::{dash, or_text};
use crate::cmd::util::{truncate, truncated};
use crate::cmd::workflow::or_zero;
use crate::json::{Json, member, str_member, u64_member};
use crate::output::{decimal, decimal_string, format_date, formatted_date, split_chars, split_on};
use crate::table::{pad_right, push_padded_right};
use crate::text::{chars_of, replace_all, replaced, string_of};

verus! {

/// `q`, with `+KEY:VALUE` when a value is given.
pub open spec fn qualified(q: Seq<char>, key: Seq<char>, value: Option<String>) -> Seq<char> {
    match value {
        Some(v) => q + "+"@ + key + ":"@ + v@,
        None => q,
    }
}

/// Adds a qualifier to a query (see [`qualified`]).
pub fn add_qualifier(q: &mut String, key: &str, value: &Option<String>)
    ensures
        final(q)@ == qualified(old(q)@, key@, *value),
{
    match value {
        Some(v) => {
            q.append("+");
            q.append(key);
            q.append(":");
            q.append(v.as_str());
        },
        None => {},
    }
}

/// The line that points at the web page of a search: `base` followed by
/// the query, with each `+` written `%20`.
pub open spec fn web_line(base: Seq<char>, q: Seq<char>) -> Seq<char> {
    "Open "@ + base + replaced(q, "+"@, "%20"@) + " in your browser"@
}

/// Builds [`web_line`].
pub fn web_message(base: &str, q: &str) -> (r: String)
    ensures
        r@ == web_line(base@, q@),
{
    proof { reveal_strlit("+"); }
    let mut m = "Open ".to_owned();
    m.append(base);
    m.append(replace_all(q, "+", "%20").as_str());
    m.append(" in your browser");
    m
}

fn text_or<'a>(t: Option<&'a str>, d: &'a str) -> (r: &'a str)
    ensures
        r@ == or_text(match t { Some(x) => Some(x@), None => None }, d@),
{
    match t {
        Some(x) => x,
        None => d,
    }
}

fn nested<'a>(j: &'a Json, outer: &str, key: &str) -> (r: Option<&'a str>)
    ensures
        match r {
            Some(s) => str_member(member(*j, outer@), key@) == Some(s@),
            None => str_member(member(*j, outer@), key@) is None,
        },
{
    match j.get(outer) {
        Some(o) => o.str_member(key),
        None => {
            assert(str_member(Json::Null, key@) is None);
            None
        },
    }
}

/// One row of the repository results.
pub open spec fn repo_row(r: Json) -> Seq<char> {
    pad_right(or_text(str_member(r, "full_name"@), dash()), 40) + "  "@
        + pad_right(decimal(or_zero(u64_member(r, "stargazers_count"@)) as nat), 10) + "  "@
        + pad_right(formatted_date(or_text(str_member(r, "updated_at"@), Seq::empty())), 10) + "  "@
        + truncated(or_text(str_member(r, "description"@), dash()), 50)
}

/// The repository results.
pub open spec fn repo_results(rs: Seq<Json>) -> Seq<Seq<char>> {
    if rs.len() == 0 {
        seq!["No repositories found."@]
    } else {
        seq![pad_right("NAME"@, 40) + "  "@ + pad_right("STARS"@, 10) + "  "@ + pad_right("UPDATED"@, 10)
            + "  DESCRIPTION"@] + rs.map_values(|r: Json| repo_row(r))
    }
}

/// The lines of the repository results.
pub fn repo_result_lines(rs: &Vec<Json>) -> (r: Vec<String>)
    ensures
        lines_of(r@) == repo_results(rs@),
{
    if rs.len() == 0 {
        return one_line("No repositories found.".to_owned());
    }
    let mut header = String::new();
    push_padded_right(&mut header, "NAME", 40);
    header.append("  ");
    push_padded_right(&mut header, "STARS", 10);
    header.append("  ");
    push_padded_right(&mut header, "UPDATED", 10);
    header.append("  DESCRIPTION");
    let mut lines = one_line(header);
    proof { reveal_strlit(""); }
    let mut i: usize = 0;
    while i < rs.len()
        invariant
            i <= rs@.len(),
            rs@.len() > 0,
            lines_of(lines@) == seq![pad_right("NAME"@, 40) + "  "@ + pad_right("STARS"@, 10) + "  "@
                + pad_right("UPDATED"@, 10) + "  DESCRIPTION"@] + rs@.take(i as int).map_values(|x: Json| repo_row(x)),
        decreases rs@.len() - i,
    {
        proof { reveal_strlit(""); }
        let r = &rs[i];
        let stars = match r.u64_member("stargazers_count") {
            Some(n) => n,
            None => 0,
        };
        let mut line = String::new();
        push_padded_right(&mut line, text_or(r.str_member("full_name"), "\u{2014}"), 40);
        line.append("  ");
        push_padded_right(&mut line, decimal_string(stars).as_str(), 10);
        line.append("  ");
        push_padded_right(&mut line, format_date(text_or(r.str_member("updated_at"), "")).as_str(), 10);
        line.append("  ");
        line.append(truncate(text_or(r.str_member("description"), "\u{2014}"), 50).as_str());
        push_line(&mut lines, line);
        assert(rs@.take(i + 1).map_values(|x: Json| repo_row(x))
            =~= rs@.take(i as int).map_values(|x: Json| repo_row(x)).push(repo_row(rs@[i as int])));
        i = i + 1;
    }
    assert(rs@.take(rs@.len() as int) == rs@);
    lines
}

/// One line of the code results: the repository and the path.
pub open spec fn code_line(item: Json) -> Seq<char> {
    or_text(str_member(member(item, "repository"@), "full_name"@), dash()) + " "@
        + or_text(str_member(item, "path"@), dash())
}

/// The lines of the code results.
pub fn code_result_lines(items: &Vec<Json>) -> (r: Vec<String>)
    ensures
        lines_of(r@) == items@.map_values(|x: Json| code_line(x)),
{
    let mut lines: Vec<String> = Vec::new();
    let mut i: usize = 0;
    while i < items.len()
        invariant
            i <= items@.len(),
            lines_of(lines@) == items@.take(i as int).map_values(|x: Json| code_line(x)),
        decreases items@.len() - i,
    {
        let mut line = text_or(nested(&items[i], "repository", "full_name"), "\u{2014}").to_owned();
        line.append(" ");
        line.append(text_or(items[i].str_member("path"), "\u{2014}"));
        push_line(&mut lines, line);
        assert(items@.take(i + 1).map_values(|x: Json| code_line(x))
            =~= items@.take(i as int).map_values(|x: Json| code_line(x)).push(code_line(items@[i as int])));
        i = i + 1;
    }
    assert(items@.take(items@.len() as int) == items@);
    lines
}

/// The piece before the last `/` of a URL (`rsplit('/').nth(1)`): the
/// owner in a repository's API URL.
pub open spec fn owner_piece(url: Seq<char>) -> Option<Seq<char>> {
    let parts = split_on(url, '/');
    if parts.len() >= 2 { Some(parts[parts.len() - 2]) } else { None }
}

fn owner_piece_of(url: &str) -> (r: Option<String>)
    ensures
        match r {
            Some(s) => owner_piece(url@) == Some(s@),
            None => owner_piece(url@) is None,
        },
{
    let v = chars_of(url);
    let parts = split_chars(&v, '/');
    if parts.len() >= 2 {
        Some(string_of(parts[parts.len() - 2].as_slice()))
    } else {
        None
    }
}

/// One row of the issue results.
pub open spec fn issue_row(i: Json) -> Seq<char> {
    let repo = match str_member(i, "repository_url"@) {
        Some(u) => match owner_piece(u) {
            Some(o) => o,
            None => dash(),
        },
        None => dash(),
    };
    repo + "/#"@ + pad_right(decimal(or_zero(u64_member(i, "number"@)) as nat), 8) + "  "@
        + pad_right(or_text(str_member(i, "state"@), dash()), 15) + "  "@
        + truncated(or_text(str_member(i, "title"@), dash()), 50)
}

/// The issue results.
pub open spec fn issue_results(items: Seq<Json>) -> Seq<Seq<char>> {
    if items.len() == 0 {
        seq!["No issues found."@]
    } else {
        seq![pad_right("ISSUE"@, 40) + "  "@ + pad_right("STATE"@, 15) + "  TITLE"@]
            + items.map_values(|i: Json| issue_row(i))
    }
}

/// The lines of the issue results.
pub fn issue_result_lines(items: &Vec<Json>) -> (r: Vec<String>)
    ensures
        lines_of(r@) == issue_results(items@),
{
    if items.len() == 0 {
        return one_line("No issues found.".to_owned());
    }
    let mut header = String::new();
    push_padded_right(&mut header, "ISSUE", 40);
    header.append("  ");
    push_padded_right(&mut header, "STATE", 15);
    header.append("  TITLE");
    let mut lines = one_line(header);
    let mut i: usize = 0;
    while i < items.len()
        invariant
            i <= items@.len(),
            items@.len() > 0,
            lines_of(lines@) == seq![pad_right("ISSUE"@, 40) + "  "@ + pad_right("STATE"@, 15) + "  TITLE"@]
                + items@.take(i as int).map_values(|x: Json| issue_row(x)),
        decreases items@.len() - i,
    {
        let it = &items[i];
        let repo: String = match it.str_member("repository_url") {
            Some(u) => match owner_piece_of(u) {
                Some(o) => o,
                None => "\u{2014}".to_owned(),
            },
            None => "\u{2014}".to_owned(),
        };
        let num = match it.u64_member("number") {
            Some(n) => n,
            None => 0,
        };
        let mut line = repo;
        line.append("/#");
        push_padded_right(&mut line, decimal_string(num).as_str(), 8);
        line.append("  ");
        push_padded_right(&mut line, text_or(it.str_member("state"), "\u{2014}"), 15);
        line.append("  ");
        line.append(truncate(text_or(it.str_member("title"), "\u{2014}"), 50).as_str());
        push_line(&mut lines, line);
        assert(items@.take(i + 1).map_values(|x: Json| issue_row(x))
            =~= items@.take(i as int).map_values(|x: Json| issue_row(x)).push(issue_row(items@[i as int])));
        i = i + 1;
    }
    assert(items@.take(items@.len() as int) == items@);
    lines
}

/// The first seven characters of a text.
pub open spec fn first_seven(s: Seq<char>) -> Seq<char> {
    if s.len() <= 7 { s } else { s.take(7) }
}

fn first_seven_of(s: &str) -> (r: String)
    ensures
        r@ == first_seven(s@),
{
    let v = chars_of(s);
    if v.len() <= 7 {
        s.to_owned()
    } else {
        let mut w: Vec<char> = Vec::new();
        let mut i: usize = 0;
        while i < 7
            invariant
                i <= 7,
                v@.len() > 7,
                v@ == s@,
                w@ == v@.take(i as int),
            decreases 7 - i,
        {
            w.push(v[i]);
            assert(v@.take(i + 1) =~= v@.take(i as int).push(v@[i as int]));
            i = i + 1;
        }
        string_of(w.as_slice())
    }
}

/// One line of the commit results.
pub open spec fn commit_line(c: Json) -> Seq<char> {
    let commit = member(c, "commit"@);
    let author = member(commit, "author"@);
    first_seven(or_text(str_member(c, "sha"@), dash())) + " "@
        + pad_right(or_text(str_member(author, "name"@), dash()), 20) + " "@
        + pad_right(formatted_date(or_text(str_member(author, "date"@), Seq::empty())), 10) + " "@
        + truncated(or_text(str_member(commit, "message"@), dash()), 80)
}

/// The lines of the commit results.
pub fn commit_result_lines(items: &Vec<Json>) -> (r: Vec<String>)
    ensures
        lines_of(r@) == items@.map_values(|x: Json| commit_line(x)),
{
    proof { reveal_strlit(""); }
    let mut lines: Vec<String> = Vec::new();
    let mut i: usize = 0;
    while i < items.len()
        invariant
            i <= items@.len(),
            lines_of(lines@) == items@.take(i as int).map_values(|x: Json| commit_line(x)),
        decreases items@.len() - i,
    {
        proof { reveal_strlit(""); }
        let c = &items[i];
        let empty = Json::Null;
        let commit: &Json = match c.get("commit") {
            Some(x) => x,
            None => &empty,
        };
        let author: &Json = match commit.get("author") {
            Some(x) => x,
            None => &empty,
        };
        let mut line = first_seven_of(text_or(c.str_member("sha"), "\u{2014}"));
        line.append(" ");
        push_padded_right(&mut line, text_or(author.str_member("name"), "\u{2014}"), 20);
        line.append(" ");
        push_padded_right(&mut line, format_date(text_or(author.str_member("date"), "")).as_str(), 10);
        line.append(" ");
        line.append(truncate(text_or(commit.str_member("message"), "\u{2014}"), 80).as_str());
        assert(member(Json::Null, "author"@) == Json::Null);
        assert(str_member(Json::Null, "name"@) is None);
        assert(str_member(Json::Null, "date"@) is None);
        assert(str_member(Json::Null, "message"@) is None);
        assert(line@ == commit_line(items@[i as int]));
        push_line(&mut lines, line);
        assert(items@.take(i + 1).map_values(|x: Json| commit_line(x))
            =~= items@.take(i as int).map_values(|x: Json| commit_line(x)).push(commit_line(items@[i as int])));
        i = i + 1;
    }
    assert(items@.take(items@.len() as int) == items@);
    lines
}

} // verus!
