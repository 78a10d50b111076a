//! `gor search`: repositories, code, issues and commits.
use vstd::prelude::*;
use vstd::string::*;
use vstd::utf8::*;
use crate::cmd::flow::{Event, Step, asks_fields, fails_with, get_step, http_failure, http_failure_message,
    json_output, lines_of, one_line, prints, push_line, sends, unexpected_event};
use crate::cmd::issue::date_or_dash;
use crate::cmd::keys::{dash, or_text};
use crate::cmd::util::{truncate, truncated};
use crate::json::{Json, JsonValue, member, str_member, take_member, u64_member, value_of, values_of};
use crate::output::{decimal, decimal_string, format_count, format_date, group_thousands, split_chars, split_on};
use crate::request::{Method, is_success};
use crate::table::{pad_right, push_padded_right};
use crate::text::{chars_of, join_strings, join_with, replace_all, replaced, string_of, utf8_len};

verus! {

broadcast use vstd::utf8::encode_utf8_decode_utf8, vstd::utf8::encode_utf8_valid_utf8;

/// Subcommands of `gor search`.
#[derive(Debug)]
pub enum SearchCommand {
    /// Search repositories.
    Repos {
        query: Vec<String>,
        language: Option<String>,
        topic: Option<String>,
        stars: Option<String>,
        sort: String,
        order: String,
        limit: u32,
        json: Option<Vec<String>>,
        web: bool,
        hostname: Option<String>,
    },
    /// Search code.
    Code {
        query: Vec<String>,
        language: Option<String>,
        repo: Option<String>,
        limit: u32,
        json: Option<Vec<String>>,
        web: bool,
        hostname: Option<String>,
    },
    /// Search issues and pull requests.
    Issues {
        query: Vec<String>,
        kind: Option<String>,
        state: Option<String>,
        labels: Option<String>,
        limit: u32,
        json: Option<Vec<String>>,
        web: bool,
        hostname: Option<String>,
    },
    /// Search commits.
    Commits {
        query: Vec<String>,
        author: Option<String>,
        repo: Option<String>,
        limit: u32,
        json: Option<Vec<String>>,
        web: bool,
        hostname: Option<String>,
    },
}

/// A search query as it goes into a URL: spaces as `+`, and `#`, `&`, `?`
/// percent-encoded (replaced in that order).
pub open spec fn query_encoded(s: Seq<char>) -> Seq<char> {
    replaced(replaced(replaced(replaced(s, " "@, "+"@), "#"@, "%23"@), "&"@, "%26"@), "?"@, "%3F"@)
}

/// Encodes [`query_encoded`].
pub fn urlencoding(s: &str) -> (r: String)
    ensures
        r@ == query_encoded(s@),
{
    proof {
        reveal_strlit(" ");
        reveal_strlit("#");
        reveal_strlit("&");
        reveal_strlit("?");
    }
    let a = replace_all(s, " ", "+");
    let b = replace_all(a.as_str(), "#", "%23");
    let c = replace_all(b.as_str(), "&", "%26");
    replace_all(c.as_str(), "?", "%3F")
}

/// One qualifier ` KEY:VALUE` when a value is given.
pub open spec fn qualifier(key: Seq<char>, value: Option<String>) -> Seq<char> {
    match value {
        Some(v) => " "@ + key + ":"@ + v@,
        None => Seq::empty(),
    }
}

fn push_qualifier(q: &mut String, key: &str, value: &Option<String>)
    ensures
        final(q)@ == old(q)@ + qualifier(key@, *value),
{
    if let Some(v) = value {
        q.append(" ");
        q.append(key);
        q.append(":");
        q.append(v.as_str());
        assert(q@ =~= old(q)@ + qualifier(key@, *value));
    } else {
        assert(q@ =~= old(q)@ + qualifier(key@, *value));
    }
}

/// The words of the query joined by spaces.
pub open spec fn query_text(words: Seq<String>) -> Seq<char> {
    join_with(words.map_values(|w: String| w@), " "@)
}

/// The search query sent: the words, then the qualifiers.
pub open spec fn full_query(cmd: SearchCommand) -> Seq<char> {
    match cmd {
        SearchCommand::Repos { query, language, stars, .. } =>
            query_text(query@) + qualifier("language"@, language) + qualifier("stars"@, stars),
        SearchCommand::Code { query, language, repo, .. } =>
            query_text(query@) + qualifier("language"@, language) + qualifier("repo"@, repo),
        SearchCommand::Issues { query, kind, state, labels, .. } =>
            query_text(query@) + qualifier("type"@, kind) + qualifier("state"@, state) + qualifier("label"@, labels),
        SearchCommand::Commits { query, author, repo, .. } =>
            query_text(query@) + qualifier("author"@, author) + qualifier("repo"@, repo),
    }
}

/// Whether `s` ends with `suffix`.
pub open spec fn ends_with(s: Seq<char>, suffix: Seq<char>) -> bool {
    suffix.len() <= s.len() && s.skip(s.len() - suffix.len()) == suffix
}

/// Whether `s` starts with `prefix`.
pub open spec fn begins_with(s: Seq<char>, prefix: Seq<char>) -> bool {
    prefix.len() <= s.len() && s.take(prefix.len() as int) == prefix
}

/// A commit search keeps both of its qualifiers: the query starts with the
/// words, then ` author:AUTHOR` when an author is given, and ends with
/// ` repo:REPO` when a repository is given.
pub proof fn law_commit_query_qualifiers(cmd: SearchCommand)
    requires
        cmd is Commits,
    ensures
        ({
            let q = full_query(cmd);
            match cmd {
                SearchCommand::Commits { query, author, repo, .. } => {
                    &&& (repo matches Some(r) ==> ends_with(q, " repo:"@ + r@))
                    &&& (author matches Some(a) ==> begins_with(q, query_text(query@) + " author:"@ + a@))
                    &&& (author is None && repo is None ==> q == query_text(query@))
                },
                _ => true,
            }
        }),
{
    reveal_strlit(" ");
    reveal_strlit(":");
    reveal_strlit("repo");
    reveal_strlit(" repo:");
    reveal_strlit("author");
    reveal_strlit(" author:");
    match cmd {
        SearchCommand::Commits { query, author, repo, .. } => {
            let q = full_query(cmd);
            let w = query_text(query@);
            if let Some(r) = repo {
                let s = " repo:"@ + r@;
                assert(q =~= (w + qualifier("author"@, author)) + s);
                assert(q.skip(q.len() - s.len()) =~= s);
            }
            if let Some(a) = author {
                let p = w + " author:"@ + a@;
                assert(q =~= p + qualifier("repo"@, repo));
                assert(q.take(p.len() as int) =~= p);
            }
            if author is None && repo is None {
                assert(q =~= w);
            }
        },
        _ => {},
    }
}

/// A repository or code search likewise keeps its qualifiers: a code
/// search given a repository ends with ` repo:REPO`, a repository search
/// given a star range ends with ` stars:RANGE`.
pub proof fn law_search_query_ends_with_last_qualifier(cmd: SearchCommand)
    ensures
        cmd matches SearchCommand::Code { repo: Some(r), .. } ==> ends_with(full_query(cmd), " repo:"@ + r@),
        cmd matches SearchCommand::Repos { stars: Some(st), .. } ==> ends_with(full_query(cmd), " stars:"@ + st@),
        cmd matches SearchCommand::Issues { labels: Some(l), .. } ==> ends_with(full_query(cmd), " label:"@ + l@),
{
    reveal_strlit(" ");
    reveal_strlit(":");
    reveal_strlit("repo");
    reveal_strlit(" repo:");
    reveal_strlit("stars");
    reveal_strlit(" stars:");
    reveal_strlit("label");
    reveal_strlit(" label:");
    let q = full_query(cmd);
    match cmd {
        SearchCommand::Code { query, language, repo: Some(r), .. } => {
            let s = " repo:"@ + r@;
            assert(q =~= (query_text(query@) + qualifier("language"@, language)) + s);
            assert(q.skip(q.len() - s.len()) =~= s);
        },
        SearchCommand::Repos { query, language, stars: Some(st), .. } => {
            let s = " stars:"@ + st@;
            assert(q =~= (query_text(query@) + qualifier("language"@, language)) + s);
            assert(q.skip(q.len() - s.len()) =~= s);
        },
        SearchCommand::Issues { query, kind, state, labels: Some(l), .. } => {
            let s = " label:"@ + l@;
            assert(q =~= (query_text(query@) + qualifier("type"@, kind) + qualifier("state"@, state)) + s);
            assert(q.skip(q.len() - s.len()) =~= s);
        },
        _ => {},
    }
}

/// The page size of a search.
pub open spec fn page(limit: u32) -> Seq<char> {
    decimal(if limit < 100 { limit as nat } else { 100 })
}

/// The path a search requests.
pub open spec fn search_path(cmd: SearchCommand) -> Seq<char> {
    let q = query_encoded(full_query(cmd));
    match cmd {
        SearchCommand::Repos { sort, order, limit, .. } =>
            "/search/repositories?q="@ + q + "&sort="@ + sort@ + "&order="@ + order@ + "&per_page="@ + page(limit),
        SearchCommand::Code { limit, .. } => "/search/code?q="@ + q + "&per_page="@ + page(limit),
        SearchCommand::Issues { limit, .. } => "/search/issues?q="@ + q + "&per_page="@ + page(limit),
        SearchCommand::Commits { limit, .. } => "/search/commits?q="@ + q + "&per_page="@ + page(limit),
    }
}

/// The web search page (`--web`): the words alone, on the host.
pub open spec fn web_search_url(cmd: SearchCommand) -> Seq<char> {
    let (words, hostname, kind) = match cmd {
        SearchCommand::Repos { query, hostname, .. } => (query, hostname, "repositories"@),
        SearchCommand::Code { query, hostname, .. } => (query, hostname, "code"@),
        SearchCommand::Issues { query, hostname, .. } => (query, hostname, "issues"@),
        SearchCommand::Commits { query, hostname, .. } => (query, hostname, "commits"@),
    };
    let host = match hostname {
        Some(h) => h@,
        None => "github.com"@,
    };
    "https://"@ + host + "/search?q="@ + query_encoded(query_text(words@)) + "&type="@ + kind
}

fn words_of(words: &Vec<String>) -> (r: String)
    ensures
        r@ == query_text(words@),
{
    join_strings(words, " ")
}

fn page_string(limit: u32) -> (r: String)
    ensures
        r@ == page(limit),
{
    let n: u32 = if limit < 100 { limit } else { 100 };
    decimal_string(n as u64)
}

/// Builds [`full_query`].
pub fn build_query(cmd: &SearchCommand) -> (r: String)
    ensures
        r@ == full_query(*cmd),
{
    match cmd {
        SearchCommand::Repos { query, language, stars, .. } => {
            let mut q = words_of(query);
            push_qualifier(&mut q, "language", language);
            push_qualifier(&mut q, "stars", stars);
            q
        },
        SearchCommand::Code { query, language, repo, .. } => {
            let mut q = words_of(query);
            push_qualifier(&mut q, "language", language);
            push_qualifier(&mut q, "repo", repo);
            q
        },
        SearchCommand::Issues { query, kind, state, labels, .. } => {
            let mut q = words_of(query);
            push_qualifier(&mut q, "type", kind);
            push_qualifier(&mut q, "state", state);
            push_qualifier(&mut q, "label", labels);
            q
        },
        SearchCommand::Commits { query, author, repo, .. } => {
            let mut q = words_of(query);
            push_qualifier(&mut q, "author", author);
            push_qualifier(&mut q, "repo", repo);
            q
        },
    }
}

/// Builds [`search_path`].
pub fn path_of(cmd: &SearchCommand) -> (r: String)
    ensures
        r@ == search_path(*cmd),
{
    let q = urlencoding(build_query(cmd).as_str());
    let (mut p, limit) = match cmd {
        SearchCommand::Repos { sort, order, limit, .. } => {
            let mut p = "/search/repositories?q=".to_owned();
            p.append(q.as_str());
            p.append("&sort=");
            p.append(sort.as_str());
            p.append("&order=");
            p.append(order.as_str());
            (p, *limit)
        },
        SearchCommand::Code { limit, .. } => {
            let mut p = "/search/code?q=".to_owned();
            p.append(q.as_str());
            (p, *limit)
        },
        SearchCommand::Issues { limit, .. } => {
            let mut p = "/search/issues?q=".to_owned();
            p.append(q.as_str());
            (p, *limit)
        },
        SearchCommand::Commits { limit, .. } => {
            let mut p = "/search/commits?q=".to_owned();
            p.append(q.as_str());
            (p, *limit)
        },
    };
    p.append("&per_page=");
    p.append(page_string(limit).as_str());
    p
}

/// Builds [`web_search_url`].
pub fn web_url(cmd: &SearchCommand) -> (r: String)
    ensures
        r@ == web_search_url(*cmd),
{
    let (words, hostname, kind) = match cmd {
        SearchCommand::Repos { query, hostname, .. } => (query, hostname, "repositories"),
        SearchCommand::Code { query, hostname, .. } => (query, hostname, "code"),
        SearchCommand::Issues { query, hostname, .. } => (query, hostname, "issues"),
        SearchCommand::Commits { query, hostname, .. } => (query, hostname, "commits"),
    };
    let host: &str = match hostname {
        Some(h) => h.as_str(),
        None => "github.com",
    };
    let mut u = "https://".to_owned();
    u.append(host);
    u.append("/search?q=");
    u.append(urlencoding(words_of(words).as_str()).as_str());
    u.append("&type=");
    u.append(kind);
    u
}

// ---------------------------------------------------------------------------
// Results
// ---------------------------------------------------------------------------

/// The header line of the repository results.
pub open spec fn repos_header() -> Seq<char> {
    pad_right("NAME"@, 40) + "  "@ + pad_right("DESCRIPTION"@, 50) + "  "@ + pad_right("STARS"@, 8) + "  "@
        + pad_right("LANGUAGE"@, 12) + "  "@ + pad_right("UPDATED"@, 16)
}

/// One repository result.
pub open spec fn repo_result_row(item: Json) -> Seq<char> {
    let stars = match u64_member(item, "stargazers_count"@) { Some(n) => n, None => 0 };
    pad_right(truncated(or_text(str_member(item, "full_name"@), dash()), 40), 40) + "  "@
        + pad_right(truncated(or_text(str_member(item, "description"@), dash()), 50), 50) + "  "@
        + pad_right(group_thousands(decimal(stars as nat)), 8) + "  "@
        + pad_right(or_text(str_member(item, "language"@), dash()), 12) + "  "@
        + pad_right(date_or_dash(str_member(item, "updated_at"@)), 16)
}

/// The two lines of a code result.
pub open spec fn code_lines(item: Json) -> Seq<Seq<char>> {
    seq![
        or_text(str_member(member(item, "repository"@), "full_name"@), dash()) + "/"@ + or_text(str_member(item, "path"@), dash()),
        "  "@ + or_text(str_member(item, "html_url"@), dash()),
    ]
}

/// The two lines of an issue result.
pub open spec fn issue_lines(item: Json) -> Seq<Seq<char>> {
    let n = match u64_member(item, "number"@) { Some(v) => v, None => 0 };
    seq![
        "#"@ + decimal(n as nat) + " ["@ + or_text(str_member(item, "state"@), dash()) + "] "@
            + or_text(str_member(item, "title"@), dash()),
        "  "@ + or_text(str_member(item, "html_url"@), dash()),
    ]
}

/// The first seven bytes of a commit's SHA, as text (all of it when
/// shorter).
pub open spec fn short_sha(sha: Seq<char>) -> Seq<char> {
    if utf8_len(sha) <= 7 { sha } else { decode_utf8(encode_utf8(sha).subrange(0, 7)) }
}

/// Whether the first seven bytes of `sha` end at a character boundary
/// (cutting it elsewhere is not possible).
pub open spec fn sha_cuttable(sha: Seq<char>) -> bool {
    utf8_len(sha) <= 7 || is_char_boundary(encode_utf8(sha), 7)
}

/// The first line of a commit message (`str::lines`: up to the first line
/// feed, without a carriage return before it); the dash for an empty one.
pub open spec fn first_line(m: Seq<char>) -> Seq<char> {
    if m.len() == 0 {
        dash()
    } else {
        let l = split_on(m, '\n')[0];
        if l.len() > 0 && l.last() == '\r' && split_on(m, '\n').len() > 1 { l.drop_last() } else { l }
    }
}

/// The SHA of a commit result (the dash when it has none).
pub open spec fn sha_of(item: Json) -> Seq<char> {
    or_text(str_member(item, "sha"@), dash())
}

/// The two lines of a commit result.
pub open spec fn commit_lines(item: Json) -> Seq<Seq<char>> {
    seq![
        short_sha(sha_of(item)) + " "@ + first_line(or_text(str_member(member(item, "commit"@), "message"@), dash())),
        "  "@ + or_text(str_member(member(item, "author"@), "login"@), dash()) + " \u{2014} "@
            + or_text(str_member(item, "html_url"@), dash()),
    ]
}

/// The lines of a list of two-line results, one after another.
pub open spec fn paired_lines(items: Seq<Json>, f: spec_fn(Json) -> Seq<Seq<char>>) -> Seq<Seq<char>>
    decreases items.len(),
{
    if items.len() == 0 { Seq::empty() } else { paired_lines(items.drop_last(), f) + f(items.last()) }
}

/// What a search prints of its results (which must not be empty).
pub open spec fn result_lines(cmd: SearchCommand, items: Seq<Json>) -> Seq<Seq<char>> {
    match cmd {
        SearchCommand::Repos { .. } => seq![repos_header()] + items.map_values(|i: Json| repo_result_row(i)),
        SearchCommand::Code { .. } => paired_lines(items, |i: Json| code_lines(i)),
        SearchCommand::Issues { .. } => paired_lines(items, |i: Json| issue_lines(i)),
        SearchCommand::Commits { .. } => paired_lines(items, |i: Json| commit_lines(i)),
    }
}

/// The line printed when a search finds nothing.
pub open spec fn none_found(cmd: SearchCommand) -> Seq<char> {
    match cmd {
        SearchCommand::Repos { .. } => "No repositories found."@,
        SearchCommand::Code { .. } => "No code results found."@,
        SearchCommand::Issues { .. } => "No issues found."@,
        SearchCommand::Commits { .. } => "No commits found."@,
    }
}

/// Whether every SHA among commit results can be cut (what printing them
/// needs).
pub open spec fn printable(cmd: SearchCommand, items: Seq<Json>) -> bool {
    cmd is Commits ==> forall|i: int| 0 <= i < items.len() ==> sha_cuttable(#[trigger] sha_of(items[i]))
}

fn text_or<'a>(t: Option<&'a str>, d: &'a str) -> (r: &'a str)
    ensures
        r@ == or_text(match t { Some(x) => Some(x@), None => None }, d@),
{
    match t {
        Some(x) => x,
        None => d,
    }
}

fn nested_text<'a>(j: &'a Json, outer: &str, inner: &str) -> (r: &'a str)
    ensures
        r@ == or_text(str_member(member(*j, outer@), inner@), dash()),
{
    match j.get(outer) {
        Some(o) => text_or(o.str_member(inner), "\u{2014}"),
        None => {
            assert(str_member(Json::Null, inner@) is None);
            "\u{2014}"
        },
    }
}

fn repo_result_line(item: &Json) -> (r: String)
    ensures
        r@ == repo_result_row(*item),
{
    let stars = match item.u64_member("stargazers_count") { Some(n) => n, None => 0 };
    let updated = match item.str_member("updated_at") {
        Some(d) => format_date(d),
        None => "\u{2014}".to_owned(),
    };
    let mut line = String::new();
    push_padded_right(&mut line, truncate(text_or(item.str_member("full_name"), "\u{2014}"), 40).as_str(), 40);
    line.append("  ");
    push_padded_right(&mut line, truncate(text_or(item.str_member("description"), "\u{2014}"), 50).as_str(), 50);
    line.append("  ");
    push_padded_right(&mut line, format_count(stars).as_str(), 8);
    line.append("  ");
    push_padded_right(&mut line, text_or(item.str_member("language"), "\u{2014}"), 12);
    line.append("  ");
    push_padded_right(&mut line, updated.as_str(), 16);
    line
}

fn two_lines(a: String, b: String) -> (r: Vec<String>)
    ensures
        lines_of(r@) == seq![a@, b@],
{
    let mut v = one_line(a);
    push_line(&mut v, b);
    assert(lines_of(v@) =~= seq![a@, b@]);
    v
}

fn code_result_lines(item: &Json) -> (r: Vec<String>)
    ensures
        lines_of(r@) == code_lines(*item),
{
    let mut a = nested_text(item, "repository", "full_name").to_owned();
    a.append("/");
    a.append(text_or(item.str_member("path"), "\u{2014}"));
    let mut b = "  ".to_owned();
    b.append(text_or(item.str_member("html_url"), "\u{2014}"));
    two_lines(a, b)
}

fn issue_result_lines(item: &Json) -> (r: Vec<String>)
    ensures
        lines_of(r@) == issue_lines(*item),
{
    let n = match item.u64_member("number") { Some(v) => v, None => 0 };
    let mut a = "#".to_owned();
    a.append(decimal_string(n).as_str());
    a.append(" [");
    a.append(text_or(item.str_member("state"), "\u{2014}"));
    a.append("] ");
    a.append(text_or(item.str_member("title"), "\u{2014}"));
    let mut b = "  ".to_owned();
    b.append(text_or(item.str_member("html_url"), "\u{2014}"));
    two_lines(a, b)
}

fn first_line_of(m: &str) -> (r: String)
    ensures
        r@ == first_line(m@),
{
    let v = chars_of(m);
    if v.len() == 0 {
        return "\u{2014}".to_owned();
    }
    let parts = split_chars(&v, '\n');
    proof { lemma_split_nonempty(m@, '\n'); }
    let l = &parts[0];
    if l.len() > 0 && l[l.len() - 1] == '\r' && parts.len() > 1 {
        let mut w: Vec<char> = Vec::new();
        let mut i: usize = 0;
        while i + 1 < l.len()
            invariant
                i + 1 <= l@.len(),
                w@ == l@.take(i as int),
            decreases l.len() - i,
        {
            w.push(l[i]);
            i = i + 1;
            assert(l@.take(i as int) == l@.take(i - 1).push(l@[i - 1]));
        }
        assert(w@ == l@.drop_last());
        string_of(w.as_slice())
    } else {
        string_of(l.as_slice())
    }
}

proof fn lemma_split_nonempty(s: Seq<char>, sep: char)
    ensures
        split_on(s, sep).len() >= 1,
    decreases s.len(),
{
    if s.len() > 0 {
        lemma_split_nonempty(s.drop_last(), sep);
    }
}

fn short_sha_of(sha: &str) -> (r: String)
    requires
        sha_cuttable(sha@),
    ensures
        r@ == short_sha(sha@),
{
    if crate::cmd::util::byte_len_capped(sha, 8) <= 7 {
        sha.to_owned()
    } else {
        let (head, _tail) = sha.split_at(7);
        assert(head@ == decode_utf8(encode_utf8(head@)));
        head.to_owned()
    }
}

fn commit_result_lines(item: &Json) -> (r: Vec<String>)
    requires
        sha_cuttable(sha_of(*item)),
    ensures
        lines_of(r@) == commit_lines(*item),
{
    let sha = text_or(item.str_member("sha"), "\u{2014}");
    let mut a = short_sha_of(sha);
    a.append(" ");
    a.append(first_line_of(nested_text(item, "commit", "message")).as_str());
    let mut b = "  ".to_owned();
    b.append(nested_text(item, "author", "login"));
    b.append(" \u{2014} ");
    b.append(text_or(item.str_member("html_url"), "\u{2014}"));
    two_lines(a, b)
}

fn push_all_lines(lines: &mut Vec<String>, more: Vec<String>)
    ensures
        lines_of(final(lines)@) == lines_of(old(lines)@) + lines_of(more@),
{
    let mut i: usize = 0;
    while i < more.len()
        invariant
            i <= more@.len(),
            lines_of(lines@) == lines_of(old(lines)@) + lines_of(more@.take(i as int)),
        decreases more.len() - i,
    {
        push_line(lines, more[i].clone());
        assert(lines_of(more@.take(i + 1)) =~= lines_of(more@.take(i as int)).push(more@[i as int]@));
        i = i + 1;
    }
    assert(more@.take(more@.len() as int) == more@);
}

/// The lines of non-empty results.
pub fn results_lines(cmd: &SearchCommand, items: &Vec<Json>) -> (r: Vec<String>)
    requires
        printable(*cmd, items@),
    ensures
        lines_of(r@) == result_lines(*cmd, items@),
{
    let mut lines: Vec<String> = Vec::new();
    let ghost start: Seq<Seq<char>>;
    match cmd {
        SearchCommand::Repos { .. } => {
            let mut header = String::new();
            push_padded_right(&mut header, "NAME", 40);
            header.append("  ");
            push_padded_right(&mut header, "DESCRIPTION", 50);
            header.append("  ");
            push_padded_right(&mut header, "STARS", 8);
            header.append("  ");
            push_padded_right(&mut header, "LANGUAGE", 12);
            header.append("  ");
            push_padded_right(&mut header, "UPDATED", 16);
            lines = one_line(header);
            let mut i: usize = 0;
            while i < items.len()
                invariant
                    i <= items@.len(),
                    lines_of(lines@) == seq![repos_header()] + items@.take(i as int).map_values(|x: Json| repo_result_row(x)),
                decreases items@.len() - i,
            {
                push_line(&mut lines, repo_result_line(&items[i]));
                assert(items@.take(i + 1).map_values(|x: Json| repo_result_row(x))
                    =~= items@.take(i as int).map_values(|x: Json| repo_result_row(x)).push(repo_result_row(items@[i as int])));
                i = i + 1;
            }
            assert(items@.take(items@.len() as int) == items@);
        },
        _ => {
            assert(lines_of(lines@) =~= Seq::<Seq<char>>::empty());
            let mut i: usize = 0;
            while i < items.len()
                invariant
                    i <= items@.len(),
                    !(*cmd is Repos),
                    printable(*cmd, items@),
                    lines_of(lines@) == result_lines(*cmd, items@.take(i as int)),
                decreases items@.len() - i,
            {
                let more = match cmd {
                    SearchCommand::Code { .. } => code_result_lines(&items[i]),
                    SearchCommand::Issues { .. } => issue_result_lines(&items[i]),
                    _ => commit_result_lines(&items[i]),
                };
                push_all_lines(&mut lines, more);
                assert(items@.take(i + 1).drop_last() == items@.take(i as int));
                assert(items@.take(i + 1).last() == items@[i as int]);
                i = i + 1;
            }
            assert(items@.take(items@.len() as int) == items@);
        },
    }
    lines
}

/// Whether results can be printed: [`printable`], tested.
pub fn can_print(cmd: &SearchCommand, items: &Vec<Json>) -> (b: bool)
    ensures
        b == printable(*cmd, items@),
{
    match cmd {
        SearchCommand::Commits { .. } => {
            let mut i: usize = 0;
            while i < items.len()
                invariant
                    i <= items@.len(),
                    *cmd is Commits,
                    forall|k: int| 0 <= k < i ==> sha_cuttable(#[trigger] sha_of(items@[k])),
                decreases items.len() - i,
            {
                let sha = text_or(items[i].str_member("sha"), "\u{2014}");
                if crate::cmd::util::byte_len_capped(sha, 8) > 7 && !sha.is_char_boundary(7) {
                    assert(sha@ == sha_of(items@[i as int]));
                    assert(!sha_cuttable(sha_of(items@[i as int])));
                    return false;
                }
                i = i + 1;
            }
            true
        },
        _ => true,
    }
}

/// What a search does on each event: open the web page or send its
/// request; then print its results (or the JSON, or the "none found"
/// line), or fail. `None` when commit results cannot be printed.
pub open spec fn search_step(cmd: SearchCommand, event: Event, step: Option<Step>) -> bool {
    let (web, json) = match cmd {
        SearchCommand::Repos { web, json, .. } => (web, json),
        SearchCommand::Code { web, json, .. } => (web, json),
        SearchCommand::Issues { web, json, .. } => (web, json),
        SearchCommand::Commits { web, json, .. } => (web, json),
    };
    match event {
        Event::Start => step matches Some(s) && if web {
            s matches Step::Open(u) && u@ == web_search_url(cmd)
        } else {
            sends(s, Method::Get, search_path(cmd))
        },
        Event::Reply(resp) => if !is_success(resp.status) {
            step matches Some(s) && fails_with(s, http_failure("search failed"@, resp.status_text@))
        } else {
            match resp.body {
                None => step matches Some(s) && fails_with(s, "failed to parse search response"@),
                Some(b) => {
                    let items = match member(b, "items"@) {
                        Json::Array(v) => v@,
                        _ => Seq::empty(),
                    };
                    if json is Some {
                        step matches Some(s) && s matches Step::PrintJson(j) && (if asks_fields(json) {
                            j matches Json::Object(out) && out@.len() == 0
                        } else {
                            value_of(j) == JsonValue::Array(values_of(items))
                        })
                    } else if items.len() == 0 {
                        step matches Some(s) && prints(s, seq![none_found(cmd)])
                    } else if printable(cmd, items) {
                        step matches Some(s) && prints(s, result_lines(cmd, items))
                    } else {
                        step is None
                    }
                },
            }
        },
        Event::FileText(_) => step matches Some(s) && fails_with(s, unexpected_event()),
    }
}

/// Run the `gor search` subcommand: one step, given the event.
pub fn run(cmd: &SearchCommand, event: Event) -> (r: Option<Step>)
    ensures
        search_step(*cmd, event, r),
{
    let (web, json) = match cmd {
        SearchCommand::Repos { web, json, .. } => (*web, json),
        SearchCommand::Code { web, json, .. } => (*web, json),
        SearchCommand::Issues { web, json, .. } => (*web, json),
        SearchCommand::Commits { web, json, .. } => (*web, json),
    };
    match event {
        Event::Start => if web { Some(Step::Open(web_url(cmd))) } else { Some(get_step(path_of(cmd))) },
        Event::Reply(resp) => {
            if !(200 <= resp.status && resp.status <= 299) {
                return Some(Step::Fail(http_failure_message("search failed", resp.status_text.as_str())));
            }
            match resp.body {
                None => Some(Step::Fail("failed to parse search response".to_owned())),
                Some(b) => {
                    let items = match take_member(b, "items") {
                        Json::Array(v) => v,
                        _ => Vec::new(),
                    };
                    if json.is_some() {
                        Some(Step::PrintJson(json_output(Json::Array(items), json)))
                    } else if items.len() == 0 {
                        let none: &str = match cmd {
                            SearchCommand::Repos { .. } => "No repositories found.",
                            SearchCommand::Code { .. } => "No code results found.",
                            SearchCommand::Issues { .. } => "No issues found.",
                            SearchCommand::Commits { .. } => "No commits found.",
                        };
                        Some(Step::Print(one_line(none.to_owned())))
                    } else if can_print(cmd, &items) {
                        Some(Step::Print(results_lines(cmd, &items)))
                    } else {
                        None
                    }
                },
            }
        },
        Event::FileText(_) => Some(Step::Fail("unexpected event".to_owned())),
    }
}

} // verus!
