//! `gor issue`: listing, viewing, creating, editing, closing, reopening,
//! commenting on and transferring issues.
//!
//! Each operation is split where it talks to the API: the functions here
//! build its requests and read its replies; the program sends them.
use vstd::prelude::*;
use vstd::string::*;
use crate::cmd::flow::{Event, Step, asks_fields, get_step, sends, unexpected_event, array_items, message_or, reply_message, take_items, http_failure_message, fails_with, http_failure, json_output, lines_of, one_line, prints, push_line};
use crate::cmd::keys::{dash, or_text};
use crate::cmd::util::{truncate, truncated};
use crate::json::{
    Json, JsonValue, collect_nested_texts, member_texts, no_members, optional_member, push_member, members_of,
    str_value, str_array_value, string_array_json, string_json, member, nested_texts, str_member, texts_of, u64_member,
    value_of, values_of,
};
use crate::output::{decimal, decimal_string, format_date, formatted_date};
use crate::text::{push_char, utf8_len};
use crate::repository::{RepoSplit, repo_path, repo_prefix};
use crate::request::{ApiRequest, ApiResponse, Method, RequestBody, is_success};
use crate::table::{pad_left, pad_right, push_padded_left, push_padded_right};
use crate::text::{
    contains_text, eq_ascii_ci, eq_ignore_ascii_case, join_strings, join_with, lowercased, str_contains,
    str_eq, to_lowercase,
};

verus! {

// ---------------------------------------------------------------------------
// Editing a list of names
// ---------------------------------------------------------------------------

/// `current` with each name of `add` appended that it does not hold yet
/// (names added earlier count).
pub open spec fn with_added(current: Seq<Seq<char>>, add: Seq<Seq<char>>) -> Seq<Seq<char>>
    decreases add.len(),
{
    if add.len() == 0 {
        current
    } else {
        let prev = with_added(current, add.drop_last());
        if prev.contains(add.last()) { prev } else { prev.push(add.last()) }
    }
}

/// `names` without any name of `remove`, in order.
pub open spec fn without(names: Seq<Seq<char>>, remove: Seq<Seq<char>>) -> Seq<Seq<char>>
    decreases names.len(),
{
    if names.len() == 0 {
        names
    } else {
        let prev = without(names.drop_last(), remove);
        if remove.contains(names.last()) { prev } else { prev.push(names.last()) }
    }
}

/// The names an edit leaves: `current` plus `add`, less every name of
/// `remove`.
pub open spec fn edited_names(current: Seq<Seq<char>>, add: Seq<Seq<char>>, remove: Seq<Seq<char>>) -> Seq<Seq<char>> {
    without(with_added(current, add), remove)
}

proof fn lemma_push_contains(s: Seq<Seq<char>>, x: Seq<char>, n: Seq<char>)
    ensures
        s.push(x).contains(n) <==> (s.contains(n) || n == x),
{
    if s.push(x).contains(n) {
        let i = choose|i: int| 0 <= i < s.push(x).len() && s.push(x)[i] == n;
        if i < s.len() {
            assert(s[i] == n);
        }
    }
    if s.contains(n) {
        let i = choose|i: int| 0 <= i < s.len() && s[i] == n;
        assert(s.push(x)[i] == n);
    }
    assert(s.push(x)[s.len() as int] == x);
}

proof fn lemma_push_no_dup(s: Seq<Seq<char>>, x: Seq<char>)
    requires
        s.no_duplicates(),
        !s.contains(x),
    ensures
        s.push(x).no_duplicates(),
{
    assert forall|i: int, j: int| 0 <= i < j < s.push(x).len() implies s.push(x)[i] != s.push(x)[j] by {
        if j == s.len() {
            assert(s[i] == s.push(x)[i]);
        }
    }
}

proof fn lemma_without(names: Seq<Seq<char>>, remove: Seq<Seq<char>>)
    ensures
        forall|n: Seq<char>| #[trigger] without(names, remove).contains(n) <==> (names.contains(n) && !remove.contains(n)),
        names.no_duplicates() ==> without(names, remove).no_duplicates(),
    decreases names.len(),
{
    if names.len() > 0 {
        let init = names.drop_last();
        lemma_without(init, remove);
        assert(names == init.push(names.last()));
        assert forall|n: Seq<char>| #[trigger] without(names, remove).contains(n) <==> (names.contains(n) && !remove.contains(n)) by {
            lemma_push_contains(init, names.last(), n);
            lemma_push_contains(without(init, remove), names.last(), n);
        }
        if names.no_duplicates() {
            assert(init.no_duplicates());
            if !remove.contains(names.last()) {
                assert(!init.contains(names.last())) by {
                    if init.contains(names.last()) {
                        let i = choose|i: int| 0 <= i < init.len() && init[i] == names.last();
                        assert(names[i] == names[names.len() - 1]);
                    }
                }
                lemma_push_no_dup(without(init, remove), names.last());
            }
        }
    }
}

proof fn lemma_with_added(current: Seq<Seq<char>>, add: Seq<Seq<char>>)
    ensures
        forall|n: Seq<char>| #[trigger] with_added(current, add).contains(n) <==> (current.contains(n) || add.contains(n)),
        current.no_duplicates() ==> with_added(current, add).no_duplicates(),
    decreases add.len(),
{
    if add.len() > 0 {
        let init = add.drop_last();
        lemma_with_added(current, init);
        let prev = with_added(current, init);
        assert(add == init.push(add.last()));
        assert forall|n: Seq<char>| #[trigger] with_added(current, add).contains(n) <==> (current.contains(n) || add.contains(n)) by {
            lemma_push_contains(init, add.last(), n);
            lemma_push_contains(prev, add.last(), n);
        }
        if current.no_duplicates() && !prev.contains(add.last()) {
            lemma_push_no_dup(prev, add.last());
        }
    }
}

/// The merged list holds every added name that is not removed, no removed
/// name, and nothing but current or added names; a list without repeats
/// stays without repeats.
pub proof fn law_edit_names(current: Seq<Seq<char>>, add: Seq<Seq<char>>, remove: Seq<Seq<char>>)
    ensures
        forall|n: Seq<char>| add.contains(n) && !remove.contains(n) ==> #[trigger] edited_names(current, add, remove).contains(n),
        forall|n: Seq<char>| current.contains(n) && !remove.contains(n) ==> #[trigger] edited_names(current, add, remove).contains(n),
        forall|n: Seq<char>| remove.contains(n) ==> !#[trigger] edited_names(current, add, remove).contains(n),
        forall|n: Seq<char>| #[trigger] edited_names(current, add, remove).contains(n) ==> current.contains(n) || add.contains(n),
        current.no_duplicates() ==> edited_names(current, add, remove).no_duplicates(),
{
    lemma_with_added(current, add);
    lemma_without(with_added(current, add), remove);
}

fn vec_contains(v: &Vec<String>, s: &str) -> (b: bool)
    ensures
        b == v@.map_values(|x: String| x@).contains(s@),
{
    let ghost views = v@.map_values(|x: String| x@);
    let mut i: usize = 0;
    while i < v.len()
        invariant
            i <= v@.len(),
            views == v@.map_values(|x: String| x@),
            forall|k: int| 0 <= k < i ==> views[k] != s@,
        decreases v.len() - i,
    {
        if str_eq(v[i].as_str(), s) {
            assert(views[i as int] == s@);
            return true;
        }
        i = i + 1;
    }
    false
}

/// The names of `current` after adding `add` and removing `remove`.
pub fn edit_names(current: Vec<String>, add: &Vec<String>, remove: &Vec<String>) -> (r: Vec<String>)
    ensures
        r@.map_values(|x: String| x@) == edited_names(
            current@.map_values(|x: String| x@),
            add@.map_values(|x: String| x@),
            remove@.map_values(|x: String| x@),
        ),
{
    let ghost cur = current@.map_values(|x: String| x@);
    let ghost adds = add@.map_values(|x: String| x@);
    let ghost rems = remove@.map_values(|x: String| x@);
    let mut names = current;
    let mut i: usize = 0;
    while i < add.len()
        invariant
            i <= add@.len(),
            adds == add@.map_values(|x: String| x@),
            names@.map_values(|x: String| x@) == with_added(cur, adds.take(i as int)),
        decreases add.len() - i,
    {
        assert(adds.take(i + 1).drop_last() == adds.take(i as int));
        assert(adds.take(i + 1).last() == add@[i as int]@);
        if !vec_contains(&names, add[i].as_str()) {
            names.push(add[i].clone());
            assert(names@.map_values(|x: String| x@) =~= with_added(cur, adds.take(i as int)).push(add@[i as int]@));
        }
        i = i + 1;
    }
    assert(adds.take(add@.len() as int) == adds);
    let ghost w = names@.map_values(|x: String| x@);
    let mut out: Vec<String> = Vec::new();
    let mut j: usize = 0;
    while j < names.len()
        invariant
            j <= names@.len(),
            w == names@.map_values(|x: String| x@),
            rems == remove@.map_values(|x: String| x@),
            out@.map_values(|x: String| x@) == without(w.take(j as int), rems),
        decreases names.len() - j,
    {
        assert(w.take(j + 1).drop_last() == w.take(j as int));
        assert(w.take(j + 1).last() == w[j as int]);
        if !vec_contains(remove, names[j].as_str()) {
            out.push(names[j].clone());
            assert(out@.map_values(|x: String| x@) =~= out@.drop_last().map_values(|x: String| x@).push(w[j as int]));
        }
        j = j + 1;
    }
    assert(w.take(names@.len() as int) == w);
    out
}

// ---------------------------------------------------------------------------
// gor issue list
// ---------------------------------------------------------------------------

/// What `gor issue list` filters by.
#[derive(Debug)]
pub struct IssueFilters {
    /// `open`, `closed` or `all`.
    pub state: String,
    /// Labels every listed issue carries.
    pub labels: Vec<String>,
    /// A login among the assignees.
    pub assignee: Option<String>,
    /// The login of the author.
    pub author: Option<String>,
    /// A text the body mentions (compared in lower case).
    pub mention: Option<String>,
    /// The milestone's title.
    pub milestone: Option<String>,
    /// The number of issues asked for (at most 100 per page).
    pub limit: u32,
}

/// The query parameter `name=value` when a value is given.
pub open spec fn opt_param(name: Seq<char>, value: Option<String>) -> Seq<Seq<char>> {
    match value {
        Some(v) => seq![name + "="@ + v@],
        None => Seq::empty(),
    }
}

/// The page size asked for: the limit, at most 100.
pub open spec fn per_page(limit: u32) -> nat {
    if limit < 100 { limit as nat } else { 100 }
}

/// The query parameters of the issue listing, in order.
pub open spec fn list_params(f: IssueFilters) -> Seq<Seq<char>> {
    seq!["state="@ + f.state@, "per_page="@ + decimal(per_page(f.limit))]
        + (if f.labels@.len() > 0 { seq!["labels="@ + join_with(texts_of(f.labels@), ","@)] } else { Seq::empty() })
        + opt_param("assignee"@, f.assignee)
        + opt_param("creator"@, f.author)
        + opt_param("mentioned"@, f.mention)
        + opt_param("milestone"@, f.milestone)
}

/// The path that lists the issues of `OWNER/REPO`.
pub open spec fn list_path_of(owner: Seq<char>, repo: Seq<char>, f: IssueFilters) -> Seq<char> {
    repo_prefix(owner, repo) + "/issues?"@ + join_with(list_params(f), "&"@)
}

fn push_opt_param(params: &mut Vec<String>, name: &str, value: &Option<String>)
    ensures
        texts_of(final(params)@) == texts_of(old(params)@) + opt_param(name@, *value),
{
    match value {
        Some(v) => {
            let mut p = name.to_owned();
            p.append("=");
            p.append(v.as_str());
            params.push(p);
            assert(texts_of(params@) =~= texts_of(old(params)@) + opt_param(name@, *value));
        },
        None => {
            assert(texts_of(params@) =~= texts_of(old(params)@) + opt_param(name@, *value));
        },
    }
}

/// Builds the path that lists the issues of `spec`.
pub fn list_path(spec: &RepoSplit, f: &IssueFilters) -> (r: String)
    ensures
        r@ == list_path_of(spec.owner@, spec.repo@, *f),
{
    let mut params: Vec<String> = Vec::new();
    let mut st = "state=".to_owned();
    st.append(f.state.as_str());
    params.push(st);
    let n: u32 = if f.limit < 100 { f.limit } else { 100 };
    let mut pp = "per_page=".to_owned();
    pp.append(decimal_string(n as u64).as_str());
    params.push(pp);
    assert(texts_of(params@) =~= seq!["state="@ + f.state@, "per_page="@ + decimal(per_page(f.limit))]);
    if f.labels.len() > 0 {
        let mut l = "labels=".to_owned();
        l.append(join_strings(&f.labels, ",").as_str());
        params.push(l);
        assert(f.labels@.map_values(|p: String| p@) == texts_of(f.labels@));
    }
    assert(texts_of(params@) =~= seq!["state="@ + f.state@, "per_page="@ + decimal(per_page(f.limit))]
        + (if f.labels@.len() > 0 { seq!["labels="@ + join_with(texts_of(f.labels@), ","@)] } else { Seq::empty() }));
    push_opt_param(&mut params, "assignee", &f.assignee);
    push_opt_param(&mut params, "creator", &f.author);
    push_opt_param(&mut params, "mentioned", &f.mention);
    push_opt_param(&mut params, "milestone", &f.milestone);
    assert(texts_of(params@) =~= list_params(*f));
    let mut path = repo_path(spec);
    path.append("/issues?");
    let q = join_strings(&params, "&");
    assert(params@.map_values(|p: String| p@) == texts_of(params@));
    path.append(q.as_str());
    path
}

/// Whether some name of `names` equals `n`, ASCII case ignored.
pub open spec fn has_name_ci(names: Seq<Seq<char>>, n: Seq<char>) -> bool {
    exists|j: int| 0 <= j < names.len() && #[trigger] eq_ignore_ascii_case(names[j], n)
}

/// Whether `issue` passes every filter that `f` sets.
pub open spec fn keeps_issue(issue: Json, f: IssueFilters) -> bool {
    &&& (f.author matches Some(a) ==> (str_member(member(issue, "user"@), "login"@) matches Some(l)
            && eq_ignore_ascii_case(l, a@)))
    &&& (f.labels@.len() > 0 ==> forall|i: int| 0 <= i < f.labels@.len()
            ==> #[trigger] has_name_ci(nested_texts(issue, "labels"@, "name"@), f.labels@[i]@))
    &&& (f.assignee matches Some(a) ==> has_name_ci(nested_texts(issue, "assignees"@, "login"@), a@))
    &&& (f.mention matches Some(m) ==> contains_text(lowercased(or_text(str_member(issue, "body"@), Seq::empty())), lowercased(m@)))
    &&& (f.milestone matches Some(m) ==> (str_member(member(issue, "milestone"@), "title"@) matches Some(t)
            && eq_ignore_ascii_case(t, m@)))
}

/// Whether some element of the issue's `assignees` array has a string
/// `login` equal to `a`, ASCII case ignored.
pub open spec fn assigned_to(issue: Json, a: Seq<char>) -> bool {
    match member(issue, "assignees"@) {
        Json::Array(items) => exists|k: int| 0 <= k < items@.len()
            && (#[trigger] str_member(items@[k], "login"@) matches Some(l) && eq_ignore_ascii_case(l, a)),
        _ => false,
    }
}

proof fn lemma_some_login(items: Seq<Json>, a: Seq<char>)
    ensures
        has_name_ci(member_texts(items, "login"@), a) <==> exists|k: int| 0 <= k < items.len()
            && (#[trigger] str_member(items[k], "login"@) matches Some(l) && eq_ignore_ascii_case(l, a)),
    decreases items.len(),
{
    if items.len() > 0 {
        let p = items.drop_last();
        lemma_some_login(p, a);
        let prev = member_texts(p, "login"@);
        let cur = member_texts(items, "login"@);
        if has_name_ci(cur, a) {
            let j = choose|j: int| 0 <= j < cur.len() && #[trigger] eq_ignore_ascii_case(cur[j], a);
            if j < prev.len() {
                assert(cur[j] == prev[j]);
                assert(has_name_ci(prev, a));
                let k = choose|k: int| 0 <= k < p.len()
                    && (#[trigger] str_member(p[k], "login"@) matches Some(l) && eq_ignore_ascii_case(l, a));
                assert(p[k] == items[k]);
            } else {
                assert(str_member(items[items.len() - 1], "login"@) matches Some(l) && eq_ignore_ascii_case(l, a));
            }
        }
        if exists|k: int| 0 <= k < items.len()
            && (#[trigger] str_member(items[k], "login"@) matches Some(l) && eq_ignore_ascii_case(l, a)) {
            let k = choose|k: int| 0 <= k < items.len()
                && (#[trigger] str_member(items[k], "login"@) matches Some(l) && eq_ignore_ascii_case(l, a));
            if k < items.len() - 1 {
                assert(p[k] == items[k]);
                assert(str_member(p[k], "login"@) matches Some(l) && eq_ignore_ascii_case(l, a));
                let j = choose|j: int| 0 <= j < prev.len() && #[trigger] eq_ignore_ascii_case(prev[j], a);
                if str_member(items.last(), "login"@) is Some {
                    assert(cur[j] == prev[j]);
                } else {
                    assert(cur == prev);
                }
                assert(eq_ignore_ascii_case(cur[j], a));
            } else {
                let l = str_member(items.last(), "login"@)->0;
                assert(cur[cur.len() - 1] == l);
                assert(eq_ignore_ascii_case(cur[cur.len() - 1], a));
            }
        }
    }
}

/// With an assignee filter, an issue is listed exactly when it passes the
/// other filters and some element of its assignees has that login, ASCII
/// case ignored (any element, not only the first).
pub proof fn law_assignee_filter(issue: Json, f: IssueFilters, a: String)
    requires
        f.assignee == Some(a),
    ensures
        keeps_issue(issue, f) <==> keeps_issue(issue, IssueFilters { assignee: None, ..f }) && assigned_to(issue, a@),
{
    match member(issue, "assignees"@) {
        Json::Array(items) => lemma_some_login(items@, a@),
        _ => {},
    }
}

/// The issues that pass the filters, in order.
pub open spec fn kept_issues(issues: Seq<Json>, f: IssueFilters) -> Seq<Json>
    decreases issues.len(),
{
    if issues.len() == 0 {
        issues
    } else {
        let prev = kept_issues(issues.drop_last(), f);
        if keeps_issue(issues.last(), f) { prev.push(issues.last()) } else { prev }
    }
}

fn any_name_ci(names: &Vec<String>, n: &str) -> (b: bool)
    ensures
        b == has_name_ci(texts_of(names@), n@),
{
    let mut i: usize = 0;
    while i < names.len()
        invariant
            i <= names@.len(),
            forall|k: int| 0 <= k < i ==> !eq_ignore_ascii_case(texts_of(names@)[k], n@),
        decreases names.len() - i,
    {
        if eq_ascii_ci(names[i].as_str(), n) {
            assert(eq_ignore_ascii_case(texts_of(names@)[i as int], n@));
            return true;
        }
        i = i + 1;
    }
    false
}

fn member_login_is(issue: &Json, outer: &str, inner: &str, want: &str) -> (b: bool)
    ensures
        b == (str_member(member(*issue, outer@), inner@) matches Some(l) && eq_ignore_ascii_case(l, want@)),
{
    match issue.get(outer) {
        Some(u) => match u.str_member(inner) {
            Some(l) => eq_ascii_ci(l, want),
            None => false,
        },
        None => {
            assert(str_member(Json::Null, inner@) is None);
            false
        },
    }
}

/// Tests [`keeps_issue`].
pub fn keep_issue(issue: &Json, f: &IssueFilters) -> (b: bool)
    ensures
        b == keeps_issue(*issue, *f),
{
    if let Some(a) = &f.author {
        if !member_login_is(issue, "user", "login", a.as_str()) {
            return false;
        }
    }
    if f.labels.len() > 0 {
        let names = collect_nested_texts(issue, "labels", "name");
        let mut i: usize = 0;
        while i < f.labels.len()
            invariant
                i <= f.labels@.len(),
                texts_of(names@) == nested_texts(*issue, "labels"@, "name"@),
                forall|k: int| 0 <= k < i ==> #[trigger] has_name_ci(nested_texts(*issue, "labels"@, "name"@), f.labels@[k]@),
            decreases f.labels.len() - i,
        {
            if !any_name_ci(&names, f.labels[i].as_str()) {
                return false;
            }
            i = i + 1;
        }
    }
    if let Some(a) = &f.assignee {
        let logins = collect_nested_texts(issue, "assignees", "login");
        if !any_name_ci(&logins, a.as_str()) {
            return false;
        }
    }
    if let Some(m) = &f.mention {
        let body = match issue.str_member("body") {
            Some(b) => b,
            None => "",
        };
        proof { reveal_strlit(""); }
        assert(body@ == or_text(str_member(*issue, "body"@), Seq::empty()));
        let lb = to_lowercase(body);
        let lm = to_lowercase(m.as_str());
        let found = str_contains(lb.as_str(), lm.as_str());
        assert(found == contains_text(lowercased(or_text(str_member(*issue, "body"@), Seq::empty())), lowercased(m@)));
        if !found {
            return false;
        }
    }
    if let Some(m) = &f.milestone {
        if !member_login_is(issue, "milestone", "title", m.as_str()) {
            return false;
        }
    }
    true
}

/// The issues of a listing that pass the filters.
pub fn filter_issues(issues: Vec<Json>, f: &IssueFilters) -> (r: Vec<Json>)
    ensures
        r@ == kept_issues(issues@, *f),
{
    let ghost all = issues@;
    let mut out: Vec<Json> = Vec::new();
    let mut rest = issues;
    let mut i: usize = 0;
    let n = rest.len();
    assert(all.skip(0) == all);
    while rest.len() > 0
        invariant
            all.len() == n,
            i + rest@.len() == all.len(),
            rest@ == all.skip(i as int),
            out@ == kept_issues(all.take(i as int), *f),
        decreases rest.len(),
    {
        let issue = rest.remove(0);
        assert(issue == all[i as int]);
        assert(all.take(i + 1).drop_last() == all.take(i as int));
        assert(all.take(i + 1).last() == all[i as int]);
        assert(all.skip(i as int).remove(0) == all.skip(i + 1));
        if keep_issue(&issue, f) {
            out.push(issue);
        }
        i = i + 1;
    }
    assert(all.take(all.len() as int) == all);
    out
}

// ---------------------------------------------------------------------------
// Tables and views
// ---------------------------------------------------------------------------

/// The header line of the issue table.
pub open spec fn issue_header() -> Seq<char> {
    pad_left("NUMBER"@, 8) + "  "@ + pad_right("TITLE"@, 50) + "  "@ + pad_right("AUTHOR"@, 14) + "  "@
        + pad_right("LABELS"@, 14) + "  "@ + pad_right("STATE"@, 8)
}

/// A number as shown, or the dash when there is none.
pub open spec fn number_text(n: Option<u64>) -> Seq<char> {
    match n {
        Some(v) => decimal(v as nat),
        None => dash(),
    }
}

/// The names joined with `, `, or the dash when there are none.
pub open spec fn names_or_dash(names: Seq<Seq<char>>) -> Seq<char> {
    let j = join_with(names, ", "@);
    if j.len() == 0 { dash() } else { j }
}

/// The login of a member holding a user (`issue["user"]["login"]`).
pub open spec fn login_of(j: Json, key: Seq<char>) -> Option<Seq<char>> {
    str_member(member(j, key), "login"@)
}

/// One row of the issue table.
pub open spec fn issue_row(issue: Json) -> Seq<char> {
    let number = number_text(u64_member(issue, "number"@));
    let title = or_text(str_member(issue, "title"@), dash());
    let author = or_text(login_of(issue, "user"@), dash());
    let state = or_text(str_member(issue, "state"@), dash());
    let labels = names_or_dash(nested_texts(issue, "labels"@, "name"@));
    pad_left(number, 8) + "  "@ + pad_right(truncated(title, 50), 50) + "  "@ + pad_right(truncated(author, 14), 14)
        + "  "@ + pad_right(truncated(labels, 14), 14) + "  "@ + pad_right(state, 8)
}

/// What the issue list prints: the table, or a line saying there is none.
pub open spec fn issue_table(issues: Seq<Json>) -> Seq<Seq<char>> {
    if issues.len() == 0 {
        seq!["No issues found."@]
    } else {
        seq![issue_header()] + issues.map_values(|i: Json| issue_row(i))
    }
}

fn text_or<'a>(t: Option<&'a str>, d: &'a str) -> (r: &'a str)
    ensures
        r@ == or_text(match t { Some(x) => Some(x@), None => None }, d@),
{
    match t {
        Some(x) => x,
        None => d,
    }
}

fn login_member<'a>(j: &'a Json, key: &str) -> (r: Option<&'a str>)
    ensures
        match r {
            Some(s) => login_of(*j, key@) == Some(s@),
            None => login_of(*j, key@) is None,
        },
{
    match j.get(key) {
        Some(u) => u.str_member("login"),
        None => {
            assert(str_member(Json::Null, "login"@) is None);
            None
        },
    }
}

fn number_string(n: Option<u64>) -> (r: String)
    ensures
        r@ == number_text(n),
{
    match n {
        Some(v) => decimal_string(v),
        None => "\u{2014}".to_owned(),
    }
}

fn join_or_dash(names: &Vec<String>) -> (r: String)
    ensures
        r@ == names_or_dash(texts_of(names@)),
{
    let j = join_strings(names, ", ");
    assert(names@.map_values(|p: String| p@) == texts_of(names@));
    if j.as_str().is_empty() {
        "\u{2014}".to_owned()
    } else {
        j
    }
}

fn issue_row_line(issue: &Json) -> (r: String)
    ensures
        r@ == issue_row(*issue),
{
    let number = number_string(issue.u64_member("number"));
    let title = text_or(issue.str_member("title"), "\u{2014}");
    let author = text_or(login_member(issue, "user"), "\u{2014}");
    let state = text_or(issue.str_member("state"), "\u{2014}");
    let names = collect_nested_texts(issue, "labels", "name");
    let labels = join_or_dash(&names);
    let mut line = String::new();
    push_padded_left(&mut line, number.as_str(), 8);
    line.append("  ");
    push_padded_right(&mut line, truncate(title, 50).as_str(), 50);
    line.append("  ");
    push_padded_right(&mut line, truncate(author, 14).as_str(), 14);
    line.append("  ");
    push_padded_right(&mut line, truncate(labels.as_str(), 14).as_str(), 14);
    line.append("  ");
    push_padded_right(&mut line, state, 8);
    line
}

/// The lines of the issue list.
pub fn issue_table_lines(issues: &Vec<Json>) -> (r: Vec<String>)
    ensures
        lines_of(r@) == issue_table(issues@),
{
    if issues.len() == 0 {
        return one_line("No issues found.".to_owned());
    }
    let mut header = String::new();
    push_padded_left(&mut header, "NUMBER", 8);
    header.append("  ");
    push_padded_right(&mut header, "TITLE", 50);
    header.append("  ");
    push_padded_right(&mut header, "AUTHOR", 14);
    header.append("  ");
    push_padded_right(&mut header, "LABELS", 14);
    header.append("  ");
    push_padded_right(&mut header, "STATE", 8);
    let mut lines = one_line(header);
    let mut i: usize = 0;
    while i < issues.len()
        invariant
            i <= issues@.len(),
            issues@.len() > 0,
            lines_of(lines@) == seq![issue_header()] + issues@.take(i as int).map_values(|x: Json| issue_row(x)),
        decreases issues@.len() - i,
    {
        let row = issue_row_line(&issues[i]);
        push_line(&mut lines, row);
        assert(issues@.take(i + 1).map_values(|x: Json| issue_row(x))
            =~= issues@.take(i as int).map_values(|x: Json| issue_row(x)).push(issue_row(issues@[i as int])));
        i = i + 1;
    }
    assert(issues@.take(issues@.len() as int) == issues@);
    lines
}

/// `n` box-drawing dashes.
pub open spec fn rule(n: nat) -> Seq<char> {
    Seq::new(n, |i: int| '\u{2500}')
}

/// A date as shown (`Jan 15, 2024`), or the dash when there is none.
pub open spec fn date_or_dash(t: Option<Seq<char>>) -> Seq<char> {
    match t {
        Some(d) => formatted_date(d),
        None => dash(),
    }
}

/// A line `prefix + names` when there are names.
pub open spec fn names_line(prefix: Seq<char>, names: Seq<Seq<char>>) -> Seq<Seq<char>> {
    let j = join_with(names, ", "@);
    if j.len() > 0 { seq![prefix + j] } else { Seq::empty() }
}

/// The lines of one comment.
pub open spec fn comment_block(c: Json) -> Seq<Seq<char>> {
    seq![
        or_text(login_of(c, "user"@), "unknown"@) + " commented on "@ + date_or_dash(str_member(c, "created_at"@)),
        Seq::empty(),
        or_text(str_member(c, "body"@), Seq::empty()),
        Seq::empty(),
    ]
}

/// The lines of the comments, one block after another.
pub open spec fn comment_lines(cs: Seq<Json>) -> Seq<Seq<char>>
    decreases cs.len(),
{
    if cs.len() == 0 { Seq::empty() } else { comment_lines(cs.drop_last()) + comment_block(cs.last()) }
}

/// The view of an issue: its title, metadata, body and comments.
pub open spec fn issue_view(issue: Json, comments: Seq<Json>) -> Seq<Seq<char>> {
    let title = or_text(str_member(issue, "title"@), "(no title)"@);
    let body = or_text(str_member(issue, "body"@), Seq::empty());
    seq![
        title,
        rule(if utf8_len(title) < 80 { utf8_len(title) } else { 80 }),
        Seq::empty(),
        "State:   "@ + or_text(str_member(issue, "state"@), "unknown"@),
        "Author:  "@ + or_text(login_of(issue, "user"@), "unknown"@),
        "Created: "@ + date_or_dash(str_member(issue, "created_at"@)),
        "Updated: "@ + date_or_dash(str_member(issue, "updated_at"@)),
    ]
        + names_line("Labels:  "@, nested_texts(issue, "labels"@, "name"@))
        + names_line("Assignees: "@, nested_texts(issue, "assignees"@, "login"@))
        + (match str_member(member(issue, "milestone"@), "title"@) {
            Some(t) => seq!["Milestone: "@ + t],
            None => Seq::empty(),
        })
        + seq![Seq::empty()]
        + (if body.len() > 0 { seq![body, Seq::empty()] } else { Seq::empty() })
        + (if comments.len() > 0 {
            seq!["\u{2500}\u{2500} Comments \u{2500}\u{2500}"@, Seq::empty()] + comment_lines(comments)
        } else {
            Seq::empty()
        })
}

fn rule_string(n: usize) -> (r: String)
    ensures
        r@ == rule(n as nat),
{
    let mut r = String::new();
    let mut i: usize = 0;
    while i < n
        invariant
            i <= n,
            r@ == rule(i as nat),
        decreases n - i,
    {
        push_char(&mut r, '\u{2500}');
        i = i + 1;
        assert(r@ =~= rule(i as nat));
    }
    r
}

fn date_string(t: Option<&str>) -> (r: String)
    ensures
        r@ == date_or_dash(match t { Some(x) => Some(x@), None => None }),
{
    match t {
        Some(d) => format_date(d),
        None => "\u{2014}".to_owned(),
    }
}

fn push_lines(lines: &mut Vec<String>, more: Vec<String>)
    ensures
        lines_of(final(lines)@) == lines_of(old(lines)@) + lines_of(more@),
{
    let mut i: usize = 0;
    while i < more.len()
        invariant
            i <= more@.len(),
            lines_of(lines@) == lines_of(old(lines)@) + lines_of(more@.take(i as int)),
        decreases more.len() - i,
    {
        push_line(lines, more[i].clone());
        assert(lines_of(more@.take(i + 1)) =~= lines_of(more@.take(i as int)).push(more@[i as int]@));
        i = i + 1;
    }
    assert(more@.take(more@.len() as int) == more@);
}

fn push_names_line(lines: &mut Vec<String>, prefix: &str, names: &Vec<String>)
    ensures
        lines_of(final(lines)@) == lines_of(old(lines)@) + names_line(prefix@, texts_of(names@)),
{
    let j = join_strings(names, ", ");
    assert(names@.map_values(|p: String| p@) == texts_of(names@));
    if !j.as_str().is_empty() {
        let mut l = prefix.to_owned();
        l.append(j.as_str());
        push_line(lines, l);
    }
    assert(lines_of(lines@) =~= lines_of(old(lines)@) + names_line(prefix@, texts_of(names@)));
}

/// The first lines of an issue's view: title, rule and metadata.
pub open spec fn view_head(issue: Json) -> Seq<Seq<char>> {
    let title = or_text(str_member(issue, "title"@), "(no title)"@);
    seq![
        title,
        rule(if utf8_len(title) < 80 { utf8_len(title) } else { 80 }),
        Seq::empty(),
        "State:   "@ + or_text(str_member(issue, "state"@), "unknown"@),
        "Author:  "@ + or_text(login_of(issue, "user"@), "unknown"@),
        "Created: "@ + date_or_dash(str_member(issue, "created_at"@)),
        "Updated: "@ + date_or_dash(str_member(issue, "updated_at"@)),
    ]
}

/// The lines between an issue's metadata and its comments.
pub open spec fn view_middle(issue: Json) -> Seq<Seq<char>> {
    let body = or_text(str_member(issue, "body"@), Seq::empty());
    names_line("Labels:  "@, nested_texts(issue, "labels"@, "name"@))
        + names_line("Assignees: "@, nested_texts(issue, "assignees"@, "login"@))
        + (match str_member(member(issue, "milestone"@), "title"@) {
            Some(t) => seq!["Milestone: "@ + t],
            None => Seq::empty(),
        })
        + seq![Seq::empty()]
        + (if body.len() > 0 { seq![body, Seq::empty()] } else { Seq::empty() })
}

/// The comment section of an issue's view.
pub open spec fn view_comments(comments: Seq<Json>) -> Seq<Seq<char>> {
    if comments.len() > 0 {
        seq!["\u{2500}\u{2500} Comments \u{2500}\u{2500}"@, Seq::empty()] + comment_lines(comments)
    } else {
        Seq::empty()
    }
}

fn view_head_lines(issue: &Json) -> (r: Vec<String>)
    ensures
        lines_of(r@) == view_head(*issue),
{
    let title = text_or(issue.str_member("title"), "(no title)");
    let n: usize = crate::cmd::util::byte_len_capped(title, 80);
    let mut lines = one_line(title.to_owned());
    push_line(&mut lines, rule_string(n));
    push_line(&mut lines, String::new());
    let mut l = "State:   ".to_owned();
    l.append(text_or(issue.str_member("state"), "unknown"));
    push_line(&mut lines, l);
    let mut l = "Author:  ".to_owned();
    l.append(text_or(login_member(issue, "user"), "unknown"));
    push_line(&mut lines, l);
    let mut l = "Created: ".to_owned();
    l.append(date_string(issue.str_member("created_at")).as_str());
    push_line(&mut lines, l);
    let mut l = "Updated: ".to_owned();
    l.append(date_string(issue.str_member("updated_at")).as_str());
    push_line(&mut lines, l);
    let ghost v = lines_of(lines@);
    let ghost h = view_head(*issue);
    assert(v.len() == h.len());
    assert(v[0] == h[0]);
    assert(v[1] == h[1]);
    assert(v[2] == h[2]);
    assert(v[3] == h[3]);
    assert(v[4] == h[4]);
    assert(v[5] == h[5]);
    assert(v[6] == h[6]);
    assert(lines_of(lines@) =~= view_head(*issue));
    lines
}

fn view_middle_lines(issue: &Json) -> (r: Vec<String>)
    ensures
        lines_of(r@) == view_middle(*issue),
{
    let mut lines: Vec<String> = Vec::new();
    assert(lines_of(lines@) =~= Seq::<Seq<char>>::empty());
    push_names_line(&mut lines, "Labels:  ", &collect_nested_texts(issue, "labels", "name"));
    push_names_line(&mut lines, "Assignees: ", &collect_nested_texts(issue, "assignees", "login"));
    let milestone = match issue.get("milestone") {
        Some(m) => m.str_member("title"),
        None => {
            assert(str_member(Json::Null, "title"@) is None);
            None
        },
    };
    if let Some(t) = milestone {
        let mut l = "Milestone: ".to_owned();
        l.append(t);
        push_line(&mut lines, l);
    }
    push_line(&mut lines, String::new());
    let body = text_or(issue.str_member("body"), "");
    proof { reveal_strlit(""); }
    if !body.is_empty() {
        push_line(&mut lines, body.to_owned());
        push_line(&mut lines, String::new());
    }
    assert(lines_of(lines@) =~= view_middle(*issue));
    lines
}

fn comment_block_lines(c: &Json) -> (r: Vec<String>)
    ensures
        lines_of(r@) == comment_block(*c),
{
    let mut head_line = text_or(login_member(c, "user"), "unknown").to_owned();
    head_line.append(" commented on ");
    head_line.append(date_string(c.str_member("created_at")).as_str());
    let mut lines = one_line(head_line);
    push_line(&mut lines, String::new());
    push_line(&mut lines, text_or(c.str_member("body"), "").to_owned());
    push_line(&mut lines, String::new());
    proof { reveal_strlit(""); }
    let ghost v = lines_of(lines@);
    let ghost h = comment_block(*c);
    assert(v.len() == h.len());
    assert(v[0] == h[0]);
    assert(v[1] == h[1]);
    assert(v[2] == h[2]);
    assert(v[3] == h[3]);
    assert(lines_of(lines@) =~= comment_block(*c));
    lines
}

fn view_comment_lines(comments: &Vec<Json>) -> (r: Vec<String>)
    ensures
        lines_of(r@) == view_comments(comments@),
{
    let mut lines: Vec<String> = Vec::new();
    assert(lines_of(lines@) =~= Seq::<Seq<char>>::empty());
    if comments.len() == 0 {
        return lines;
    }
    push_line(&mut lines, "\u{2500}\u{2500} Comments \u{2500}\u{2500}".to_owned());
    push_line(&mut lines, String::new());
    let ghost start = lines_of(lines@);
    let mut i: usize = 0;
    while i < comments.len()
        invariant
            i <= comments@.len(),
            lines_of(lines@) == start + comment_lines(comments@.take(i as int)),
        decreases comments.len() - i,
    {
        let block = comment_block_lines(&comments[i]);
        push_lines(&mut lines, block);
        assert(comments@.take(i + 1).drop_last() == comments@.take(i as int));
        assert(comments@.take(i + 1).last() == comments@[i as int]);
        assert(start + comment_lines(comments@.take(i + 1)) =~= start + comment_lines(comments@.take(i as int)) + comment_block(comments@[i as int]));
        i = i + 1;
    }
    assert(comments@.take(comments@.len() as int) == comments@);
    lines
}

/// The lines that view an issue and its comments.
pub fn issue_view_lines(issue: &Json, comments: &Vec<Json>) -> (r: Vec<String>)
    ensures
        lines_of(r@) == issue_view(*issue, comments@),
{
    let mut lines = view_head_lines(issue);
    push_lines(&mut lines, view_middle_lines(issue));
    push_lines(&mut lines, view_comment_lines(comments));
    assert(lines_of(lines@) =~= issue_view(*issue, comments@));
    lines
}

// ---------------------------------------------------------------------------
// Statuses and messages
// ---------------------------------------------------------------------------

/// `OWNER/REPO`.
pub open spec fn repo_text(owner: Seq<char>, repo: Seq<char>) -> Seq<char> {
    owner + "/"@ + repo
}

/// The error a reply's status means for an issue request, if any: the
/// not-found message for 404, the authentication message (when the request
/// has one) for 401 and 403, and the HTTP failure for any other failure.
pub open spec fn status_error(status: u16, status_text: Seq<char>, not_found: Seq<char>, auth: Option<Seq<char>>, fail_prefix: Seq<char>) -> Option<Seq<char>> {
    if status == 404 {
        Some(not_found)
    } else if (status == 401 || status == 403) && auth is Some {
        auth
    } else if !is_success(status) {
        Some(http_failure(fail_prefix, status_text))
    } else {
        None
    }
}

/// Reads [`status_error`].
pub fn check_status(status: u16, status_text: &str, not_found: String, auth: Option<String>, fail_prefix: &str) -> (r: Option<String>)
    ensures
        match status_error(status, status_text@, not_found@, match auth { Some(a) => Some(a@), None => None }, fail_prefix@) {
            Some(m) => r matches Some(e) && e@ == m,
            None => r is None,
        },
{
    if status == 404 {
        Some(not_found)
    } else if (status == 401 || status == 403) && auth.is_some() {
        auth
    } else if !(200 <= status && status <= 299) {
        Some(http_failure_message(fail_prefix, status_text))
    } else {
        None
    }
}

/// `#N`.
pub open spec fn issue_ref(number: u64) -> Seq<char> {
    "#"@ + decimal(number as nat)
}

/// The message for an issue that is not there.
pub open spec fn issue_not_found(number: u64, owner: Seq<char>, repo: Seq<char>) -> Seq<char> {
    "issue "@ + issue_ref(number) + " not found in '"@ + repo_text(owner, repo) + "'"@
}

/// Builds [`issue_not_found`].
pub fn issue_not_found_message(number: u64, spec: &RepoSplit) -> (r: String)
    ensures
        r@ == issue_not_found(number, spec.owner@, spec.repo@),
{
    let mut m = "issue #".to_owned();
    m.append(decimal_string(number).as_str());
    m.append(" not found in '");
    m.append(spec.owner.as_str());
    m.append("/");
    m.append(spec.repo.as_str());
    m.append("'");
    proof {
        reveal_strlit("issue #");
        reveal_strlit("issue ");
        reveal_strlit("#");
        assert("issue #"@ == "issue "@ + "#"@);
    }
    m
}

/// `PREFIX #N` (as in `failed to close issue #7`).
pub open spec fn about_issue(prefix: Seq<char>, number: u64) -> Seq<char> {
    prefix + " "@ + issue_ref(number)
}

/// Builds [`about_issue`].
pub fn about_issue_message(prefix: &str, number: u64) -> (r: String)
    ensures
        r@ == about_issue(prefix@, number),
{
    let mut m = prefix.to_owned();
    m.append(" ");
    m.append("#");
    m.append(decimal_string(number).as_str());
    m
}

/// The URL printed for an issue: `https://github.com/OWNER/REPO/issues/N`.
pub open spec fn issue_url(owner: Seq<char>, repo: Seq<char>, number: u64) -> Seq<char> {
    "https://github.com/"@ + owner + "/"@ + repo + "/issues/"@ + decimal(number as nat)
}

/// Builds [`issue_url`].
pub fn issue_url_string(spec: &RepoSplit, number: u64) -> (r: String)
    ensures
        r@ == issue_url(spec.owner@, spec.repo@, number),
{
    let mut u = "https://github.com/".to_owned();
    u.append(spec.owner.as_str());
    u.append("/");
    u.append(spec.repo.as_str());
    u.append("/issues/");
    u.append(decimal_string(number).as_str());
    u
}

/// The web page of a repository's issues (`--web`), or of one issue.
pub open spec fn web_url(host: Seq<char>, owner: Seq<char>, repo: Seq<char>, number: Option<u64>) -> Seq<char> {
    "https://"@ + host + "/"@ + owner + "/"@ + repo + "/issues"@ + match number {
        Some(n) => "/"@ + decimal(n as nat),
        None => Seq::empty(),
    }
}

/// Builds [`web_url`].
pub fn issues_web_url(host: &str, spec: &RepoSplit, number: Option<u64>) -> (r: String)
    ensures
        r@ == web_url(host@, spec.owner@, spec.repo@, number),
{
    let mut u = "https://".to_owned();
    u.append(host);
    u.append("/");
    u.append(spec.owner.as_str());
    u.append("/");
    u.append(spec.repo.as_str());
    u.append("/issues");
    if let Some(n) = number {
        u.append("/");
        u.append(decimal_string(n).as_str());
    }
    u
}

// ---------------------------------------------------------------------------
// Listing
// ---------------------------------------------------------------------------

/// What `gor issue list` ends with, given the reply to its request.
pub open spec fn list_ending(owner: Seq<char>, repo: Seq<char>, f: IssueFilters, json: Option<Vec<String>>, resp: ApiResponse, step: Step) -> bool {
    let spec_text = repo_text(owner, repo);
    match status_error(resp.status, resp.status_text@, "repository '"@ + spec_text + "' not found"@,
        Some("authentication required to list issues for '"@ + spec_text + "'"@),
        "failed to list issues for '"@ + spec_text + "'"@) {
        Some(m) => fails_with(step, m),
        None => match array_items(resp.body) {
            None => fails_with(step, "failed to parse issue response"@),
            Some(items) => {
                let kept = kept_issues(items@, f);
                if json is Some {
                    step matches Step::PrintJson(j) && (if asks_fields(json) {
                        j matches Json::Object(out) && out@.len() == 0
                    } else {
                        value_of(j) == JsonValue::Array(values_of(kept))
                    })
                } else {
                    prints(step, issue_table(kept))
                }
            },
        },
    }
}

fn quoted_repo(prefix: &str, spec: &RepoSplit, suffix: &str) -> (r: String)
    ensures
        r@ == prefix@ + repo_text(spec.owner@, spec.repo@) + suffix@,
{
    let mut m = prefix.to_owned();
    m.append(spec.owner.as_str());
    m.append("/");
    m.append(spec.repo.as_str());
    m.append(suffix);
    m
}

/// Reads the reply to the issue listing: filters it and lays it out.
pub fn list_result(spec: &RepoSplit, f: &IssueFilters, json: &Option<Vec<String>>, resp: ApiResponse) -> (r: Step)
    ensures
        list_ending(spec.owner@, spec.repo@, *f, *json, resp, r),
{
    let err = check_status(resp.status, resp.status_text.as_str(),
        quoted_repo("repository '", spec, "' not found"),
        Some(quoted_repo("authentication required to list issues for '", spec, "'")),
        quoted_repo("failed to list issues for '", spec, "'").as_str());
    if let Some(m) = err {
        return Step::Fail(m);
    }
    match take_items(resp.body) {
        None => Step::Fail("failed to parse issue response".to_owned()),
        Some(items) => {
            let kept = filter_issues(items, f);
            if json.is_some() {
                Step::PrintJson(json_output(Json::Array(kept), json))
            } else {
                Step::Print(issue_table_lines(&kept))
            }
        },
    }
}

// ---------------------------------------------------------------------------
// Request bodies
// ---------------------------------------------------------------------------

/// The body that closes an issue, with its reason when given.
pub open spec fn close_body(reason: Option<String>) -> JsonValue {
    JsonValue::Object(seq![("state"@, str_value("closed"@))] + optional_member("state_reason"@, reason))
}

/// The body that reopens an issue.
pub open spec fn reopen_body() -> JsonValue {
    JsonValue::Object(seq![("state"@, str_value("open"@))])
}

/// A body with one text member.
pub open spec fn text_body(key: Seq<char>, text: Seq<char>) -> JsonValue {
    JsonValue::Object(seq![(key, str_value(text))])
}

fn push_optional(entries: &mut Vec<(String, Json)>, key: &str, value: &Option<String>)
    ensures
        members_of(final(entries)@) == members_of(old(entries)@) + optional_member(key@, *value),
{
    match value {
        Some(v) => push_member(entries, key, string_json(v.as_str())),
        None => {},
    }
    assert(members_of(entries@) =~= members_of(old(entries)@) + optional_member(key@, *value));
}

/// Builds [`close_body`].
pub fn close_request_body(reason: &Option<String>) -> (r: Json)
    ensures
        value_of(r) == close_body(*reason),
{
    let mut e = no_members();
    push_member(&mut e, "state", string_json("closed"));
    push_optional(&mut e, "state_reason", reason);
    Json::Object(e)
}

/// Builds [`reopen_body`].
pub fn reopen_request_body() -> (r: Json)
    ensures
        value_of(r) == reopen_body(),
{
    let mut e = no_members();
    push_member(&mut e, "state", string_json("open"));
    Json::Object(e)
}

/// Builds [`text_body`].
pub fn text_request_body(key: &str, text: &str) -> (r: Json)
    ensures
        value_of(r) == text_body(key@, text@),
{
    let mut e = no_members();
    push_member(&mut e, key, string_json(text));
    Json::Object(e)
}

/// A member holding an array of names, when there are any.
pub open spec fn names_member(key: Seq<char>, names: Seq<String>) -> Seq<(Seq<char>, JsonValue)> {
    if names.len() > 0 { seq![(key, str_array_value(names))] } else { Seq::empty() }
}

/// The body that creates an issue.
pub open spec fn create_body(title: Seq<char>, body: Option<String>, labels: Seq<String>, assignees: Seq<String>) -> JsonValue {
    JsonValue::Object(seq![("title"@, str_value(title))] + optional_member("body"@, body)
        + names_member("labels"@, labels) + names_member("assignees"@, assignees))
}

fn push_names(entries: &mut Vec<(String, Json)>, key: &str, names: &Vec<String>)
    ensures
        members_of(final(entries)@) == members_of(old(entries)@) + names_member(key@, names@),
{
    if names.len() > 0 {
        push_member(entries, key, string_array_json(names));
    }
    assert(members_of(entries@) =~= members_of(old(entries)@) + names_member(key@, names@));
}

/// Builds [`create_body`].
pub fn create_request_body(title: &str, body: &Option<String>, labels: &Vec<String>, assignees: &Vec<String>) -> (r: Json)
    ensures
        value_of(r) == create_body(title@, *body, labels@, assignees@),
{
    let mut e = no_members();
    push_member(&mut e, "title", string_json(title));
    push_optional(&mut e, "body", body);
    push_names(&mut e, "labels", labels);
    push_names(&mut e, "assignees", assignees);
    assert(members_of(e@) =~= seq![("title"@, str_value(title@))] + optional_member("body"@, *body)
        + names_member("labels"@, labels@) + names_member("assignees"@, assignees@));
    Json::Object(e)
}

/// A member holding an array of names when the list is to be sent.
pub open spec fn list_member(key: Seq<char>, names: Option<Vec<String>>) -> Seq<(Seq<char>, JsonValue)> {
    match names {
        Some(v) => seq![(key, str_array_value(v@))],
        None => Seq::empty(),
    }
}

/// The body that edits an issue: only the fields that change.
pub open spec fn edit_body(title: Option<String>, body: Option<String>, labels: Option<Vec<String>>, assignees: Option<Vec<String>>) -> JsonValue {
    JsonValue::Object(optional_member("title"@, title) + optional_member("body"@, body)
        + list_member("labels"@, labels) + list_member("assignees"@, assignees))
}

fn push_list(entries: &mut Vec<(String, Json)>, key: &str, names: &Option<Vec<String>>)
    ensures
        members_of(final(entries)@) == members_of(old(entries)@) + list_member(key@, *names),
{
    if let Some(v) = names {
        push_member(entries, key, string_array_json(v));
    }
    assert(members_of(entries@) =~= members_of(old(entries)@) + list_member(key@, *names));
}

/// Builds [`edit_body`].
pub fn edit_request_body(title: &Option<String>, body: &Option<String>, labels: &Option<Vec<String>>, assignees: &Option<Vec<String>>) -> (r: Json)
    ensures
        value_of(r) == edit_body(*title, *body, *labels, *assignees),
{
    let mut e = no_members();
    push_optional(&mut e, "title", title);
    push_optional(&mut e, "body", body);
    push_list(&mut e, "labels", labels);
    push_list(&mut e, "assignees", assignees);
    assert(members_of(e@) =~= optional_member("title"@, *title) + optional_member("body"@, *body)
        + list_member("labels"@, *labels) + list_member("assignees"@, *assignees));
    Json::Object(e)
}

/// The names an edit sends for one list (labels or assignees): none when
/// nothing is added or removed, else the current names of the fetched
/// issue (`issue[array_key][*][key]`) edited.
pub open spec fn edited_list(current: Json, array_key: Seq<char>, key: Seq<char>, add: Seq<String>, remove: Seq<String>) -> Seq<Seq<char>> {
    edited_names(nested_texts(current, array_key, key), texts_of(add), texts_of(remove))
}

/// The new value of one list of an edited issue.
pub fn edited_list_of(current: &Json, array_key: &str, key: &str, add: &Vec<String>, remove: &Vec<String>) -> (r: Vec<String>)
    ensures
        texts_of(r@) == edited_list(*current, array_key@, key@, add@, remove@),
{
    let names = collect_nested_texts(current, array_key, key);
    let r = edit_names(names, add, remove);
    assert(texts_of(r@) == r@.map_values(|x: String| x@));
    r
}

/// The body that transfers an issue to `OWNER/REPO`.
pub open spec fn transfer_body(owner: Seq<char>, repo: Seq<char>) -> JsonValue {
    JsonValue::Object(seq![("new_owner"@, str_value(owner)), ("new_repo"@, str_value(repo))])
}

/// Builds [`transfer_body`].
pub fn transfer_request_body(dest: &RepoSplit) -> (r: Json)
    ensures
        value_of(r) == transfer_body(dest.owner@, dest.repo@),
{
    let mut e = no_members();
    push_member(&mut e, "new_owner", string_json(dest.owner.as_str()));
    push_member(&mut e, "new_repo", string_json(dest.repo.as_str()));
    assert(members_of(e@) =~= seq![("new_owner"@, str_value(dest.owner@)), ("new_repo"@, str_value(dest.repo@))]);
    Json::Object(e)
}

// ---------------------------------------------------------------------------
// What the commands print when they succeed
// ---------------------------------------------------------------------------

/// `✓ issue #N closed`, with ` as REASON` when a reason was given.
pub open spec fn closed_line(number: u64, reason: Option<String>) -> Seq<char> {
    "\u{2713} issue "@ + issue_ref(number) + " closed"@ + match reason {
        Some(r) => " as "@ + r@,
        None => Seq::empty(),
    }
}

/// Builds [`closed_line`].
pub fn closed_message(number: u64, reason: &Option<String>) -> (r: String)
    ensures
        r@ == closed_line(number, *reason),
{
    let mut m = "\u{2713} issue ".to_owned();
    m.append("#");
    m.append(decimal_string(number).as_str());
    m.append(" closed");
    if let Some(r) = reason {
        m.append(" as ");
        m.append(r.as_str());
    }
    m
}

/// `✓ issue #N reopened`.
pub open spec fn reopened_line(number: u64) -> Seq<char> {
    "\u{2713} issue "@ + issue_ref(number) + " reopened"@
}

/// Builds [`reopened_line`].
pub fn reopened_message(number: u64) -> (r: String)
    ensures
        r@ == reopened_line(number),
{
    let mut m = "\u{2713} issue ".to_owned();
    m.append("#");
    m.append(decimal_string(number).as_str());
    m.append(" reopened");
    m
}

/// The failure message of a create, edit or transfer: `PREFIX: MESSAGE`,
/// the message being the reply's or `default`.
pub open spec fn refused(prefix: Seq<char>, body: Option<Json>, default: Seq<char>) -> Seq<char> {
    prefix + ": "@ + reply_message(body, default)
}

/// Builds [`refused`].
pub fn refused_message(prefix: &str, body: &Option<Json>, default: &str) -> (r: String)
    ensures
        r@ == refused(prefix@, *body, default@),
{
    let mut m = prefix.to_owned();
    m.append(": ");
    m.append(message_or(body, default).as_str());
    m
}

/// The number an edit or creation reports: the reply's `number`, else
/// `fallback`.
pub open spec fn reported_number(body: Json, fallback: u64) -> u64 {
    match u64_member(body, "number"@) {
        Some(n) => n,
        None => fallback,
    }
}

/// `Issue #N transferred to DEST: URL`.
pub open spec fn transferred_line(number: u64, destination: Seq<char>, body: Json) -> Seq<char> {
    "Issue "@ + issue_ref(number) + " transferred to "@ + destination + ": "@
        + or_text(str_member(body, "html_url"@), dash())
}

/// Builds [`transferred_line`].
pub fn transferred_message(number: u64, destination: &str, body: &Json) -> (r: String)
    ensures
        r@ == transferred_line(number, destination@, *body),
{
    let mut m = "Issue ".to_owned();
    m.append("#");
    m.append(decimal_string(number).as_str());
    m.append(" transferred to ");
    m.append(destination);
    m.append(": ");
    m.append(text_or(body.str_member("html_url"), "\u{2014}"));
    m
}

/// `✓ comment posted: URL`.
pub open spec fn posted_line(body: Json) -> Seq<char> {
    "\u{2713} comment posted: "@ + or_text(str_member(body, "html_url"@), "https://github.com/"@)
}

/// Builds [`posted_line`].
pub fn posted_message(body: &Json) -> (r: String)
    ensures
        r@ == posted_line(*body),
{
    let mut m = "\u{2713} comment posted: ".to_owned();
    m.append(text_or(body.str_member("html_url"), "https://github.com/"));
    m
}

/// Where the text of a comment comes from.
#[derive(Debug)]
pub enum CommentSource {
    /// Given on the command line.
    Text(String),
    /// One line read from standard input (`--body-file @-`).
    Stdin,
    /// The contents of a file.
    File(String),
}

/// Where `gor issue comment` takes its text from: `--body`, else
/// `--body-file` (`@-` for standard input); one of them is required.
pub fn comment_source(body: Option<String>, body_file: Option<String>) -> (r: Result<CommentSource, String>)
    requires
        !(body is Some && body_file is Some),
    ensures
        match (body, body_file) {
            (Some(b), _) => r matches Ok(CommentSource::Text(t)) && t@ == b@,
            (None, Some(f)) => if f@ == "@-"@ { r matches Ok(CommentSource::Stdin) } else {
                r matches Ok(CommentSource::File(p)) && p@ == f@
            },
            (None, None) => r matches Err(m) && m@ == "either --body or --body-file is required"@,
        },
{
    match (body, body_file) {
        (Some(b), _) => Ok(CommentSource::Text(b)),
        (None, Some(f)) => if str_eq(f.as_str(), "@-") { Ok(CommentSource::Stdin) } else { Ok(CommentSource::File(f)) },
        (None, None) => Err("either --body or --body-file is required".to_owned()),
    }
}

/// The title an issue is created with; it is required.
pub fn required_title(title: &Option<String>) -> (r: Result<&str, String>)
    ensures
        match title {
            Some(t) => r matches Ok(s) && s@ == t@,
            None => r matches Err(m) && m@ == "issue title is required; use --title"@,
        },
{
    match title {
        Some(t) => Ok(t.as_str()),
        None => Err("issue title is required; use --title".to_owned()),
    }
}

// ---------------------------------------------------------------------------
// The edit, request by request
// ---------------------------------------------------------------------------

/// What `gor issue edit` changes.
#[derive(Debug)]
pub struct IssueEdit {
    pub number: u64,
    pub title: Option<String>,
    pub body: Option<String>,
    pub add_labels: Vec<String>,
    pub remove_labels: Vec<String>,
    pub add_assignees: Vec<String>,
    pub remove_assignees: Vec<String>,
}

/// Where an edit stands between its requests.
#[derive(Debug)]
pub enum EditState {
    /// Nothing sent yet.
    Start,
    /// The issue was asked for, to edit its labels.
    Labels,
    /// The issue was asked for, to edit its assignees; the new labels, when
    /// they change.
    Assignees(Option<Vec<String>>),
    /// The update was sent.
    Patch,
}

/// Whether the edit changes the labels.
pub open spec fn changes_labels(e: IssueEdit) -> bool {
    e.add_labels@.len() > 0 || e.remove_labels@.len() > 0
}

/// Whether the edit changes the assignees.
pub open spec fn changes_assignees(e: IssueEdit) -> bool {
    e.add_assignees@.len() > 0 || e.remove_assignees@.len() > 0
}

/// `/repos/OWNER/REPO/issues/N`.
pub open spec fn issue_path_of(owner: Seq<char>, repo: Seq<char>, number: u64) -> Seq<char> {
    repo_prefix(owner, repo) + "/issues/"@ + decimal(number as nat)
}

/// The names of `v`, when it is given.
pub open spec fn opt_texts(v: Option<Vec<String>>) -> Option<Seq<Seq<char>>> {
    match v {
        Some(x) => Some(texts_of(x@)),
        None => None,
    }
}

/// The JSON array of some names.
pub open spec fn names_value(names: Seq<Seq<char>>) -> JsonValue {
    JsonValue::Array(names.map_values(|n: Seq<char>| JsonValue::Str(n)))
}

/// Whether `step` sends the update: a PATCH of the issue whose body sets
/// the title and text given and the label and assignee lists given.
pub open spec fn sends_update(step: Step, owner: Seq<char>, repo: Seq<char>, e: IssueEdit,
    labels: Option<Seq<Seq<char>>>, assignees: Option<Seq<Seq<char>>>) -> bool
{
    step matches Step::Send(req) && req.method == Method::Patch && req.path@ == issue_path_of(owner, repo, e.number)
        && (req.body matches RequestBody::JsonBytes(j) && (j matches Json::Object(entries)
            && members_of(entries@) == optional_member("title"@, e.title) + optional_member("body"@, e.body)
                + (match labels { Some(l) => seq![("labels"@, names_value(l))], None => Seq::empty() })
                + (match assignees { Some(a) => seq![("assignees"@, names_value(a))], None => Seq::empty() })))
}

/// What the edit does next, from `state` on `event`: it asks for the issue
/// when the labels change, then again when the assignees change, and then
/// sends the update with the new lists; the reply to the update gives the
/// issue's URL or the failure. A reply to the issue request that is no JSON
/// ends the edit.
pub open spec fn edit_next(owner: Seq<char>, repo: Seq<char>, e: IssueEdit, state: EditState, event: Event,
    next: EditState, step: Step) -> bool
{
    let path = issue_path_of(owner, repo, e.number);
    match (state, event) {
        (EditState::Start, Event::Start) => if changes_labels(e) {
            next is Labels && sends(step, Method::Get, path)
        } else if changes_assignees(e) {
            next matches EditState::Assignees(None) && sends(step, Method::Get, path)
        } else {
            next is Patch && sends_update(step, owner, repo, e, None, None)
        },
        (EditState::Labels, Event::Reply(resp)) => match resp.body {
            None => fails_with(step, "failed to parse issue response"@),
            Some(b) => {
                let labels = edited_list(b, "labels"@, "name"@, e.add_labels@, e.remove_labels@);
                if changes_assignees(e) {
                    (next matches EditState::Assignees(Some(l)) && texts_of(l@) == labels)
                        && sends(step, Method::Get, path)
                } else {
                    next is Patch && sends_update(step, owner, repo, e, Some(labels), None)
                }
            },
        },
        (EditState::Assignees(labels), Event::Reply(resp)) => match resp.body {
            None => fails_with(step, "failed to parse issue response"@),
            Some(b) => next is Patch && sends_update(step, owner, repo, e, opt_texts(labels),
                Some(edited_list(b, "assignees"@, "login"@, e.add_assignees@, e.remove_assignees@))),
        },
        (EditState::Patch, Event::Reply(resp)) => if resp.status == 404 {
            fails_with(step, issue_not_found(e.number, owner, repo))
        } else if !is_success(resp.status) {
            fails_with(step, refused(about_issue("failed to update issue"@, e.number), resp.body, "update failed"@))
        } else {
            match resp.body {
                None => fails_with(step, "failed to parse updated issue response"@),
                Some(b) => prints(step, seq![issue_url(owner, repo, reported_number(b, e.number))]),
            }
        },
        _ => fails_with(step, unexpected_event()),
    }
}

fn issue_path(spec: &RepoSplit, number: u64) -> (r: String)
    ensures
        r@ == issue_path_of(spec.owner@, spec.repo@, number),
{
    let mut p = repo_path(spec);
    p.append("/issues/");
    p.append(decimal_string(number).as_str());
    p
}

fn update_step(spec: &RepoSplit, e: &IssueEdit, labels: &Option<Vec<String>>, assignees: &Option<Vec<String>>) -> (r: Step)
    ensures
        sends_update(r, spec.owner@, spec.repo@, *e, opt_texts(*labels), opt_texts(*assignees)),
{
    let body = edit_request_body(&e.title, &e.body, labels, assignees);
    proof {
        if let Some(v) = labels {
            assert(v@.map_values(|s: String| JsonValue::Str(s@))
                =~= texts_of(v@).map_values(|n: Seq<char>| JsonValue::Str(n)));
        }
        if let Some(v) = assignees {
            assert(v@.map_values(|s: String| JsonValue::Str(s@))
                =~= texts_of(v@).map_values(|n: Seq<char>| JsonValue::Str(n)));
        }
        assert(list_member("labels"@, *labels) == (match opt_texts(*labels) {
            Some(l) => seq![("labels"@, names_value(l))],
            None => Seq::<(Seq<char>, JsonValue)>::empty(),
        }));
        assert(list_member("assignees"@, *assignees) == (match opt_texts(*assignees) {
            Some(a) => seq![("assignees"@, names_value(a))],
            None => Seq::<(Seq<char>, JsonValue)>::empty(),
        }));
    }
    Step::Send(ApiRequest { method: Method::Patch, path: issue_path(spec, e.number), body: RequestBody::JsonBytes(body) })
}

/// One step of `gor issue edit` (see [`edit_next`]).
pub fn edit_step(spec: &RepoSplit, e: &IssueEdit, state: EditState, event: Event) -> (r: (EditState, Step))
    ensures
        edit_next(spec.owner@, spec.repo@, *e, state, event, r.0, r.1),
{
    let labels_change = e.add_labels.len() > 0 || e.remove_labels.len() > 0;
    let assignees_change = e.add_assignees.len() > 0 || e.remove_assignees.len() > 0;
    match (state, event) {
        (EditState::Start, Event::Start) => if labels_change {
            (EditState::Labels, get_step(issue_path(spec, e.number)))
        } else if assignees_change {
            (EditState::Assignees(None), get_step(issue_path(spec, e.number)))
        } else {
            (EditState::Patch, update_step(spec, e, &None, &None))
        },
        (EditState::Labels, Event::Reply(resp)) => match resp.body {
            None => (EditState::Labels, Step::Fail("failed to parse issue response".to_owned())),
            Some(b) => {
                let labels = edited_list_of(&b, "labels", "name", &e.add_labels, &e.remove_labels);
                if assignees_change {
                    (EditState::Assignees(Some(labels)), get_step(issue_path(spec, e.number)))
                } else {
                    let step = update_step(spec, e, &Some(labels), &None);
                    (EditState::Patch, step)
                }
            },
        },
        (EditState::Assignees(labels), Event::Reply(resp)) => match resp.body {
            None => (EditState::Assignees(labels), Step::Fail("failed to parse issue response".to_owned())),
            Some(b) => {
                let assignees = edited_list_of(&b, "assignees", "login", &e.add_assignees, &e.remove_assignees);
                let step = update_step(spec, e, &labels, &Some(assignees));
                (EditState::Patch, step)
            },
        },
        (EditState::Patch, Event::Reply(resp)) => {
            if resp.status == 404 {
                return (EditState::Patch, Step::Fail(issue_not_found_message(e.number, spec)));
            }
            if !(200 <= resp.status && resp.status <= 299) {
                let prefix = about_issue_message("failed to update issue", e.number);
                return (EditState::Patch, Step::Fail(refused_message(prefix.as_str(), &resp.body, "update failed")));
            }
            match resp.body {
                None => (EditState::Patch, Step::Fail("failed to parse updated issue response".to_owned())),
                Some(b) => {
                    let n = match b.u64_member("number") {
                        Some(n) => n,
                        None => e.number,
                    };
                    (EditState::Patch, Step::Print(one_line(issue_url_string(spec, n))))
                },
            }
        },
        (st, _) => (st, Step::Fail("unexpected event".to_owned())),
    }
}

// ---------------------------------------------------------------------------
// Closing and reopening, request by request
// ---------------------------------------------------------------------------

/// What `gor issue close` or `gor issue reopen` does.
#[derive(Debug)]
pub struct StateChange {
    pub number: u64,
    /// Close (else reopen).
    pub close: bool,
    /// Why it is closed (closing only).
    pub reason: Option<String>,
    /// A comment to add once the state changed.
    pub comment: Option<String>,
}

/// Where a state change stands between its requests.
#[derive(Debug)]
pub enum ChangeState {
    Start,
    /// The new state was sent.
    Changing,
    /// The comment was sent.
    Commenting,
}

/// `close` or `reopen`.
pub open spec fn change_verb(c: StateChange) -> Seq<char> {
    if c.close { "close"@ } else { "reopen"@ }
}

/// The body that changes the state.
pub open spec fn change_body(c: StateChange) -> JsonValue {
    if c.close { close_body(c.reason) } else { reopen_body() }
}

/// The line printed once the state changed.
pub open spec fn changed_line(c: StateChange) -> Seq<char> {
    if c.close { closed_line(c.number, c.reason) } else { reopened_line(c.number) }
}

/// `/repos/OWNER/REPO/issues/N/comments`.
pub open spec fn comments_path_of(owner: Seq<char>, repo: Seq<char>, number: u64) -> Seq<char> {
    issue_path_of(owner, repo, number) + "/comments"@
}

/// Whether `step` sends `method` to `path` with `body` as JSON bytes.
pub open spec fn sends_json(step: Step, method: Method, path: Seq<char>, body: JsonValue) -> bool {
    step matches Step::Send(req) && req.method == method && req.path@ == path
        && (req.body matches RequestBody::JsonBytes(j) && value_of(j) == body)
}

/// What a state change does next: it PATCHes the issue's state; the reply
/// fails on 404, on 401 or 403 and on any other failure; else the comment,
/// when there is one, is posted, and whatever its reply the change is
/// reported.
pub open spec fn change_next(owner: Seq<char>, repo: Seq<char>, c: StateChange, state: ChangeState, event: Event,
    next: ChangeState, step: Step) -> bool
{
    match (state, event) {
        (ChangeState::Start, Event::Start) =>
            next is Changing && sends_json(step, Method::Patch, issue_path_of(owner, repo, c.number), change_body(c)),
        (ChangeState::Changing, Event::Reply(resp)) => if resp.status == 404 {
            fails_with(step, issue_not_found(c.number, owner, repo))
        } else if resp.status == 401 || resp.status == 403 {
            fails_with(step, about_issue("authentication required to "@ + change_verb(c) + " issue"@, c.number))
        } else if !is_success(resp.status) {
            fails_with(step, http_failure(about_issue("failed to "@ + change_verb(c) + " issue"@, c.number), resp.status_text@))
        } else {
            match c.comment {
                Some(t) => next is Commenting
                    && sends_json(step, Method::Post, comments_path_of(owner, repo, c.number), text_body("body"@, t@)),
                None => prints(step, seq![changed_line(c)]),
            }
        },
        (ChangeState::Commenting, Event::Reply(_)) => prints(step, seq![changed_line(c)]),
        _ => fails_with(step, unexpected_event()),
    }
}

fn comments_path(spec: &RepoSplit, number: u64) -> (r: String)
    ensures
        r@ == comments_path_of(spec.owner@, spec.repo@, number),
{
    let mut p = issue_path(spec, number);
    p.append("/comments");
    p
}

fn changed_message(c: &StateChange) -> (r: String)
    ensures
        r@ == changed_line(*c),
{
    if c.close { closed_message(c.number, &c.reason) } else { reopened_message(c.number) }
}

/// One step of closing or reopening an issue (see [`change_next`]).
pub fn change_step(spec: &RepoSplit, c: &StateChange, state: ChangeState, event: Event) -> (r: (ChangeState, Step))
    ensures
        change_next(spec.owner@, spec.repo@, *c, state, event, r.0, r.1),
{
    let verb: &str = if c.close { "close" } else { "reopen" };
    match (state, event) {
        (ChangeState::Start, Event::Start) => {
            let body = if c.close { close_request_body(&c.reason) } else { reopen_request_body() };
            (ChangeState::Changing, Step::Send(ApiRequest {
                method: Method::Patch,
                path: issue_path(spec, c.number),
                body: RequestBody::JsonBytes(body),
            }))
        },
        (ChangeState::Changing, Event::Reply(resp)) => {
            if resp.status == 404 {
                return (ChangeState::Changing, Step::Fail(issue_not_found_message(c.number, spec)));
            }
            if resp.status == 401 || resp.status == 403 {
                let mut p = "authentication required to ".to_owned();
                p.append(verb);
                p.append(" issue");
                return (ChangeState::Changing, Step::Fail(about_issue_message(p.as_str(), c.number)));
            }
            if !(200 <= resp.status && resp.status <= 299) {
                let mut p = "failed to ".to_owned();
                p.append(verb);
                p.append(" issue");
                let m = about_issue_message(p.as_str(), c.number);
                return (ChangeState::Changing, Step::Fail(http_failure_message(m.as_str(), resp.status_text.as_str())));
            }
            match &c.comment {
                Some(t) => (ChangeState::Commenting, Step::Send(ApiRequest {
                    method: Method::Post,
                    path: comments_path(spec, c.number),
                    body: RequestBody::JsonBytes(text_request_body("body", t.as_str())),
                })),
                None => (ChangeState::Changing, Step::Print(one_line(changed_message(c)))),
            }
        },
        (ChangeState::Commenting, Event::Reply(_)) => (ChangeState::Commenting, Step::Print(one_line(changed_message(c)))),
        (st, _) => (st, Step::Fail("unexpected event".to_owned())),
    }
}

// ---------------------------------------------------------------------------
// Replies to a comment and to a creation
// ---------------------------------------------------------------------------

/// What the reply to posting a comment gives: the line printed, or the
/// failure.
pub open spec fn comment_outcome(number: u64, owner: Seq<char>, repo: Seq<char>, resp: ApiResponse) -> Result<Seq<char>, Seq<char>> {
    if resp.status == 404 {
        Err(issue_not_found(number, owner, repo))
    } else if resp.status == 401 || resp.status == 403 {
        Err(about_issue("authentication required to comment on issue"@, number))
    } else if !is_success(resp.status) {
        Err(http_failure(about_issue("failed to comment on issue"@, number), resp.status_text@))
    } else {
        match resp.body {
            None => Err("failed to parse comment response"@),
            Some(b) => Ok(posted_line(b)),
        }
    }
}

/// Reads the reply to posting a comment (see [`comment_outcome`]).
pub fn comment_result(number: u64, spec: &RepoSplit, resp: &ApiResponse) -> (r: Result<String, String>)
    ensures
        match comment_outcome(number, spec.owner@, spec.repo@, *resp) {
            Ok(l) => r matches Ok(x) && x@ == l,
            Err(m) => r matches Err(x) && x@ == m,
        },
{
    if resp.status == 404 {
        return Err(issue_not_found_message(number, spec));
    }
    if resp.status == 401 || resp.status == 403 {
        return Err(about_issue_message("authentication required to comment on issue", number));
    }
    if !(200 <= resp.status && resp.status <= 299) {
        let m = about_issue_message("failed to comment on issue", number);
        return Err(http_failure_message(m.as_str(), resp.status_text.as_str()));
    }
    match &resp.body {
        None => Err("failed to parse comment response".to_owned()),
        Some(b) => Ok(posted_message(b)),
    }
}

/// What the reply to creating an issue gives: the issue's URL to print and
/// the page to open with `--web` (its `html_url`, empty when it has none),
/// or the failure.
pub open spec fn creation_outcome(owner: Seq<char>, repo: Seq<char>, resp: ApiResponse) -> Result<(Seq<char>, Seq<char>), Seq<char>> {
    if resp.status == 404 {
        Err("repository '"@ + repo_text(owner, repo) + "' not found"@)
    } else if !is_success(resp.status) {
        Err(refused("failed to create issue"@, resp.body, "creation failed"@))
    } else {
        match resp.body {
            None => Err("failed to parse issue response"@),
            Some(b) => Ok((issue_url(owner, repo, reported_number(b, 0)), or_text(str_member(b, "html_url"@), Seq::empty()))),
        }
    }
}

/// Reads the reply to creating an issue (see [`creation_outcome`]).
pub fn create_result(spec: &RepoSplit, resp: &ApiResponse) -> (r: Result<(String, String), String>)
    ensures
        match creation_outcome(spec.owner@, spec.repo@, *resp) {
            Ok((u, page)) => r matches Ok((x, y)) && x@ == u && y@ == page,
            Err(m) => r matches Err(x) && x@ == m,
        },
{
    if resp.status == 404 {
        return Err(quoted_repo("repository '", spec, "' not found"));
    }
    if !(200 <= resp.status && resp.status <= 299) {
        return Err(refused_message("failed to create issue", &resp.body, "creation failed"));
    }
    match &resp.body {
        None => Err("failed to parse issue response".to_owned()),
        Some(b) => {
            let n = match b.u64_member("number") {
                Some(n) => n,
                None => 0,
            };
            let page = match b.str_member("html_url") {
                Some(u) => u.to_owned(),
                None => {
                    proof { reveal_strlit(""); }
                    "".to_owned()
                },
            };
            Ok((issue_url_string(spec, n), page))
        },
    }
}

// ---------------------------------------------------------------------------
// Transferring
// ---------------------------------------------------------------------------

/// `/repos/OWNER/REPO/issues/N/transfer`.
pub fn transfer_path(spec: &RepoSplit, number: u64) -> (r: String)
    ensures
        r@ == issue_path_of(spec.owner@, spec.repo@, number) + "/transfer"@,
{
    let mut p = issue_path(spec, number);
    p.append("/transfer");
    p
}

/// What the reply to a transfer gives: the line printed, or the failure.
pub open spec fn transfer_outcome(number: u64, destination: Seq<char>, resp: ApiResponse) -> Result<Seq<char>, Seq<char>> {
    if !is_success(resp.status) {
        Err(refused(about_issue("failed to transfer issue"@, number), resp.body, "transfer failed"@))
    } else {
        match resp.body {
            None => Err("failed to parse response"@),
            Some(b) => Ok(transferred_line(number, destination, b)),
        }
    }
}

/// Reads the reply to a transfer (see [`transfer_outcome`]).
pub fn transfer_result(number: u64, destination: &str, resp: &ApiResponse) -> (r: Result<String, String>)
    ensures
        match transfer_outcome(number, destination@, *resp) {
            Ok(l) => r matches Ok(x) && x@ == l,
            Err(m) => r matches Err(x) && x@ == m,
        },
{
    if !(200 <= resp.status && resp.status <= 299) {
        let prefix = about_issue_message("failed to transfer issue", number);
        return Err(refused_message(prefix.as_str(), &resp.body, "transfer failed"));
    }
    match &resp.body {
        None => Err("failed to parse response".to_owned()),
        Some(b) => Ok(transferred_message(number, destination, b)),
    }
}

// ---------------------------------------------------------------------------
// Viewing
// ---------------------------------------------------------------------------

/// The failure of the reply to fetching issue `number`, if any.
pub open spec fn view_failure(number: u64, owner: Seq<char>, repo: Seq<char>, resp: ApiResponse) -> Option<Seq<char>> {
    if resp.status == 404 {
        Some(issue_not_found(number, owner, repo))
    } else if resp.status == 401 || resp.status == 403 {
        Some(about_issue("authentication required to view issue"@, number))
    } else if !is_success(resp.status) {
        Some(http_failure(about_issue("failed to view issue"@, number), resp.status_text@))
    } else if resp.body is None {
        Some("failed to parse issue response"@)
    } else {
        None
    }
}

/// Reads the reply to fetching an issue: the issue, or the failure.
pub fn view_result(number: u64, spec: &RepoSplit, resp: ApiResponse) -> (r: Result<Json, String>)
    ensures
        match view_failure(number, spec.owner@, spec.repo@, resp) {
            Some(m) => r matches Err(e) && e@ == m,
            None => r == Ok::<Json, String>(resp.body->0),
        },
{
    if resp.status == 404 {
        return Err(issue_not_found_message(number, spec));
    }
    if resp.status == 401 || resp.status == 403 {
        return Err(about_issue_message("authentication required to view issue", number));
    }
    if !(200 <= resp.status && resp.status <= 299) {
        let m = about_issue_message("failed to view issue", number);
        return Err(http_failure_message(m.as_str(), resp.status_text.as_str()));
    }
    match resp.body {
        None => Err("failed to parse issue response".to_owned()),
        Some(b) => Ok(b),
    }
}

} // verus!
