//! `gor label`: the labels of a repository, read and written as the API
//! returns them.
use vstd::prelude::*;
use vstd::string::*;
use crate::cmd::flow::{Step, asks_fields, array_items, fails_with, http_failure_message, json_output, lines_of,
    message_or, one_line, prints, push_line, reply_message, take_items};
use crate::cmd::issue::{check_status, repo_text, status_error};
use crate::cmd::keys::{dash, or_text};
use crate::cmd::util::{truncate, truncated};
use crate::json::{Json, JsonValue, collect_member_texts, member_texts, str_member, texts_of, value_of, values_of};
use crate::label::{CloneStep, Label, clone_counts, clone_step_for, first_n, has_name, known_labels,
    law_clone_accounts_for_every_label, new_labels};
use crate::output::{decimal, decimal_string};
use crate::repository::RepoSplit;
use crate::request::{ApiResponse, is_success};
use crate::table::{pad_right, push_padded_right};
use crate::text::{find_first, lowercased, str_contains, to_lowercase};

verus! {

/// Whether a listed label passes the search: its lower-cased name contains
/// the lower-cased query (a label without a name never does).
pub open spec fn json_label_matches(l: Json, search: Option<String>) -> bool {
    match search {
        None => true,
        Some(q) => match str_member(l, "name"@) {
            Some(n) => find_first(lowercased(n), lowercased(q@)) is Some,
            None => false,
        },
    }
}

/// The labels that pass the search, in order.
pub open spec fn json_labels_matching(ls: Seq<Json>, search: Option<String>) -> Seq<Json>
    decreases ls.len(),
{
    if ls.len() == 0 {
        ls
    } else {
        let prev = json_labels_matching(ls.drop_last(), search);
        if json_label_matches(ls.last(), search) { prev.push(ls.last()) } else { prev }
    }
}

/// Applies the search and the limit to listed labels.
pub fn filter_json_labels(labels: Vec<Json>, search: &Option<String>, limit: u32) -> (r: Vec<Json>)
    ensures
        r@ == first_n(json_labels_matching(labels@, *search), limit as nat),
{
    let query = match search {
        Some(q) => Some(to_lowercase(q.as_str())),
        None => None,
    };
    let ghost all = labels@;
    let mut out: Vec<Json> = Vec::new();
    let mut rest = labels;
    let mut i: usize = 0;
    let n = rest.len();
    assert(all.skip(0) == all);
    while rest.len() > 0
        invariant
            all.len() == n,
            i + rest@.len() == all.len(),
            rest@ == all.skip(i as int),
            match *search {
                Some(q) => query matches Some(v) && v@ == lowercased(q@),
                None => query is None,
            },
            out@ == json_labels_matching(all.take(i as int), *search),
        decreases rest.len(),
    {
        let l = rest.remove(0);
        assert(l == all[i as int]);
        assert(all.take(i + 1).drop_last() == all.take(i as int));
        assert(all.take(i + 1).last() == all[i as int]);
        assert(all.skip(i as int).remove(0) == all.skip(i + 1));
        let keep = match &query {
            Some(q) => match l.str_member("name") {
                Some(name) => str_contains(to_lowercase(name).as_str(), q.as_str()),
                None => false,
            },
            None => true,
        };
        if keep {
            out.push(l);
        }
        i = i + 1;
    }
    assert(all.take(all.len() as int) == all);
    out.truncate(limit as usize);
    out
}

/// The header line of the label table.
pub open spec fn label_header() -> Seq<char> {
    pad_right("NAME"@, 24) + "  "@ + pad_right("COLOR"@, 10) + "  "@ + pad_right("DESCRIPTION"@, 60)
}

/// One row of the label table.
pub open spec fn label_row(l: Json) -> Seq<char> {
    let name = or_text(str_member(l, "name"@), dash());
    let color = or_text(str_member(l, "color"@), dash());
    let desc = or_text(str_member(l, "description"@), dash());
    pad_right(truncated(name, 24), 24) + "  #"@ + pad_right(color, 10) + "  "@ + pad_right(truncated(desc, 60), 60)
}

/// What the label list prints: the table, or a line saying there is none.
pub open spec fn label_table(ls: Seq<Json>) -> Seq<Seq<char>> {
    if ls.len() == 0 {
        seq!["No labels found."@]
    } else {
        seq![label_header()] + ls.map_values(|l: Json| label_row(l))
    }
}

fn text_or<'a>(t: Option<&'a str>, d: &'a str) -> (r: &'a str)
    ensures
        r@ == or_text(match t { Some(x) => Some(x@), None => None }, d@),
{
    match t {
        Some(x) => x,
        None => d,
    }
}

fn label_row_line(l: &Json) -> (r: String)
    ensures
        r@ == label_row(*l),
{
    let name = text_or(l.str_member("name"), "\u{2014}");
    let color = text_or(l.str_member("color"), "\u{2014}");
    let desc = text_or(l.str_member("description"), "\u{2014}");
    let mut line = String::new();
    push_padded_right(&mut line, truncate(name, 24).as_str(), 24);
    line.append("  #");
    push_padded_right(&mut line, color, 10);
    line.append("  ");
    push_padded_right(&mut line, truncate(desc, 60).as_str(), 60);
    line
}

/// The lines of the label list.
pub fn label_table_lines(ls: &Vec<Json>) -> (r: Vec<String>)
    ensures
        lines_of(r@) == label_table(ls@),
{
    if ls.len() == 0 {
        return one_line("No labels found.".to_owned());
    }
    let mut header = String::new();
    push_padded_right(&mut header, "NAME", 24);
    header.append("  ");
    push_padded_right(&mut header, "COLOR", 10);
    header.append("  ");
    push_padded_right(&mut header, "DESCRIPTION", 60);
    let mut lines = one_line(header);
    let mut i: usize = 0;
    while i < ls.len()
        invariant
            i <= ls@.len(),
            ls@.len() > 0,
            lines_of(lines@) == seq![label_header()] + ls@.take(i as int).map_values(|x: Json| label_row(x)),
        decreases ls@.len() - i,
    {
        let row = label_row_line(&ls[i]);
        push_line(&mut lines, row);
        assert(ls@.take(i + 1).map_values(|x: Json| label_row(x))
            =~= ls@.take(i as int).map_values(|x: Json| label_row(x)).push(label_row(ls@[i as int])));
        i = i + 1;
    }
    assert(ls@.take(ls@.len() as int) == ls@);
    lines
}

fn quoted(prefix: &str, spec: &RepoSplit, suffix: &str) -> (r: String)
    ensures
        r@ == prefix@ + repo_text(spec.owner@, spec.repo@) + suffix@,
{
    let mut m = prefix.to_owned();
    m.append(spec.owner.as_str());
    m.append("/");
    m.append(spec.repo.as_str());
    m.append(suffix);
    m
}

/// What `gor label list` ends with, given the reply to its request.
pub open spec fn list_ending(owner: Seq<char>, repo: Seq<char>, search: Option<String>, limit: u32,
    json: Option<Vec<String>>, resp: ApiResponse, step: Step) -> bool
{
    let spec_text = repo_text(owner, repo);
    match status_error(resp.status, resp.status_text@, "repository '"@ + spec_text + "' not found"@, None,
        "failed to list labels for '"@ + spec_text + "'"@) {
        Some(m) => fails_with(step, m),
        None => match array_items(resp.body) {
            None => fails_with(step, "failed to parse labels response"@),
            Some(items) => {
                let listed = first_n(json_labels_matching(items@, search), limit as nat);
                if json is Some {
                    step matches Step::PrintJson(j) && (if asks_fields(json) {
                        j matches Json::Object(out) && out@.len() == 0
                    } else {
                        value_of(j) == JsonValue::Array(values_of(listed))
                    })
                } else {
                    prints(step, label_table(listed))
                }
            },
        },
    }
}

/// Reads the reply to the label listing.
pub fn list_result(spec: &RepoSplit, search: &Option<String>, limit: u32, json: &Option<Vec<String>>,
    resp: ApiResponse) -> (r: Step)
    ensures
        list_ending(spec.owner@, spec.repo@, *search, limit, *json, resp, r),
{
    let err = check_status(resp.status, resp.status_text.as_str(), quoted("repository '", spec, "' not found"), None,
        quoted("failed to list labels for '", spec, "'").as_str());
    if let Some(m) = err {
        return Step::Fail(m);
    }
    match take_items(resp.body) {
        None => Step::Fail("failed to parse labels response".to_owned()),
        Some(items) => {
            let listed = filter_json_labels(items, search, limit);
            if json.is_some() {
                Step::PrintJson(json_output(Json::Array(listed), json))
            } else {
                Step::Print(label_table_lines(&listed))
            }
        },
    }
}

/// The views of a text result.
pub open spec fn text_result(r: Result<String, String>) -> Result<Seq<char>, Seq<char>> {
    match r {
        Ok(t) => Ok(t@),
        Err(m) => Err(m@),
    }
}

/// What creating label `name` ends with: the line it prints, or the failure.
pub open spec fn creation(name: Seq<char>, color: Seq<char>, owner: Seq<char>, repo: Seq<char>, resp: ApiResponse) -> Result<Seq<char>, Seq<char>> {
    if resp.status == 422 {
        Err("label '"@ + name + "' already exists in '"@ + repo_text(owner, repo) + "'"@)
    } else if !is_success(resp.status) {
        Err("failed to create label '"@ + name + "': "@ + reply_message(resp.body, "creation failed"@))
    } else {
        match resp.body {
            None => Err("failed to parse response"@),
            Some(b) => Ok("\u{2713} Created label '"@ + or_text(str_member(b, "name"@), name) + "' (#"@
                + or_text(str_member(b, "color"@), color) + ")"@),
        }
    }
}

/// Reads the reply to a creation; `color` is the color asked for
/// (`ededed` when none was given).
pub fn create_result(name: &str, color: &str, spec: &RepoSplit, resp: &ApiResponse) -> (r: Result<String, String>)
    ensures
        text_result(r) == creation(name@, color@, spec.owner@, spec.repo@, *resp),
{
    if resp.status == 422 {
        let mut m = "label '".to_owned();
        m.append(name);
        m.append("' already exists in '");
        m.append(spec.owner.as_str());
        m.append("/");
        m.append(spec.repo.as_str());
        m.append("'");
        assert(m@ =~= "label '"@ + name@ + "' already exists in '"@ + repo_text(spec.owner@, spec.repo@) + "'"@);
        return Err(m);
    }
    if !(200 <= resp.status && resp.status <= 299) {
        let mut m = "failed to create label '".to_owned();
        m.append(name);
        m.append("': ");
        m.append(message_or(&resp.body, "creation failed").as_str());
        return Err(m);
    }
    match &resp.body {
        None => Err("failed to parse response".to_owned()),
        Some(b) => {
            let mut m = "\u{2713} Created label '".to_owned();
            m.append(text_or(b.str_member("name"), name));
            m.append("' (#");
            m.append(text_or(b.str_member("color"), color));
            m.append(")");
            Ok(m)
        },
    }
}

/// What editing label `name` ends with.
pub open spec fn edition(name: Seq<char>, owner: Seq<char>, repo: Seq<char>, resp: ApiResponse) -> Result<Seq<char>, Seq<char>> {
    if resp.status == 404 {
        Err("label '"@ + name + "' not found in '"@ + repo_text(owner, repo) + "'"@)
    } else if !is_success(resp.status) {
        Err("failed to edit label '"@ + name + "': "@ + reply_message(resp.body, "edit failed"@))
    } else {
        match resp.body {
            None => Err("failed to parse response"@),
            Some(b) => Ok("\u{2713} Updated label '"@ + or_text(str_member(b, "name"@), name) + "' (#"@
                + or_text(str_member(b, "color"@), dash()) + "): "@ + or_text(str_member(b, "description"@), dash())),
        }
    }
}

/// Reads the reply to an edit.
pub fn edit_result(name: &str, spec: &RepoSplit, resp: &ApiResponse) -> (r: Result<String, String>)
    ensures
        text_result(r) == edition(name@, spec.owner@, spec.repo@, *resp),
{
    if resp.status == 404 {
        let mut m = "label '".to_owned();
        m.append(name);
        m.append("' not found in '");
        m.append(spec.owner.as_str());
        m.append("/");
        m.append(spec.repo.as_str());
        m.append("'");
        assert(m@ =~= "label '"@ + name@ + "' not found in '"@ + repo_text(spec.owner@, spec.repo@) + "'"@);
        return Err(m);
    }
    if !(200 <= resp.status && resp.status <= 299) {
        let mut m = "failed to edit label '".to_owned();
        m.append(name);
        m.append("': ");
        m.append(message_or(&resp.body, "edit failed").as_str());
        return Err(m);
    }
    match &resp.body {
        None => Err("failed to parse response".to_owned()),
        Some(b) => {
            let mut m = "\u{2713} Updated label '".to_owned();
            m.append(text_or(b.str_member("name"), name));
            m.append("' (#");
            m.append(text_or(b.str_member("color"), "\u{2014}"));
            m.append("): ");
            m.append(text_or(b.str_member("description"), "\u{2014}"));
            Ok(m)
        },
    }
}

/// What deleting label `name` ends with: the line it prints (`None`:
/// nothing), or the failure.
pub open spec fn deletion(name: Seq<char>, owner: Seq<char>, repo: Seq<char>, status: u16, status_text: Seq<char>) -> Result<Option<Seq<char>>, Seq<char>> {
    if status == 404 {
        Err("label '"@ + name + "' not found in '"@ + repo_text(owner, repo) + "'"@)
    } else if status == 204 {
        Ok(Some("\u{2713} Deleted label '"@ + name + "'"@))
    } else if !is_success(status) {
        Err("failed to delete label '"@ + name + "': HTTP "@ + status_text)
    } else {
        Ok(None)
    }
}

/// Reads the reply to a deletion.
pub fn delete_result(name: &str, spec: &RepoSplit, status: u16, status_text: &str) -> (r: Result<Option<String>, String>)
    ensures
        match deletion(name@, spec.owner@, spec.repo@, status, status_text@) {
            Ok(Some(l)) => r matches Ok(Some(m)) && m@ == l,
            Ok(None) => r matches Ok(None),
            Err(e) => r matches Err(m) && m@ == e,
        },
{
    if status == 404 {
        let mut m = "label '".to_owned();
        m.append(name);
        m.append(quoted("' not found in '", spec, "'").as_str());
        Err(m)
    } else if status == 204 {
        let mut m = "\u{2713} Deleted label '".to_owned();
        m.append(name);
        m.append("'");
        Ok(Some(m))
    } else if !(200 <= status && status <= 299) {
        let mut m = "failed to delete label '".to_owned();
        m.append(name);
        m.append("': HTTP ");
        m.append(status_text);
        Err(m)
    } else {
        Ok(None)
    }
}

/// The question asked before deleting.
pub fn delete_prompt(name: &str, spec: &RepoSplit) -> (r: String)
    ensures
        r@ == "Delete label '"@ + name@ + "' from '"@ + repo_text(spec.owner@, spec.repo@) + "'? [y/N] "@,
{
    let mut m = "Delete label '".to_owned();
    m.append(name);
    m.append(quoted("' from '", spec, "'? [y/N] ").as_str());
    m
}

// ---------------------------------------------------------------------------
// gor label clone
// ---------------------------------------------------------------------------

/// Reads the source labels of a clone: no name reads as empty, no color
/// as `ededed`, no description as empty.
pub fn source_labels(items: &Vec<Json>) -> (r: Vec<Label>)
    ensures
        r@.len() == items@.len(),
        forall|i: int| 0 <= i < items@.len() ==> {
            &&& #[trigger] r@[i].name@ == or_text(str_member(items@[i], "name"@), Seq::empty())
            &&& r@[i].color@ == or_text(str_member(items@[i], "color"@), "ededed"@)
            &&& r@[i].description matches Some(d) && d@ == or_text(str_member(items@[i], "description"@), Seq::empty())
        },
{
    let mut out: Vec<Label> = Vec::new();
    let mut i: usize = 0;
    proof { reveal_strlit(""); }
    while i < items.len()
        invariant
            i <= items@.len(),
            out@.len() == i,
            ""@ == Seq::<char>::empty(),
            forall|k: int| 0 <= k < i ==> {
                &&& #[trigger] out@[k].name@ == or_text(str_member(items@[k], "name"@), Seq::empty())
                &&& out@[k].color@ == or_text(str_member(items@[k], "color"@), "ededed"@)
                &&& out@[k].description matches Some(d) && d@ == or_text(str_member(items@[k], "description"@), Seq::empty())
            },
        decreases items.len() - i,
    {
        let j = &items[i];
        out.push(Label {
            name: text_or(j.str_member("name"), "").to_owned(),
            color: text_or(j.str_member("color"), "ededed").to_owned(),
            description: Some(text_or(j.str_member("description"), "").to_owned()),
        });
        i = i + 1;
    }
    out
}

/// The names the target already has (labels without one are left out).
pub fn existing_names(items: &Vec<Json>) -> (r: Vec<String>)
    ensures
        texts_of(r@) == member_texts(items@, "name"@),
{
    collect_member_texts(items, "name")
}

/// The label names the target's listing reply gives: the names of the
/// items of an array body, whatever the status; none when there is no
/// reply or its body is no array.
pub open spec fn target_names(resp: Option<ApiResponse>) -> Seq<Seq<char>> {
    match resp {
        Some(r) => match array_items(r.body) {
            Some(items) => member_texts(items@, "name"@),
            None => Seq::empty(),
        },
        None => Seq::empty(),
    }
}

/// Reads [`target_names`].
pub fn target_names_of(resp: Option<ApiResponse>) -> (r: Vec<String>)
    ensures
        texts_of(r@) == target_names(resp),
{
    match resp {
        Some(rp) => match take_items(rp.body) {
            Some(items) => existing_names(&items),
            None => {
                let v: Vec<String> = Vec::new();
                assert(texts_of(v@) =~= Seq::<Seq<char>>::empty());
                v
            },
        },
        None => {
            let v: Vec<String> = Vec::new();
            assert(texts_of(v@) =~= Seq::<Seq<char>>::empty());
            v
        },
    }
}

/// The name a source item is cloned under (empty when it has none).
pub open spec fn source_name(j: Json) -> Seq<char> {
    or_text(str_member(j, "name"@), Seq::empty())
}

/// The number of source items whose name is not among `names`.
pub open spec fn new_items(items: Seq<Json>, names: Seq<Seq<char>>) -> nat
    decreases items.len(),
{
    if items.len() == 0 {
        0
    } else {
        new_items(items.drop_last(), names) + (if names.contains(source_name(items.last())) { 0nat } else { 1nat })
    }
}

/// The number of source items whose name is among `names`.
pub open spec fn known_items(items: Seq<Json>, names: Seq<Seq<char>>) -> nat
    decreases items.len(),
{
    if items.len() == 0 {
        0
    } else {
        known_items(items.drop_last(), names) + (if names.contains(source_name(items.last())) { 1nat } else { 0nat })
    }
}

proof fn lemma_counts_match_items(labels: Seq<Label>, items: Seq<Json>, existing: Seq<String>)
    requires
        labels.len() == items.len(),
        forall|i: int| 0 <= i < items.len() ==> #[trigger] labels[i].name@ == source_name(items[i]),
    ensures
        new_labels(labels, existing) == new_items(items, texts_of(existing)),
        known_labels(labels, existing) == known_items(items, texts_of(existing)),
    decreases items.len(),
{
    if items.len() > 0 {
        let l = labels.drop_last();
        let it = items.drop_last();
        assert forall|i: int| 0 <= i < it.len() implies #[trigger] l[i].name@ == source_name(it[i]) by {
            assert(l[i] == labels[i]);
            assert(it[i] == items[i]);
        }
        lemma_counts_match_items(l, it, existing);
        let n = labels.last().name@;
        assert(labels.last() == labels[items.len() - 1]);
        assert(n == source_name(items.last()));
        if has_name(existing, n) {
            let k = choose|k: int| 0 <= k < existing.len() && #[trigger] existing[k]@ == n;
            assert(texts_of(existing)[k] == n);
        }
        if texts_of(existing).contains(n) {
            let k = choose|k: int| 0 <= k < texts_of(existing).len() && texts_of(existing)[k] == n;
            assert(existing[k]@ == n);
        }
    }
}

/// A clone follows the two listing replies: given the labels read from the
/// source reply's items and the names read from the target's reply, every
/// source label is counted once, no more labels are created than the
/// target lacks and no more updated than it has, and nothing is updated
/// without `force`.
pub proof fn law_clone_follows_the_replies(items: Seq<Json>, labels: Seq<Label>, existing: Seq<String>,
    target: Option<ApiResponse>, force: bool, ok: Seq<bool>)
    requires
        labels.len() == items.len(),
        forall|i: int| 0 <= i < items.len() ==> #[trigger] labels[i].name@ == source_name(items[i]),
        texts_of(existing) == target_names(target),
        ok.len() == items.len(),
    ensures
        ({
            let steps = Seq::new(labels.len(), |i: int| clone_step_for(labels[i], existing, force));
            let (c, u, s) = clone_counts(steps, ok);
            &&& c + u + s == items.len()
            &&& c <= new_items(items, target_names(target))
            &&& u <= known_items(items, target_names(target))
            &&& !force ==> u == 0
        }),
{
    law_clone_accounts_for_every_label(labels, existing, force, ok);
    lemma_counts_match_items(labels, items, existing);
}

/// The failure reading the source's labels, if any.
pub open spec fn source_failure(owner: Seq<char>, repo: Seq<char>, resp: ApiResponse) -> Option<Seq<char>> {
    let t = repo_text(owner, repo);
    match status_error(resp.status, resp.status_text@, "source repository '"@ + t + "' not found"@, None,
        "failed to fetch labels from '"@ + t + "'"@) {
        Some(m) => Some(m),
        None => if array_items(resp.body) is None { Some("failed to parse labels response"@) } else { None },
    }
}

/// Reads the reply to the source listing: its labels, or the failure.
pub fn source_result(spec: &RepoSplit, resp: ApiResponse) -> (r: Result<Vec<Json>, String>)
    ensures
        match source_failure(spec.owner@, spec.repo@, resp) {
            Some(m) => r matches Err(e) && e@ == m,
            None => r matches Ok(v) && Some(v) == array_items(resp.body),
        },
{
    let err = check_status(resp.status, resp.status_text.as_str(), quoted("source repository '", spec, "' not found"), None,
        quoted("failed to fetch labels from '", spec, "'").as_str());
    if let Some(m) = err {
        return Err(m);
    }
    match take_items(resp.body) {
        None => Err("failed to parse labels response".to_owned()),
        Some(items) => Ok(items),
    }
}

/// The closing line of a clone.
pub open spec fn cloned_line(src_owner: Seq<char>, src_repo: Seq<char>, dst_owner: Seq<char>, dst_repo: Seq<char>,
    created: u32, updated: u32, skipped: u32) -> Seq<char>
{
    "\u{2713} Cloned labels from '"@ + repo_text(src_owner, src_repo) + "' to '"@ + repo_text(dst_owner, dst_repo) + "': "@
        + decimal(created as nat) + " created, "@ + decimal(updated as nat) + " updated, "@ + decimal(skipped as nat)
        + " skipped"@
}

/// Builds [`cloned_line`].
pub fn cloned_message(source: &RepoSplit, target: &RepoSplit, created: u32, updated: u32, skipped: u32) -> (r: String)
    ensures
        r@ == cloned_line(source.owner@, source.repo@, target.owner@, target.repo@, created, updated, skipped),
{
    let mut m = quoted("\u{2713} Cloned labels from '", source, "' to '");
    m.append(quoted("", target, "': ").as_str());
    m.append(decimal_string(created as u64).as_str());
    m.append(" created, ");
    m.append(decimal_string(updated as u64).as_str());
    m.append(" updated, ");
    m.append(decimal_string(skipped as u64).as_str());
    m.append(" skipped");
    proof { reveal_strlit(""); }
    m
}

} // verus!
