//! Repository labels: listing filters, request bodies, and cloning.
use vstd::prelude::*;
use vstd::string::*;
use crate::json::{Json, str_member, member, str_of};
use crate::cmd::flow::{message_or, reply_message};
use crate::error::GorError;
use crate::org::{has_optional_text, optional_text};
use crate::request::{ApiRequest, ApiResponse, Method, RequestBody, is_success};
use crate::output::{decimal, decimal_string};
use crate::project::page_size;
use crate::repository::{RepoSplit, repo_prefix, repo_path};
use crate::text::{to_lowercase, lowercased, chars_of, find_in, find_first, str_eq};
use crate::util::{urlencode_label_name, label_encoded};

verus! {

/// A GitHub repository label (the fields this tool reads).
#[derive(Debug)]
pub struct Label {
    /// The label's display name.
    pub name: String,
    /// The hex color code (without `#`).
    pub color: String,
    /// An optional description of the label.
    pub description: Option<String>,
}

impl Clone for Label {
    fn clone(&self) -> (r: Label)
        ensures
            r == *self,
    {
        Label {
            name: self.name.clone(),
            color: self.color.clone(),
            description: match &self.description {
                Some(d) => Some(d.clone()),
                None => None,
            },
        }
    }
}

/// Options for listing labels.
#[derive(Debug)]
pub struct ListOptions {
    /// Keep labels whose name contains this text (case-insensitive).
    pub search: Option<String>,
    /// Maximum number of labels to return.
    pub limit: u32,
}

impl Default for ListOptions {
    fn default() -> (o: ListOptions)
        ensures
            o.search is None,
            o.limit == 0,
    {
        ListOptions { search: None, limit: 0 }
    }
}

/// Options for creating a label.
#[derive(Debug)]
pub struct CreateOptions {
    /// The hex color code (without `#`); `ededed` when absent.
    pub color: Option<String>,
    /// An optional description.
    pub description: Option<String>,
}

impl Default for CreateOptions {
    fn default() -> (o: CreateOptions)
        ensures
            o.color is None,
            o.description is None,
    {
        CreateOptions { color: None, description: None }
    }
}

/// Options for updating a label.
#[derive(Debug)]
pub struct UpdateOptions {
    /// New name for the label.
    pub new_name: Option<String>,
    /// New hex color code.
    pub color: Option<String>,
    /// New description.
    pub description: Option<String>,
}

impl Default for UpdateOptions {
    fn default() -> (o: UpdateOptions)
        ensures
            o.new_name is None,
            o.color is None,
            o.description is None,
    {
        UpdateOptions { new_name: None, color: None, description: None }
    }
}

/// Result of cloning labels.
#[derive(Debug, Clone, Copy, PartialEq, Eq, Structural)]
pub struct CloneResult {
    /// Number of labels created in the target repo.
    pub created: u32,
    /// Number of labels updated in the target repo.
    pub updated: u32,
    /// Number of labels skipped (already there without `force`, or failed).
    pub skipped: u32,
}

// ---------------------------------------------------------------------------
// Listing
// ---------------------------------------------------------------------------

/// The API path that lists a repository's labels, `min(limit, 100)` a page.
pub open spec fn labels_list_path(owner: Seq<char>, repo: Seq<char>, limit: u32) -> Seq<char> {
    repo_prefix(owner, repo) + "/labels?per_page="@ + decimal(page_size(limit))
}

/// Builds the path that lists a repository's labels.
pub fn list_path(spec: &RepoSplit, opts: &ListOptions) -> (r: String)
    ensures
        r@ == labels_list_path(spec.owner@, spec.repo@, opts.limit),
{
    let mut p = repo_path(spec);
    p.append("/labels?per_page=");
    let n: u32 = if opts.limit < 100 { opts.limit } else { 100 };
    let d = decimal_string(n as u64);
    p.append(d.as_str());
    p
}

/// Whether a label passes the search filter: its lower-cased name contains
/// the lower-cased query.
pub open spec fn label_matches(l: Label, search: Option<String>) -> bool {
    match search {
        None => true,
        Some(q) => find_first(lowercased(l.name@), lowercased(q@)) is Some,
    }
}

/// The labels of `ls` that pass the search filter, in order.
pub open spec fn labels_matching(ls: Seq<Label>, search: Option<String>) -> Seq<Label>
    decreases ls.len(),
{
    if ls.len() == 0 {
        Seq::<Label>::empty()
    } else {
        let rest = labels_matching(ls.drop_last(), search);
        if label_matches(ls.last(), search) { rest.push(ls.last()) } else { rest }
    }
}

/// At most the first `n` items of `s`.
pub open spec fn first_n<T>(s: Seq<T>, n: nat) -> Seq<T> {
    if n < s.len() { s.take(n as int) } else { s }
}

/// The labels a listing shows: those that pass the search, at most `limit`.
pub open spec fn listed_labels(ls: Seq<Label>, opts: ListOptions) -> Seq<Label> {
    first_n(labels_matching(ls, opts.search), opts.limit as nat)
}

/// Applies the client-side search filter and the limit to fetched labels.
pub fn filter_labels(labels: Vec<Label>, opts: &ListOptions) -> (r: Vec<Label>)
    ensures
        r@ == listed_labels(labels@, *opts),
{
    let query = match &opts.search {
        Some(q) => Some(chars_of(to_lowercase(q.as_str()).as_str())),
        None => None,
    };
    let mut out: Vec<Label> = Vec::new();
    let mut i: usize = 0;
    while i < labels.len()
        invariant
            i <= labels@.len(),
            match opts.search {
                Some(q) => query matches Some(v) && v@ == lowercased(q@),
                None => query is None,
            },
            out@ == labels_matching(labels@.take(i as int), opts.search),
        decreases labels.len() - i,
    {
        let keep = match &query {
            Some(q) => {
                let name = chars_of(to_lowercase(labels[i].name.as_str()).as_str());
                find_in(&name, q).is_some()
            },
            None => true,
        };
        assert(labels@.take(i + 1).drop_last() == labels@.take(i as int));
        if keep {
            out.push(labels[i].clone());
        }
        i = i + 1;
    }
    assert(labels@.take(labels@.len() as int) == labels@);
    out.truncate(opts.limit as usize);
    out
}

// ---------------------------------------------------------------------------
// Request bodies and paths
// ---------------------------------------------------------------------------

fn json_string(s: &str) -> (j: Json)
    ensures
        str_of(j) == Some(s@),
{
    Json::String(s.to_owned())
}

/// The keys and text values of a JSON object's entries.
pub open spec fn text_entries(entries: Seq<(String, Json)>) -> Seq<(Seq<char>, Option<Seq<char>>)> {
    entries.map_values(|e: (String, Json)| (e.0@, str_of(e.1)))
}

/// One text entry of a request body.
pub open spec fn text_entry(key: Seq<char>, value: Seq<char>) -> Seq<(Seq<char>, Option<Seq<char>>)> {
    seq![(key, Some(value))]
}

/// A text entry present only when `value` is given.
pub open spec fn optional_entry(key: Seq<char>, value: Option<String>) -> Seq<(Seq<char>, Option<Seq<char>>)> {
    match value {
        Some(v) => text_entry(key, v@),
        None => Seq::empty(),
    }
}

/// The color a new label gets: the given one, else `ededed`.
pub open spec fn create_color(opts: CreateOptions) -> Seq<char> {
    match opts.color {
        Some(c) => c@,
        None => "ededed"@,
    }
}

/// The body that creates label `name`: its name, its color, and its
/// description when one is given.
pub open spec fn create_entries(name: Seq<char>, opts: CreateOptions) -> Seq<(Seq<char>, Option<Seq<char>>)> {
    text_entry("name"@, name) + text_entry("color"@, create_color(opts)) + optional_entry("description"@, opts.description)
}

fn push_text(entries: &mut Vec<(String, Json)>, key: &str, value: &str)
    ensures
        text_entries(final(entries)@) == text_entries(old(entries)@) + text_entry(key@, value@),
{
    entries.push((key.to_owned(), json_string(value)));
    proof {
        assert(text_entries(entries@) =~= text_entries(old(entries)@) + text_entry(key@, value@));
    }
}

/// Builds the body that creates label `name`.
pub fn create_body(name: &str, opts: &CreateOptions) -> (j: Json)
    ensures
        j matches Json::Object(entries) && text_entries(entries@) == create_entries(name@, *opts),
{
    let mut entries: Vec<(String, Json)> = Vec::new();
    push_text(&mut entries, "name", name);
    match &opts.color {
        Some(c) => push_text(&mut entries, "color", c.as_str()),
        None => push_text(&mut entries, "color", "ededed"),
    }
    if let Some(d) = &opts.description {
        push_text(&mut entries, "description", d.as_str());
    }
    proof {
        assert(text_entries(Seq::<(String, Json)>::empty()) =~= Seq::<(Seq<char>, Option<Seq<char>>)>::empty());
        assert(text_entries(entries@) =~= create_entries(name@, *opts));
    }
    Json::Object(entries)
}

/// Whether an update asks for no change at all.
pub open spec fn update_is_empty(opts: UpdateOptions) -> bool {
    opts.new_name is None && opts.color is None && opts.description is None
}

/// The message for an update that changes nothing.
pub open spec fn no_changes_message() -> Seq<char> {
    "no changes specified; use --rename, --color, or --description"@
}

/// The body of a label update: `new_name`, `color` and `description`, each
/// when given.
pub open spec fn update_entries(opts: UpdateOptions) -> Seq<(Seq<char>, Option<Seq<char>>)> {
    optional_entry("new_name"@, opts.new_name) + optional_entry("color"@, opts.color)
        + optional_entry("description"@, opts.description)
}

/// Builds the body of a label update; an invalid-input error when it
/// changes nothing.
pub fn update_body(opts: &UpdateOptions) -> (r: Result<Json, GorError>)
    ensures
        update_is_empty(*opts) ==> (r matches Err(GorError::InvalidInput(m)) && m@ == no_changes_message()),
        !update_is_empty(*opts) ==> (r matches Ok(Json::Object(entries)) && text_entries(entries@) == update_entries(*opts)),
{
    let mut entries: Vec<(String, Json)> = Vec::new();
    if let Some(n) = &opts.new_name {
        push_text(&mut entries, "new_name", n.as_str());
    }
    if let Some(c) = &opts.color {
        push_text(&mut entries, "color", c.as_str());
    }
    if let Some(d) = &opts.description {
        push_text(&mut entries, "description", d.as_str());
    }
    proof {
        assert(text_entries(Seq::<(String, Json)>::empty()) =~= Seq::<(Seq<char>, Option<Seq<char>>)>::empty());
        assert(text_entries(entries@) =~= update_entries(*opts));
    }
    if entries.len() == 0 {
        return Err(GorError::InvalidInput("no changes specified; use --rename, --color, or --description".to_owned()));
    }
    Ok(Json::Object(entries))
}

/// The API path of label `name` in a repository.
pub open spec fn label_item_path(owner: Seq<char>, repo: Seq<char>, name: Seq<char>) -> Seq<char> {
    repo_prefix(owner, repo) + "/labels/"@ + label_encoded(name)
}

/// Builds the API path of label `name`.
pub fn label_path(spec: &RepoSplit, name: &str) -> (r: String)
    ensures
        r@ == label_item_path(spec.owner@, spec.repo@, name@),
{
    let mut p = repo_path(spec);
    p.append("/labels/");
    let e = urlencode_label_name(name);
    p.append(e.as_str());
    p
}

/// The request that updates label `name`: a PATCH of its path with the
/// changes as a JSON body; an invalid-input error, and no request, when the
/// update changes nothing.
pub fn update_request(spec: &RepoSplit, name: &str, opts: &UpdateOptions) -> (r: Result<ApiRequest, GorError>)
    ensures
        update_is_empty(*opts) ==> (r matches Err(GorError::InvalidInput(m)) && m@ == no_changes_message()),
        !update_is_empty(*opts) ==> (r matches Ok(req) && req.method == Method::Patch
            && req.path@ == label_item_path(spec.owner@, spec.repo@, name@)
            && (req.body matches RequestBody::JsonBytes(Json::Object(entries))
                && text_entries(entries@) == update_entries(*opts))),
{
    match update_body(opts) {
        Err(e) => Err(e),
        Ok(body) => Ok(ApiRequest { method: Method::Patch, path: label_path(spec, name), body: RequestBody::JsonBytes(body) }),
    }
}

// ---------------------------------------------------------------------------
// Cloning
// ---------------------------------------------------------------------------

/// What cloning does with one source label.
#[derive(Debug)]
pub enum CloneStep {
    /// Create it in the target with this color and description.
    Create { name: String, opts: CreateOptions },
    /// Update the target's label of that name.
    Update { name: String, opts: UpdateOptions },
    /// Leave it.
    Skip,
}

/// Whether `names` holds `n`.
pub open spec fn has_name(names: Seq<String>, n: Seq<char>) -> bool {
    exists|i: int| 0 <= i < names.len() && #[trigger] names[i]@ == n
}

/// What cloning does with source label `l`: a label the target already has
/// is updated when `force` is set and skipped otherwise; a new one is
/// created. Color and description come from the source.
pub open spec fn clone_step_for(l: Label, existing: Seq<String>, force: bool) -> CloneStep {
    if has_name(existing, l.name@) {
        if force {
            CloneStep::Update {
                name: l.name,
                opts: UpdateOptions { new_name: None, color: Some(l.color), description: l.description },
            }
        } else {
            CloneStep::Skip
        }
    } else {
        CloneStep::Create { name: l.name, opts: CreateOptions { color: Some(l.color), description: l.description } }
    }
}

/// Cloning carries each source label over whole: a label the target lacks
/// is created under its name with its color and its description (the
/// request body holds all three); one the target has is, with `force`,
/// updated to its color and description under its name, and otherwise left.
pub proof fn law_clone_carries_the_source_label(l: Label, existing: Seq<String>, force: bool)
    ensures
        !has_name(existing, l.name@) ==> (clone_step_for(l, existing, force) matches CloneStep::Create { name, opts }
            && name@ == l.name@
            && create_entries(name@, opts) == text_entry("name"@, l.name@) + text_entry("color"@, l.color@)
                + optional_entry("description"@, l.description)
            && opts.description == l.description),
        has_name(existing, l.name@) && force ==> (clone_step_for(l, existing, force) matches CloneStep::Update { name, opts }
            && name@ == l.name@ && opts.new_name is None
            && opts.color == Some(l.color) && opts.description == l.description),
        has_name(existing, l.name@) && !force ==> clone_step_for(l, existing, force) is Skip,
{
}

fn names_contain(names: &Vec<String>, n: &str) -> (b: bool)
    ensures
        b == has_name(names@, n@),
{
    let mut i: usize = 0;
    while i < names.len()
        invariant
            i <= names@.len(),
            forall|j: int| 0 <= j < i ==> names@[j]@ != n@,
        decreases names.len() - i,
    {
        if str_eq(names[i].as_str(), n) {
            return true;
        }
        i = i + 1;
    }
    false
}

/// Plans a clone: one step per source label, in order.
pub fn clone_plan(source: &Vec<Label>, existing: &Vec<String>, force: bool) -> (steps: Vec<CloneStep>)
    ensures
        steps@.len() == source@.len(),
        forall|i: int| 0 <= i < source@.len() ==> #[trigger] steps@[i] == clone_step_for(source@[i], existing@, force),
{
    let mut steps: Vec<CloneStep> = Vec::new();
    let mut i: usize = 0;
    while i < source.len()
        invariant
            i <= source@.len(),
            steps@.len() == i,
            forall|j: int| 0 <= j < i ==> #[trigger] steps@[j] == clone_step_for(source@[j], existing@, force),
        decreases source.len() - i,
    {
        let l = source[i].clone();
        let step = if names_contain(existing, l.name.as_str()) {
            if force {
                CloneStep::Update {
                    name: l.name,
                    opts: UpdateOptions { new_name: None, color: Some(l.color), description: l.description },
                }
            } else {
                CloneStep::Skip
            }
        } else {
            CloneStep::Create { name: l.name, opts: CreateOptions { color: Some(l.color), description: l.description } }
        };
        steps.push(step);
        i = i + 1;
    }
    steps
}

/// The counts of a clone whose steps had the given outcomes (`true` for a
/// create or update that succeeded): skipped steps and failed requests count
/// as skipped.
pub open spec fn clone_counts(steps: Seq<CloneStep>, ok: Seq<bool>) -> (nat, nat, nat)
    decreases steps.len(),
{
    if steps.len() == 0 {
        (0, 0, 0)
    } else {
        let (c, u, s) = clone_counts(steps.drop_last(), ok.take(steps.len() - 1));
        let good = ok[steps.len() - 1];
        match steps.last() {
            CloneStep::Create { .. } => if good { (c + 1, u, s) } else { (c, u, s + 1) },
            CloneStep::Update { .. } => if good { (c, u + 1, s) } else { (c, u, s + 1) },
            CloneStep::Skip => (c, u, s + 1),
        }
    }
}

/// Every step is counted exactly once.
pub proof fn lemma_counts_total(steps: Seq<CloneStep>, ok: Seq<bool>)
    requires
        ok.len() == steps.len(),
    ensures
        clone_counts(steps, ok).0 + clone_counts(steps, ok).1 + clone_counts(steps, ok).2 == steps.len(),
    decreases steps.len(),
{
    if steps.len() > 0 {
        lemma_counts_total(steps.drop_last(), ok.take(steps.len() - 1));
    }
}

/// Tallies a clone from its steps and their outcomes.
pub fn tally(steps: &Vec<CloneStep>, ok: &Vec<bool>) -> (r: CloneResult)
    requires
        ok@.len() == steps@.len(),
        steps@.len() <= u32::MAX,
    ensures
        (r.created as nat, r.updated as nat, r.skipped as nat) == clone_counts(steps@, ok@),
        r.created + r.updated + r.skipped == steps@.len(),
{
    let mut r = CloneResult { created: 0, updated: 0, skipped: 0 };
    let mut i: usize = 0;
    while i < steps.len()
        invariant
            i <= steps@.len(),
            ok@.len() == steps@.len(),
            steps@.len() <= u32::MAX,
            (r.created as nat, r.updated as nat, r.skipped as nat) == clone_counts(steps@.take(i as int), ok@.take(i as int)),
            r.created + r.updated + r.skipped == i,
        decreases steps.len() - i,
    {
        proof {
            assert(steps@.take(i + 1).drop_last() == steps@.take(i as int));
            assert(ok@.take(i + 1).take(i as int) == ok@.take(i as int));
            assert(steps@.take(i + 1).last() == steps@[i as int]);
        }
        match &steps[i] {
            CloneStep::Create { .. } => {
                if ok[i] { r.created = r.created + 1; } else { r.skipped = r.skipped + 1; }
            },
            CloneStep::Update { .. } => {
                if ok[i] { r.updated = r.updated + 1; } else { r.skipped = r.skipped + 1; }
            },
            CloneStep::Skip => {
                r.skipped = r.skipped + 1;
            },
        }
        i = i + 1;
    }
    assert(steps@.take(steps@.len() as int) == steps@);
    assert(ok@.take(ok@.len() as int) == ok@);
    r
}

/// The number of source labels the target does not have yet.
pub open spec fn new_labels(source: Seq<Label>, existing: Seq<String>) -> nat
    decreases source.len(),
{
    if source.len() == 0 {
        0
    } else {
        new_labels(source.drop_last(), existing) + (if has_name(existing, source.last().name@) { 0nat } else { 1nat })
    }
}

/// The number of source labels the target already has.
pub open spec fn known_labels(source: Seq<Label>, existing: Seq<String>) -> nat
    decreases source.len(),
{
    if source.len() == 0 {
        0
    } else {
        known_labels(source.drop_last(), existing) + (if has_name(existing, source.last().name@) { 1nat } else { 0nat })
    }
}

/// Cloning counts every source label exactly once; it creates no more labels
/// than the target lacks and updates no more than it has; without `force`
/// nothing is updated, and labels the target already has are all skipped.
pub proof fn law_clone_accounts_for_every_label(source: Seq<Label>, existing: Seq<String>, force: bool, ok: Seq<bool>)
    requires
        ok.len() == source.len(),
    ensures
        ({
            let steps = Seq::new(source.len(), |i: int| clone_step_for(source[i], existing, force));
            let (c, u, s) = clone_counts(steps, ok);
            &&& c + u + s == source.len()
            &&& c <= new_labels(source, existing)
            &&& u <= known_labels(source, existing)
            &&& !force ==> u == 0
        }),
{
    let steps = Seq::new(source.len(), |i: int| clone_step_for(source[i], existing, force));
    lemma_counts_total(steps, ok);
    lemma_counts_bounded(steps, ok, source, existing, force);
    if !force {
        lemma_no_updates_without_force(steps, ok, source, existing);
    }
}

proof fn lemma_counts_bounded(steps: Seq<CloneStep>, ok: Seq<bool>, source: Seq<Label>, existing: Seq<String>, force: bool)
    requires
        steps.len() == source.len(),
        forall|i: int| 0 <= i < steps.len() ==> #[trigger] steps[i] == clone_step_for(source[i], existing, force),
    ensures
        clone_counts(steps, ok).0 <= new_labels(source, existing),
        clone_counts(steps, ok).1 <= known_labels(source, existing),
    decreases steps.len(),
{
    if steps.len() > 0 {
        let p = steps.drop_last();
        assert forall|i: int| 0 <= i < p.len() implies #[trigger] p[i] == clone_step_for(source.drop_last()[i], existing, force) by {
            assert(p[i] == steps[i]);
        }
        lemma_counts_bounded(p, ok.take(steps.len() - 1), source.drop_last(), existing, force);
        assert(steps.last() == clone_step_for(source[steps.len() - 1], existing, force));
        assert(source.last() == source[steps.len() - 1]);
    }
}

proof fn lemma_no_updates_without_force(steps: Seq<CloneStep>, ok: Seq<bool>, source: Seq<Label>, existing: Seq<String>)
    requires
        steps.len() == source.len(),
        forall|i: int| 0 <= i < steps.len() ==> #[trigger] steps[i] == clone_step_for(source[i], existing, false),
    ensures
        clone_counts(steps, ok).1 == 0,
    decreases steps.len(),
{
    if steps.len() > 0 {
        let p = steps.drop_last();
        assert forall|i: int| 0 <= i < p.len() implies #[trigger] p[i] == clone_step_for(source.drop_last()[i], existing, false) by {
            assert(p[i] == steps[i]);
        }
        lemma_no_updates_without_force(p, ok.take(steps.len() - 1), source.drop_last(), existing);
        assert(steps.last() == clone_step_for(source[steps.len() - 1], existing, false));
    }
}

/// Whether a value reads as a label: an object with a string `name` and
/// `color`, and a `description` that is a string, null or absent.
pub open spec fn is_label(j: Json) -> bool {
    &&& j is Object
    &&& str_member(j, "name"@) is Some
    &&& str_member(j, "color"@) is Some
    &&& optional_text(j, "description"@)
}

/// Tests [`is_label`].
pub fn label_value(j: &Json) -> (b: bool)
    ensures
        b == is_label(*j),
{
    match j {
        Json::Object(_) => j.str_member("name").is_some() && j.str_member("color").is_some()
            && has_optional_text(j, "description"),
        _ => false,
    }
}

/// `'OWNER/REPO'` as messages quote a repository.
pub open spec fn quoted_repo(owner: Seq<char>, repo: Seq<char>) -> Seq<char> {
    "'"@ + owner + "/"@ + repo + "'"@
}

fn push_quoted_repo(m: &mut String, spec: &RepoSplit)
    ensures
        final(m)@ == old(m)@ + quoted_repo(spec.owner@, spec.repo@),
{
    m.append("'");
    m.append(spec.owner.as_str());
    m.append("/");
    m.append(spec.repo.as_str());
    m.append("'");
    assert(m@ =~= old(m)@ + quoted_repo(spec.owner@, spec.repo@));
}

/// Reads the reply to creating label `name` in a repository.
pub fn create_outcome(name: &str, spec: &RepoSplit, resp: ApiResponse) -> (r: Result<Json, GorError>)
    ensures
        resp.status == 422 ==> (r matches Err(GorError::InvalidInput(m))
            && m@ == "label '"@ + name@ + "' already exists in "@ + quoted_repo(spec.owner@, spec.repo@)),
        resp.status != 422 && !is_success(resp.status) ==> (r matches Err(GorError::InvalidInput(m))
            && m@ == "failed to create label '"@ + name@ + "': "@ + reply_message(resp.body, "creation failed"@)),
        is_success(resp.status) && !(resp.body matches Some(b) && is_label(b)) ==> (r matches Err(GorError::Http(m))
            && m@ == "error decoding response body"@),
        is_success(resp.status) ==> (resp.body matches Some(b) ==> (is_label(b) ==> r == Ok::<Json, GorError>(b))),
{
    if resp.status == 422 {
        let mut m = "label '".to_owned();
        m.append(name);
        m.append("' already exists in ");
        push_quoted_repo(&mut m, spec);
        return Err(GorError::InvalidInput(m));
    }
    if !(200 <= resp.status && resp.status <= 299) {
        let mut m = "failed to create label '".to_owned();
        m.append(name);
        m.append("': ");
        m.append(message_or(&resp.body, "creation failed").as_str());
        return Err(GorError::InvalidInput(m));
    }
    match resp.body {
        Some(b) => if label_value(&b) {
            Ok(b)
        } else {
            Err(GorError::Http("error decoding response body".to_owned()))
        },
        None => Err(GorError::Http("error decoding response body".to_owned())),
    }
}

/// Reads the reply to editing label `name` in a repository.
pub fn update_outcome(name: &str, spec: &RepoSplit, resp: ApiResponse) -> (r: Result<Json, GorError>)
    ensures
        resp.status == 404 ==> (r matches Err(GorError::NotFound(m))
            && m@ == "label '"@ + name@ + "' not found in "@ + quoted_repo(spec.owner@, spec.repo@)),
        resp.status != 404 && !is_success(resp.status) ==> (r matches Err(GorError::InvalidInput(m))
            && m@ == "failed to edit label '"@ + name@ + "': "@ + reply_message(resp.body, "edit failed"@)),
        is_success(resp.status) && !(resp.body matches Some(b) && is_label(b)) ==> (r matches Err(GorError::Http(m))
            && m@ == "error decoding response body"@),
        is_success(resp.status) ==> (resp.body matches Some(b) ==> (is_label(b) ==> r == Ok::<Json, GorError>(b))),
{
    if resp.status == 404 {
        let mut m = "label '".to_owned();
        m.append(name);
        m.append("' not found in ");
        push_quoted_repo(&mut m, spec);
        return Err(GorError::NotFound(m));
    }
    if !(200 <= resp.status && resp.status <= 299) {
        let mut m = "failed to edit label '".to_owned();
        m.append(name);
        m.append("': ");
        m.append(message_or(&resp.body, "edit failed").as_str());
        return Err(GorError::InvalidInput(m));
    }
    match resp.body {
        Some(b) => if label_value(&b) {
            Ok(b)
        } else {
            Err(GorError::Http("error decoding response body".to_owned()))
        },
        None => Err(GorError::Http("error decoding response body".to_owned())),
    }
}

/// Reads a label out of a value: `None` unless it reads as one (see
/// [`is_label`]); a null or absent description reads as none.
pub fn decode_label(j: &Json) -> (r: Option<Label>)
    ensures
        r is Some <==> is_label(*j),
        r matches Some(l) ==> {
            &&& Some(l.name@) == str_member(*j, "name"@)
            &&& Some(l.color@) == str_member(*j, "color"@)
            &&& match l.description {
                Some(d) => str_member(*j, "description"@) == Some(d@),
                None => str_member(*j, "description"@) is None,
            }
        },
{
    if !label_value(j) {
        return None;
    }
    match (j.str_member("name"), j.str_member("color")) {
        (Some(n), Some(c)) => Some(Label {
            name: n.to_owned(),
            color: c.to_owned(),
            description: match j.str_member("description") {
                Some(d) => Some(d.to_owned()),
                None => None,
            },
        }),
        _ => None,
    }
}

} // verus!
