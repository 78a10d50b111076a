//! JSON documents as plain values.
//!
//! API responses and request bodies are JSON. The library reads and builds
//! them as [`Json`] values; turning text into these values and back is done
//! by the caller.
use vstd::prelude::*;
use crate::text::str_eq;

verus! {

/// A JSON number: its text, and its value when it is an integer that fits
/// in a `u64` (what `as_u64` reads).
#[derive(Debug)]
pub struct JsonNumber {
    /// The number as written.
    pub text: String,
    /// The value, when it is a non-negative integer within `u64`.
    pub as_u64: Option<u64>,
}

/// A JSON value.
#[derive(Debug)]
pub enum Json {
    Null,
    Bool(bool),
    Number(JsonNumber),
    String(String),
    Array(Vec<Json>),
    Object(Vec<(String, Json)>),
}

/// The mathematical value of a JSON document.
pub enum JsonValue {
    Null,
    Bool(bool),
    Number(Seq<char>),
    Str(Seq<char>),
    Array(Seq<JsonValue>),
    Object(Seq<(Seq<char>, JsonValue)>),
}

/// The value of a document.
pub open spec fn value_of(j: Json) -> JsonValue
    decreases j, 1int,
{
    match j {
        Json::Null => JsonValue::Null,
        Json::Bool(b) => JsonValue::Bool(b),
        Json::Number(n) => JsonValue::Number(n.text@),
        Json::String(s) => JsonValue::Str(s@),
        Json::Array(items) => JsonValue::Array(values_of(items@)),
        Json::Object(entries) => JsonValue::Object(members_of(entries@)),
    }
}

/// The values of a sequence of documents.
pub open spec fn values_of(items: Seq<Json>) -> Seq<JsonValue>
    decreases items, 0int,
{
    if items.len() == 0 {
        Seq::empty()
    } else {
        seq![value_of(items[0])] + values_of(items.subrange(1, items.len() as int))
    }
}

/// The members of an object, by value.
pub open spec fn members_of(entries: Seq<(String, Json)>) -> Seq<(Seq<char>, JsonValue)>
    decreases entries, 0int,
{
    if entries.len() == 0 {
        Seq::empty()
    } else {
        seq![(entries[0].0@, value_of(entries[0].1))] + members_of(entries.subrange(1, entries.len() as int))
    }
}

/// Appending a document appends its value.
pub proof fn lemma_values_push(s: Seq<Json>, x: Json)
    ensures
        values_of(s.push(x)) == values_of(s).push(value_of(x)),
    decreases s.len(),
{
    if s.len() > 0 {
        let t = s.push(x);
        assert(t.subrange(1, t.len() as int) == s.subrange(1, s.len() as int).push(x));
        lemma_values_push(s.subrange(1, s.len() as int), x);
        assert(t[0] == s[0]);
        assert(values_of(t) == seq![value_of(t[0])] + values_of(t.subrange(1, t.len() as int)));
        assert(values_of(s) == seq![value_of(s[0])] + values_of(s.subrange(1, s.len() as int)));
        assert(values_of(s.push(x)) =~= values_of(s).push(value_of(x)));
    } else {
        let t = s.push(x);
        assert(t.subrange(1, t.len() as int) == Seq::<Json>::empty());
        assert(t[0] == x);
        assert(values_of(t) == seq![value_of(t[0])] + values_of(t.subrange(1, t.len() as int)));
        assert(values_of(t) =~= values_of(s).push(value_of(x)));
    }
}

/// Appending an entry appends its member.
pub proof fn lemma_members_push(s: Seq<(String, Json)>, x: (String, Json))
    ensures
        members_of(s.push(x)) == members_of(s).push((x.0@, value_of(x.1))),
    decreases s.len(),
{
    if s.len() > 0 {
        let t = s.push(x);
        assert(t.subrange(1, t.len() as int) == s.subrange(1, s.len() as int).push(x));
        lemma_members_push(s.subrange(1, s.len() as int), x);
        assert(t[0] == s[0]);
        assert(members_of(t) == seq![(t[0].0@, value_of(t[0].1))] + members_of(t.subrange(1, t.len() as int)));
        assert(members_of(s) == seq![(s[0].0@, value_of(s[0].1))] + members_of(s.subrange(1, s.len() as int)));
        assert(members_of(s.push(x)) =~= members_of(s).push((x.0@, value_of(x.1))));
    } else {
        let t = s.push(x);
        assert(t.subrange(1, t.len() as int) == Seq::<(String, Json)>::empty());
        assert(t[0] == x);
        assert(members_of(t) == seq![(t[0].0@, value_of(t[0].1))] + members_of(t.subrange(1, t.len() as int)));
        assert(members_of(t) =~= members_of(s).push((x.0@, value_of(x.1))));
    }
}

/// A copy of a document, with the same value.
pub fn copy_json(j: &Json) -> (r: Json)
    ensures
        value_of(r) == value_of(*j),
    decreases j,
{
    match j {
        Json::Null => Json::Null,
        Json::Bool(b) => Json::Bool(*b),
        Json::Number(n) => Json::Number(JsonNumber { text: n.text.clone(), as_u64: n.as_u64 }),
        Json::String(s) => Json::String(s.clone()),
        Json::Array(items) => {
            let mut out: Vec<Json> = Vec::new();
            let mut i: usize = 0;
            while i < items.len()
                invariant
                    i <= items@.len(),
                    values_of(out@) == values_of(items@.take(i as int)),
                    *j == Json::Array(*items),
                decreases items@.len() - i,
            {
                proof {
                    assert(*j == Json::Array(*items));
                    assert(decreases_to!(*j => (*j)->Array_0));
                    assert(decreases_to!(*items => items@));
                    assert(decreases_to!(items@ => items@[i as int]));
                }
                let c = copy_json(&items[i]);
                proof {
                    lemma_values_push(out@, c);
                    lemma_values_push(items@.take(i as int), items@[i as int]);
                    assert(items@.take(i + 1) == items@.take(i as int).push(items@[i as int]));
                }
                out.push(c);
                i = i + 1;
            }
            assert(items@.take(items@.len() as int) == items@);
            Json::Array(out)
        },
        Json::Object(entries) => {
            let mut out: Vec<(String, Json)> = Vec::new();
            let mut i: usize = 0;
            while i < entries.len()
                invariant
                    i <= entries@.len(),
                    members_of(out@) == members_of(entries@.take(i as int)),
                    *j == Json::Object(*entries),
                decreases entries@.len() - i,
            {
                proof {
                    assert(*j == Json::Object(*entries));
                    assert(decreases_to!(*j => (*j)->Object_0));
                    assert(decreases_to!(*entries => entries@));
                    assert(decreases_to!(entries@ => entries@[i as int]));
                    assert(decreases_to!(entries@[i as int] => entries@[i as int].1));
                }
                let c = copy_json(&entries[i].1);
                let k = entries[i].0.clone();
                proof {
                    lemma_members_push(out@, (k, c));
                    lemma_members_push(entries@.take(i as int), entries@[i as int]);
                    assert(entries@.take(i + 1) == entries@.take(i as int).push(entries@[i as int]));
                }
                out.push((k, c));
                i = i + 1;
            }
            assert(entries@.take(entries@.len() as int) == entries@);
            Json::Object(out)
        },
    }
}

impl Clone for Json {
    fn clone(&self) -> (r: Json)
        ensures
            value_of(r) == value_of(*self),
    {
        copy_json(self)
    }
}

/// The value of a string.
pub open spec fn str_value(s: Seq<char>) -> JsonValue {
    JsonValue::Str(s)
}

/// The value of an array of strings.
pub open spec fn str_array_value(items: Seq<String>) -> JsonValue {
    JsonValue::Array(items.map_values(|s: String| JsonValue::Str(s@)))
}

/// A string document.
pub fn string_json(s: &str) -> (r: Json)
    ensures
        value_of(r) == str_value(s@),
        str_of(r) == Some(s@),
{
    Json::String(s.to_owned())
}

/// An array of the strings `items`.
pub fn string_array_json(items: &Vec<String>) -> (r: Json)
    ensures
        value_of(r) == str_array_value(items@),
{
    let mut out: Vec<Json> = Vec::new();
    let mut i: usize = 0;
    while i < items.len()
        invariant
            i <= items@.len(),
            values_of(out@) == items@.take(i as int).map_values(|s: String| JsonValue::Str(s@)),
        decreases items@.len() - i,
    {
        let e = Json::String(items[i].clone());
        proof {
            lemma_values_push(out@, e);
            assert(items@.take(i + 1).map_values(|s: String| JsonValue::Str(s@))
                =~= items@.take(i as int).map_values(|s: String| JsonValue::Str(s@)).push(JsonValue::Str(items@[i as int]@)));
        }
        out.push(e);
        i = i + 1;
    }
    assert(items@.take(items@.len() as int) == items@);
    Json::Array(out)
}

/// The value stored under `key` among `entries` (the first such entry).
pub open spec fn entry_value(entries: Seq<(String, Json)>, key: Seq<char>) -> Option<Json>
    decreases entries.len(),
{
    if entries.len() == 0 {
        None
    } else if entries[0].0@ == key {
        Some(entries[0].1)
    } else {
        entry_value(entries.drop_first(), key)
    }
}

/// `j[key]`: the member `key` of an object, `null` for anything else.
pub open spec fn member(j: Json, key: Seq<char>) -> Json {
    match j {
        Json::Object(entries) => match entry_value(entries@, key) {
            Some(v) => v,
            None => Json::Null,
        },
        _ => Json::Null,
    }
}

/// Whether `j` is an object with an entry under `key` (null or not).
pub open spec fn has_member(j: Json, key: Seq<char>) -> bool {
    j matches Json::Object(entries) && entry_value(entries@, key) is Some
}

/// The text of a string value.
pub open spec fn str_of(j: Json) -> Option<Seq<char>> {
    match j {
        Json::String(s) => Some(s@),
        _ => None,
    }
}

/// The value of a boolean.
pub open spec fn bool_of(j: Json) -> Option<bool> {
    match j {
        Json::Bool(b) => Some(b),
        _ => None,
    }
}

/// The value of a number that fits in a `u64`.
pub open spec fn u64_of(j: Json) -> Option<u64> {
    match j {
        Json::Number(n) => n.as_u64,
        _ => None,
    }
}

/// `j[key]` read as text.
pub open spec fn str_member(j: Json, key: Seq<char>) -> Option<Seq<char>> {
    str_of(member(j, key))
}

/// `j[key]` read as a boolean.
pub open spec fn bool_member(j: Json, key: Seq<char>) -> Option<bool> {
    bool_of(member(j, key))
}

/// `j[key]` read as a `u64`.
pub open spec fn u64_member(j: Json, key: Seq<char>) -> Option<u64> {
    u64_of(member(j, key))
}

fn find_entry<'a>(entries: &'a Vec<(String, Json)>, key: &str) -> (r: Option<&'a Json>)
    ensures
        match r {
            Some(v) => entry_value(entries@, key@) == Some(*v),
            None => entry_value(entries@, key@) is None,
        },
{
    let mut i: usize = 0;
    assert(entries@.skip(0) == entries@);
    while i < entries.len()
        invariant
            i <= entries@.len(),
            entry_value(entries@, key@) == entry_value(entries@.skip(i as int), key@),
        decreases entries.len() - i,
    {
        assert(entries@.skip(i as int)[0] == entries@[i as int]);
        if str_eq(entries[i].0.as_str(), key) {
            return Some(&entries[i].1);
        }
        assert(entries@.skip(i as int).drop_first() == entries@.skip(i + 1));
        i = i + 1;
    }
    None
}

/// Index of the first entry of `entries` under `key`.
pub open spec fn first_index(entries: Seq<(String, Json)>, key: Seq<char>) -> Option<int>
    decreases entries.len(),
{
    if entries.len() == 0 {
        None
    } else if entries[0].0@ == key {
        Some(0)
    } else {
        match first_index(entries.drop_first(), key) {
            Some(i) => Some(i + 1),
            None => None,
        }
    }
}

proof fn lemma_first_index(entries: Seq<(String, Json)>, key: Seq<char>)
    ensures
        match first_index(entries, key) {
            Some(i) => 0 <= i < entries.len() && entries[i].0@ == key
                && entry_value(entries, key) == Some(entries[i].1)
                && forall|j: int| 0 <= j < i ==> entries[j].0@ != key,
            None => entry_value(entries, key) is None
                && forall|j: int| 0 <= j < entries.len() ==> entries[j].0@ != key,
        },
    decreases entries.len(),
{
    if entries.len() > 0 && entries[0].0@ != key {
        lemma_first_index(entries.drop_first(), key);
        match first_index(entries.drop_first(), key) {
            Some(i) => {
                assert forall|j: int| 0 <= j < i + 1 implies entries[j].0@ != key by {
                    if j > 0 { assert(entries[j] == entries.drop_first()[j - 1]); }
                }
            },
            None => {
                assert forall|j: int| 0 <= j < entries.len() implies entries[j].0@ != key by {
                    if j > 0 { assert(entries[j] == entries.drop_first()[j - 1]); }
                }
            },
        }
    }
}

/// Replacing the value of an entry under another key leaves what `key` reads unchanged.
proof fn lemma_entry_value_update(entries: Seq<(String, Json)>, i: int, v: Json, key: Seq<char>)
    requires
        0 <= i < entries.len(),
        entries[i].0@ != key,
    ensures
        entry_value(entries.update(i, (entries[i].0, v)), key) == entry_value(entries, key),
    decreases entries.len(),
{
    let u = entries.update(i, (entries[i].0, v));
    if i > 0 {
        assert(u.drop_first() == entries.drop_first().update(i - 1, (entries[i].0, v)));
        lemma_entry_value_update(entries.drop_first(), i - 1, v, key);
    } else {
        assert(u.drop_first() == entries.drop_first());
    }
}

fn find_index(entries: &Vec<(String, Json)>, key: &str) -> (r: Option<usize>)
    ensures
        r matches Some(i) ==> first_index(entries@, key@) == Some(i as int),
        r is None ==> first_index(entries@, key@) is None,
{
    let mut i: usize = 0;
    assert(entries@.skip(0) == entries@);
    while i < entries.len()
        invariant
            i <= entries@.len(),
            forall|j: int| 0 <= j < i ==> entries@[j].0@ != key@,
        decreases entries.len() - i,
    {
        if str_eq(entries[i].0.as_str(), key) {
            proof { lemma_first_index(entries@, key@); }
            return Some(i);
        }
        i = i + 1;
    }
    proof { lemma_first_index(entries@, key@); }
    None
}

/// The fields kept of an object's `entries` when `fields` are asked for:
/// each field the object has, in the order asked, once.
pub open spec fn selection(entries: Seq<(String, Json)>, fields: Seq<String>) -> Seq<(String, Json)>
    decreases fields.len(),
{
    if fields.len() == 0 {
        Seq::empty()
    } else {
        let prev = selection(entries, fields.drop_last());
        let f = fields.last();
        match entry_value(entries, f@) {
            Some(v) => if entry_value(prev, f@) is Some { prev } else { prev.push((f, v)) },
            None => prev,
        }
    }
}

/// The keys under which `entries` hold something.
pub open spec fn has_entry(entries: Seq<(String, Json)>, key: Seq<char>) -> bool {
    entry_value(entries, key) is Some
}

/// What is printed for `--json` with field names: the asked fields of an
/// object, and an empty object for anything that is not one.
pub fn select_fields(value: Json, fields: &Vec<String>) -> (r: Json)
    ensures
        r matches Json::Object(out) && out@ == (match value {
            Json::Object(entries) => selection(entries@, fields@),
            _ => Seq::empty(),
        }),
{
    match value {
        Json::Object(entries) => {
            let ghost orig = entries@;
            let mut entries = entries;
            let mut out: Vec<(String, Json)> = Vec::new();
            let mut j: usize = 0;
            while j < fields.len()
                invariant
                    j <= fields@.len(),
                    entries@.len() == orig.len(),
                    forall|k: int| 0 <= k < orig.len() ==> #[trigger] entries@[k].0 == orig[k].0,
                    out@ == selection(orig, fields@.take(j as int)),
                    forall|key: Seq<char>| !has_entry(out@, key) ==> entry_value(entries@, key) == entry_value(orig, key),
                decreases fields.len() - j,
            {
                let f = &fields[j];
                assert(fields@.take(j + 1).drop_last() == fields@.take(j as int));
                let already = find_entry(&out, f.as_str()).is_some();
                if !already {
                    match find_index(&entries, f.as_str()) {
                        Some(i) => {
                            proof {
                                lemma_first_index(entries@, f@);
                                assert(entry_value(orig, f@) == Some(entries@[i as int].1));
                            }
                            let ghost before = entries@;
                            let (k, v) = entries.remove(i);
                            entries.insert(i, (k, Json::Null));
                            proof {
                                assert(entries@ == before.update(i as int, (before[i as int].0, Json::Null)));
                                assert forall|key: Seq<char>| !has_entry(out@.push((*f, v)), key)
                                    implies entry_value(entries@, key) == entry_value(orig, key) by {
                                    if key != f@ {
                                        lemma_entry_value_update(before, i as int, Json::Null, key);
                                        assert(!has_entry(out@, key)) by {
                                            lemma_push_keeps(out@, (*f, v), key);
                                        }
                                    } else {
                                        lemma_push_keeps(out@, (*f, v), key);
                                    }
                                }
                            }
                            out.push((f.clone(), v));
                        },
                        None => {
                            proof {
                                lemma_first_index(entries@, f@);
                                assert(entry_value(orig, f@) is None);
                            }
                        },
                    }
                }
                j = j + 1;
            }
            assert(fields@.take(fields@.len() as int) == fields@);
            Json::Object(out)
        },
        _ => Json::Object(Vec::new()),
    }
}

/// An entry pushed at the end is read only where no earlier entry has its key.
proof fn lemma_push_keeps(entries: Seq<(String, Json)>, e: (String, Json), key: Seq<char>)
    ensures
        entry_value(entries.push(e), key) == (match entry_value(entries, key) {
            Some(v) => Some(v),
            None => if e.0@ == key { Some(e.1) } else { None },
        }),
    decreases entries.len(),
{
    if entries.len() > 0 {
        assert(entries.push(e)[0] == entries[0]);
        assert(entries.push(e).drop_first() == entries.drop_first().push(e));
        lemma_push_keeps(entries.drop_first(), e, key);
    } else {
        assert(entries.push(e)[0] == e);
        assert(entries.push(e).drop_first() == Seq::<(String, Json)>::empty());
        assert(entry_value(Seq::<(String, Json)>::empty(), key) is None);
    }
}

/// Whether `key` is one of the field names asked for.
pub open spec fn asked(fields: Seq<String>, key: Seq<char>) -> bool {
    exists|j: int| 0 <= j < fields.len() && #[trigger] fields[j]@ == key
}

/// Selecting fields of an object keeps exactly the asked fields that the
/// object has, each with the object's value: under every key, the
/// selection holds what the object holds when the key was asked for, and
/// nothing otherwise (a missing field is left out).
pub proof fn law_selection_holds_asked_fields(entries: Seq<(String, Json)>, fields: Seq<String>, key: Seq<char>)
    ensures
        entry_value(selection(entries, fields), key) == (if asked(fields, key) {
            entry_value(entries, key)
        } else {
            None
        }),
    decreases fields.len(),
{
    if fields.len() == 0 {
        assert(!asked(fields, key));
    } else {
        let rest = fields.drop_last();
        let f = fields.last();
        let prev = selection(entries, rest);
        law_selection_holds_asked_fields(entries, rest, key);
        law_selection_holds_asked_fields(entries, rest, f@);
        assert(asked(rest, key) ==> asked(fields, key)) by {
            if asked(rest, key) {
                let j = choose|j: int| 0 <= j < rest.len() && #[trigger] rest[j]@ == key;
                assert(fields[j] == rest[j]);
            }
        }
        assert(f@ == key ==> asked(fields, key)) by {
            if f@ == key {
                assert(fields[fields.len() - 1]@ == key);
            }
        }
        assert(asked(fields, key) && f@ != key ==> asked(rest, key)) by {
            if asked(fields, key) && f@ != key {
                let j = choose|j: int| 0 <= j < fields.len() && #[trigger] fields[j]@ == key;
                assert(j != fields.len() - 1);
                assert(rest[j] == fields[j]);
            }
        }
        match entry_value(entries, f@) {
            Some(v) => {
                if entry_value(prev, f@) is None {
                    lemma_push_keeps(prev, (f, v), key);
                }
            },
            None => {},
        }
    }
}

impl Json {
    /// The member `key` of an object (`None` where `j[key]` is `null`
    /// because the member is missing or `self` is no object).
    pub fn get(&self, key: &str) -> (r: Option<&Json>)
        ensures
            match r {
                Some(v) => member(*self, key@) == *v,
                None => member(*self, key@) == Json::Null,
            },
            r is Some <==> has_member(*self, key@),
    {
        match self {
            Json::Object(entries) => find_entry(entries, key),
            _ => None,
        }
    }

    /// The text of a string value.
    pub fn as_str(&self) -> (r: Option<&str>)
        ensures
            match r {
                Some(s) => str_of(*self) == Some(s@),
                None => str_of(*self) is None,
            },
    {
        match self {
            Json::String(s) => Some(s.as_str()),
            _ => None,
        }
    }

    /// The value of a boolean.
    pub fn as_bool(&self) -> (r: Option<bool>)
        ensures
            r == bool_of(*self),
    {
        match self {
            Json::Bool(b) => Some(*b),
            _ => None,
        }
    }

    /// The value of a number that fits in a `u64`.
    pub fn as_u64(&self) -> (r: Option<u64>)
        ensures
            r == u64_of(*self),
    {
        match self {
            Json::Number(n) => n.as_u64,
            _ => None,
        }
    }

    /// `self[key]` as text.
    pub fn str_member(&self, key: &str) -> (r: Option<&str>)
        ensures
            match r {
                Some(s) => str_member(*self, key@) == Some(s@),
                None => str_member(*self, key@) is None,
            },
    {
        match self.get(key) {
            Some(v) => v.as_str(),
            None => None,
        }
    }

    /// `self[key]` as a boolean.
    pub fn bool_member(&self, key: &str) -> (r: Option<bool>)
        ensures
            r == bool_member(*self, key@),
    {
        match self.get(key) {
            Some(v) => v.as_bool(),
            None => None,
        }
    }

    /// `self[key]` as a `u64`.
    pub fn u64_member(&self, key: &str) -> (r: Option<u64>)
        ensures
            r == u64_member(*self, key@),
    {
        match self.get(key) {
            Some(v) => v.as_u64(),
            None => None,
        }
    }
}

/// The text members `key` of `items`, skipping items without one (what
/// `filter_map(|x| x[key].as_str())` collects).
pub open spec fn member_texts(items: Seq<Json>, key: Seq<char>) -> Seq<Seq<char>>
    decreases items.len(),
{
    if items.len() == 0 {
        Seq::empty()
    } else {
        let prev = member_texts(items.drop_last(), key);
        match str_member(items.last(), key) {
            Some(t) => prev.push(t),
            None => prev,
        }
    }
}

/// The text members `key` of the array `j[array_key]`; none when it is no array.
pub open spec fn nested_texts(j: Json, array_key: Seq<char>, key: Seq<char>) -> Seq<Seq<char>> {
    match member(j, array_key) {
        Json::Array(items) => member_texts(items@, key),
        _ => Seq::empty(),
    }
}

/// The texts of some strings.
pub open spec fn texts_of(v: Seq<String>) -> Seq<Seq<char>> {
    v.map_values(|s: String| s@)
}

/// Collects [`member_texts`].
pub fn collect_member_texts(items: &Vec<Json>, key: &str) -> (r: Vec<String>)
    ensures
        texts_of(r@) == member_texts(items@, key@),
{
    let mut out: Vec<String> = Vec::new();
    let mut i: usize = 0;
    while i < items.len()
        invariant
            i <= items@.len(),
            texts_of(out@) == member_texts(items@.take(i as int), key@),
        decreases items@.len() - i,
    {
        assert(items@.take(i + 1).drop_last() == items@.take(i as int));
        assert(items@.take(i + 1).last() == items@[i as int]);
        match items[i].str_member(key) {
            Some(t) => {
                out.push(t.to_owned());
                assert(texts_of(out@) =~= texts_of(out@.drop_last()).push(t@));
            },
            None => {},
        }
        i = i + 1;
    }
    assert(items@.take(items@.len() as int) == items@);
    out
}

/// Collects [`nested_texts`].
pub fn collect_nested_texts(j: &Json, array_key: &str, key: &str) -> (r: Vec<String>)
    ensures
        texts_of(r@) == nested_texts(*j, array_key@, key@),
{
    match j.get(array_key) {
        Some(Json::Array(items)) => collect_member_texts(items, key),
        _ => {
            let v: Vec<String> = Vec::new();
            assert(texts_of(v@) =~= Seq::<Seq<char>>::empty());
            v
        },
    }
}

/// Takes the member `key` out of a document (`null` when it has none).
pub fn take_member(j: Json, key: &str) -> (r: Json)
    ensures
        r == member(j, key@),
{
    match j {
        Json::Object(entries) => {
            let mut entries = entries;
            match find_index(&entries, key) {
                Some(i) => {
                    proof { lemma_first_index(entries@, key@); }
                    let (_k, v) = entries.remove(i);
                    v
                },
                None => {
                    proof { lemma_first_index(entries@, key@); }
                    Json::Null
                },
            }
        },
        _ => Json::Null,
    }
}

/// Appends member `key` to an object's entries.
pub fn push_member(entries: &mut Vec<(String, Json)>, key: &str, value: Json)
    ensures
        members_of(final(entries)@) == members_of(old(entries)@).push((key@, value_of(value))),
{
    let e = (key.to_owned(), value);
    proof { lemma_members_push(entries@, e); }
    entries.push(e);
}

/// A number written in decimal, by value.
pub open spec fn number_value(n: u64) -> JsonValue {
    JsonValue::Number(crate::output::decimal(n as nat))
}

/// The document of a whole number.
pub fn number_json(n: u64) -> (r: Json)
    ensures
        value_of(r) == number_value(n),
        u64_of(r) == Some(n),
{
    Json::Number(JsonNumber { text: crate::output::decimal_string(n), as_u64: Some(n) })
}

/// No entries yet.
pub fn no_members() -> (r: Vec<(String, Json)>)
    ensures
        members_of(r@) == Seq::<(Seq<char>, JsonValue)>::empty(),
{
    let r: Vec<(String, Json)> = Vec::new();
    assert(members_of(r@) =~= Seq::<(Seq<char>, JsonValue)>::empty());
    r
}

/// The member `(key, value)` when `value` is given; nothing otherwise.
pub open spec fn optional_member(key: Seq<char>, value: Option<String>) -> Seq<(Seq<char>, JsonValue)> {
    match value {
        Some(v) => seq![(key, str_value(v@))],
        None => Seq::empty(),
    }
}

} // verus!
