//! A JSON document tree: the shape of the rendered extension manifest and of
//! free-form column payloads.
use vstd::prelude::*;

verus! {

broadcast use vstd::std_specs::vec::group_vec_axioms;

/// A JSON value. Numbers are kept as their decimal text; object entries keep their order.
pub enum JsonValue {
    Null,
    Bool(bool),
    Number(String),
    Str(String),
    Array(Vec<JsonValue>),
    Object(Vec<(String, JsonValue)>),
}

/// The mathematical model of a [`JsonValue`].
pub enum JsonView {
    Null,
    Bool(bool),
    Number(Seq<char>),
    Str(Seq<char>),
    Array(Seq<JsonView>),
    Object(Seq<(Seq<char>, JsonView)>),
}

pub open spec fn json_view(j: JsonValue) -> JsonView
    decreases j,
{
    match j {
        JsonValue::Null => JsonView::Null,
        JsonValue::Bool(b) => JsonView::Bool(b),
        JsonValue::Number(n) => JsonView::Number(n@),
        JsonValue::Str(s) => JsonView::Str(s@),
        JsonValue::Array(items) => JsonView::Array(
            Seq::new(
                items@.len(),
                |i: int|
                    if 0 <= i < items@.len() {
                        json_view(items@[i])
                    } else {
                        JsonView::Null
                    },
            ),
        ),
        JsonValue::Object(entries) => JsonView::Object(
            Seq::new(
                entries@.len(),
                |i: int|
                    if 0 <= i < entries@.len() {
                        (entries@[i].0@, json_view(entries@[i].1))
                    } else {
                        (Seq::empty(), JsonView::Null)
                    },
            ),
        ),
    }
}

impl View for JsonValue {
    type V = JsonView;

    open spec fn view(&self) -> JsonView {
        json_view(*self)
    }
}

/// The model of a sequence of object entries.
pub open spec fn entries_view(e: Seq<(String, JsonValue)>) -> Seq<(Seq<char>, JsonView)> {
    Seq::new(e.len(), |i: int| (e[i].0@, json_view(e[i].1)))
}

/// The model of a sequence of array items.
pub open spec fn items_view(e: Seq<JsonValue>) -> Seq<JsonView> {
    Seq::new(e.len(), |i: int| json_view(e[i]))
}

pub proof fn lemma_object_view(entries: Vec<(String, JsonValue)>)
    ensures
        json_view(JsonValue::Object(entries)) == JsonView::Object(entries_view(entries@)),
{
    assert(json_view(JsonValue::Object(entries)) == JsonView::Object(entries_view(entries@))) by {
        if let JsonView::Object(s) = json_view(JsonValue::Object(entries)) {
            assert(s =~= entries_view(entries@));
        }
    }
}

pub proof fn lemma_array_view(items: Vec<JsonValue>)
    ensures
        json_view(JsonValue::Array(items)) == JsonView::Array(items_view(items@)),
{
    if let JsonView::Array(s) = json_view(JsonValue::Array(items)) {
        assert(s =~= items_view(items@));
    }
}

/// A JSON string.
pub fn jstr(s: &str) -> (j: JsonValue)
    ensures
        j@ == JsonView::Str(s@),
{
    JsonValue::Str(String::from_str(s))
}

/// A JSON number written as `text`.
pub fn jnum(text: &str) -> (j: JsonValue)
    ensures
        j@ == JsonView::Number(text@),
{
    JsonValue::Number(String::from_str(text))
}

/// An object entry.
pub fn entry(key: &str, value: JsonValue) -> (e: (String, JsonValue))
    ensures
        e.0@ == key@,
        e.1 == value,
{
    (String::from_str(key), value)
}

/// An object from its entries.
pub fn jobject(entries: Vec<(String, JsonValue)>) -> (j: JsonValue)
    ensures
        j@ == JsonView::Object(entries_view(entries@)),
{
    proof {
        lemma_object_view(entries);
    }
    JsonValue::Object(entries)
}

/// An array from its items.
pub fn jarray(items: Vec<JsonValue>) -> (j: JsonValue)
    ensures
        j@ == JsonView::Array(items_view(items@)),
{
    proof {
        lemma_array_view(items);
    }
    JsonValue::Array(items)
}

/// A copy of a JSON value.
#[verifier::loop_isolation(false)]
pub fn clone_json(j: &JsonValue) -> (r: JsonValue)
    ensures
        r@ == j@,
    decreases j,
{
    match j {
        JsonValue::Null => JsonValue::Null,
        JsonValue::Bool(b) => JsonValue::Bool(*b),
        JsonValue::Number(n) => JsonValue::Number(n.clone()),
        JsonValue::Str(s) => JsonValue::Str(s.clone()),
        JsonValue::Array(items) => {
            let mut out: Vec<JsonValue> = Vec::new();
            let mut i: usize = 0;
            while i < items.len()
                invariant
                    0 <= i <= items@.len(),
                    out@.len() == i,
                    forall|k: int| 0 <= k < i ==> #[trigger] json_view(out@[k]) == json_view(
                        items@[k],
                    ),
                decreases items@.len() - i,
            {
                proof {
                    assert(decreases_to!(items => items@));
                    assert(decreases_to!(items@ => items@[i as int]));
                }
                let c = clone_json(&items[i]);
                out.push(c);
                i += 1;
            }
            proof {
                lemma_array_view(out);
                lemma_array_view(*items);
                assert(items_view(out@) =~= items_view(items@));
            }
            JsonValue::Array(out)
        },
        JsonValue::Object(entries) => {
            let out = clone_entries(entries);
            proof {
                lemma_object_view(out);
                lemma_object_view(*entries);
            }
            JsonValue::Object(out)
        },
    }
}

/// A copy of a list of object entries.
pub fn clone_entries(entries: &Vec<(String, JsonValue)>) -> (r: Vec<(String, JsonValue)>)
    ensures
        entries_view(r@) == entries_view(entries@),
    decreases entries,
{
    let mut out: Vec<(String, JsonValue)> = Vec::new();
    let mut i: usize = 0;
    while i < entries.len()
        invariant
            0 <= i <= entries@.len(),
            out@.len() == i,
            forall|k: int|
                0 <= k < i ==> #[trigger] out@[k].0@ == entries@[k].0@ && json_view(out@[k].1)
                    == json_view(entries@[k].1),
        decreases entries@.len() - i,
    {
        let k = entries[i].0.clone();
        let v = clone_json(&entries[i].1);
        out.push((k, v));
        i += 1;
    }
    assert(entries_view(out@) =~= entries_view(entries@));
    out
}

/// Inserting `(k, v)` into an object: the first entry with key `k` gets value `v`,
/// or the entry is appended when no key matches (the behaviour of a JSON map's insert).
pub open spec fn entries_insert(e: Seq<(Seq<char>, JsonView)>, k: Seq<char>, v: JsonView) -> Seq<
    (Seq<char>, JsonView),
>
    decreases e.len(),
{
    if e.len() == 0 {
        seq![(k, v)]
    } else if e[0].0 == k {
        seq![(k, v)] + e.drop_first()
    } else {
        seq![e[0]] + entries_insert(e.drop_first(), k, v)
    }
}

proof fn lemma_entries_insert_split(
    e: Seq<(Seq<char>, JsonView)>,
    i: int,
    k: Seq<char>,
    v: JsonView,
)
    requires
        0 <= i <= e.len(),
        forall|j: int| 0 <= j < i ==> e[j].0 != k,
    ensures
        entries_insert(e, k, v) == e.subrange(0, i) + entries_insert(e.subrange(i, e.len() as int), k, v),
    decreases i,
{
    if i == 0 {
        assert(e.subrange(0, 0) + entries_insert(e.subrange(0, e.len() as int), k, v) =~= entries_insert(e, k, v)) by {
            assert(e.subrange(0, e.len() as int) =~= e);
        }
    } else {
        let t = e.drop_first();
        assert forall|j: int| 0 <= j < i - 1 implies t[j].0 != k by {
            assert(t[j] == e[j + 1]);
        }
        lemma_entries_insert_split(t, i - 1, k, v);
        assert(t.subrange(i - 1, t.len() as int) =~= e.subrange(i, e.len() as int));
        assert(seq![e[0]] + t.subrange(0, i - 1) =~= e.subrange(0, i));
    }
}

/// Sets key `key` of an object to `value` (see [`entries_insert`]).
pub fn object_insert(entries: &mut Vec<(String, JsonValue)>, key: &str, value: JsonValue)
    ensures
        entries_view(final(entries)@) == entries_insert(entries_view(old(entries)@), key@, value@),
{
    let ghost e0 = entries_view(entries@);
    let n = entries.len();
    let mut i: usize = 0;
    while i < n
        invariant
            n == entries@.len(),
            0 <= i <= n,
            entries_view(entries@) == e0,
            e0 == entries_view(old(entries)@),
            forall|j: int| 0 <= j < i ==> #[trigger] e0[j].0 != key@,
        decreases n - i,
    {
        if entries[i].0 == String::from_str(key) {
            proof {
                lemma_entries_insert_split(e0, i as int, key@, value@);
                let tail = e0.subrange(i as int, e0.len() as int);
                assert(tail[0].0 == key@);
            }
            entries.set(i, (String::from_str(key), value));
            proof {
                let tail = e0.subrange(i as int, e0.len() as int);
                assert(entries_insert(tail, key@, value@) == seq![(key@, value@)] + tail.drop_first());
                assert(entries_view(entries@) =~= e0.subrange(0, i as int) + (seq![(key@, value@)]
                    + tail.drop_first()));
                assert(entries_view(entries@) == entries_insert(e0, key@, value@));
            }
            return;
        }
        i += 1;
    }
    proof {
        lemma_entries_insert_split(e0, n as int, key@, value@);
        assert(e0.subrange(n as int, n as int) =~= Seq::<(Seq<char>, JsonView)>::empty());
    }
    entries.push((String::from_str(key), value));
    assert(entries_view(entries@) =~= e0.subrange(0, n as int) + seq![(key@, value@)]);
}

// ---------------------------------------------------------------- building objects
/// An object with no entries yet.
pub fn new_object() -> (out: Vec<(String, JsonValue)>)
    ensures
        entries_view(out@) == Seq::<(Seq<char>, JsonView)>::empty(),
{
    let out: Vec<(String, JsonValue)> = Vec::new();
    assert(entries_view(out@) =~= Seq::<(Seq<char>, JsonView)>::empty());
    out
}

/// An object entry `key: value` appended to `out`.
pub fn push_entry(out: &mut Vec<(String, JsonValue)>, key: &str, value: JsonValue)
    ensures
        entries_view(final(out)@) == entries_view(old(out)@).push((key@, value@)),
{
    out.push((String::from_str(key), value));
    assert(entries_view(out@) =~= entries_view(old(out)@).push((key@, value@)));
}

/// The entry `key: value` when the value is present, nothing otherwise.
pub open spec fn opt_entry(key: Seq<char>, value: Option<JsonView>) -> Seq<(Seq<char>, JsonView)> {
    match value {
        Some(v) => seq![(key, v)],
        None => Seq::empty(),
    }
}

/// A string entry when the string is present.
pub open spec fn opt_str_entry(key: Seq<char>, value: Option<Seq<char>>) -> Seq<(Seq<char>, JsonView)> {
    match value {
        Some(v) => seq![(key, JsonView::Str(v))],
        None => Seq::empty(),
    }
}

pub fn push_opt_str(out: &mut Vec<(String, JsonValue)>, key: &str, value: &Option<String>)
    ensures
        entries_view(final(out)@) == entries_view(old(out)@) + opt_str_entry(key@, value.deep_view()),
{
    match value {
        Some(v) => push_entry(out, key, JsonValue::Str(v.clone())),
        None => {
            assert(entries_view(out@) =~= entries_view(out@) + Seq::<(Seq<char>, JsonView)>::empty());
        },
    }
}

pub fn finish_object(out: Vec<(String, JsonValue)>) -> (j: JsonValue)
    ensures
        j@ == JsonView::Object(entries_view(out@)),
{
    proof {
        lemma_object_view(out);
    }
    JsonValue::Object(out)
}

} // verus!
