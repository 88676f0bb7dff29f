//! Canonical JSON text: object keys in order, no whitespace, strings escaped as JSON writers
//! do. It is what spec and manifest hashes are computed over.
use crate::json::{entries_view, items_view, json_view, lemma_array_view, lemma_object_view, JsonValue, JsonView};
use crate::digest::{content_hash, spec_content_hash};
use crate::json::clone_json;
use crate::text::push_char_at;
use vstd::prelude::*;
use vstd::string::*;

verus! {

broadcast use vstd::std_specs::vec::group_vec_axioms;

// ---------------------------------------------------------------- text
pub open spec fn hex_char(d: int) -> char {
    "0123456789abcdef"@[d]
}

/// The JSON text of one character inside a string: `"` and `\` and the control characters
/// escaped (short forms where JSON has them, `\u00XX` otherwise), every other character as
/// it is.
pub open spec fn escape_char(c: char) -> Seq<char> {
    let v = c as u32;
    if c == '"' {
        seq!['\\', '"']
    } else if c == '\\' {
        seq!['\\', '\\']
    } else if v == 0x0a {
        seq!['\\', 'n']
    } else if v == 0x0d {
        seq!['\\', 'r']
    } else if v == 0x09 {
        seq!['\\', 't']
    } else if v == 0x08 {
        seq!['\\', 'b']
    } else if v == 0x0c {
        seq!['\\', 'f']
    } else if v < 0x20 {
        seq!['\\', 'u', '0', '0', hex_char((v / 16) as int), hex_char((v % 16) as int)]
    } else {
        seq![c]
    }
}

pub open spec fn spec_escape(s: Seq<char>) -> Seq<char>
    decreases s.len(),
{
    if s.len() == 0 {
        Seq::empty()
    } else {
        spec_escape(s.drop_last()) + escape_char(s.last())
    }
}

/// A JSON string literal.
pub open spec fn string_text(s: Seq<char>) -> Seq<char> {
    seq!['"'] + spec_escape(s) + seq!['"']
}

/// The compact JSON text of a value, entries and items in their order.
pub open spec fn json_text(j: JsonView) -> Seq<char>
    decreases j,
{
    match j {
        JsonView::Null => "null"@,
        JsonView::Bool(b) => if b {
            "true"@
        } else {
            "false"@
        },
        JsonView::Number(n) => n,
        JsonView::Str(s) => string_text(s),
        JsonView::Array(items) => seq!['['] + items_text(items) + seq![']'],
        JsonView::Object(entries) => seq!['{'] + entries_text(entries) + seq!['}'],
    }
}

/// Items separated by commas.
pub open spec fn items_text(items: Seq<JsonView>) -> Seq<char>
    decreases items,
{
    if items.len() == 0 {
        Seq::empty()
    } else if items.len() == 1 {
        json_text(items[0])
    } else {
        items_text(items.subrange(0, items.len() - 1)) + seq![','] + json_text(items[items.len() - 1])
    }
}

/// Entries `"key":value` separated by commas.
pub open spec fn entries_text(entries: Seq<(Seq<char>, JsonView)>) -> Seq<char>
    decreases entries,
{
    if entries.len() == 0 {
        Seq::empty()
    } else if entries.len() == 1 {
        proof {
            assert(decreases_to!(entries => entries[0]));
        }
        string_text(entries[0].0) + seq![':'] + json_text(entries[0].1)
    } else {
        let last = entries[entries.len() - 1];
        proof {
            assert(decreases_to!(entries => last));
        }
        entries_text(entries.subrange(0, entries.len() - 1)) + seq![','] + string_text(last.0) + seq![':']
            + json_text(last.1)
    }
}

fn write_escaped(out: &mut String, s: &str)
    ensures
        final(out)@ == old(out)@ + spec_escape(s@),
{
    let digits = "0123456789abcdef";
    proof {
        reveal_strlit("0123456789abcdef");
    }
    let n = s.unicode_len();
    let mut i: usize = 0;
    assert(s@.subrange(0, 0) =~= Seq::<char>::empty());
    while i < n
        invariant
            n == s@.len(),
            0 <= i <= n,
            digits@ == "0123456789abcdef"@,
            digits@.len() == 16,
            out@ == old(out)@ + spec_escape(s@.subrange(0, i as int)),
        decreases n - i,
    {
        let c = s.get_char(i);
        let v = c as u32;
        let ghost before = out@;
        proof {
            reveal_strlit("\\");
            reveal_strlit("\\n");
            reveal_strlit("\\r");
            reveal_strlit("\\t");
            reveal_strlit("\\b");
            reveal_strlit("\\f");
            reveal_strlit("\\u00");
        }
        if c == '"' || c == '\\' {
            out.append("\\");
            push_char_at(out, s, i);
            assert(out@ =~= before + escape_char(c));
        } else if v == 0x0a {
            out.append("\\n");
            assert(out@ =~= before + escape_char(c));
        } else if v == 0x0d {
            out.append("\\r");
            assert(out@ =~= before + escape_char(c));
        } else if v == 0x09 {
            out.append("\\t");
            assert(out@ =~= before + escape_char(c));
        } else if v == 0x08 {
            out.append("\\b");
            assert(out@ =~= before + escape_char(c));
        } else if v == 0x0c {
            out.append("\\f");
            assert(out@ =~= before + escape_char(c));
        } else if v < 0x20 {
            out.append("\\u00");
            push_char_at(out, digits, (v / 16) as usize);
            push_char_at(out, digits, (v % 16) as usize);
            assert(out@ =~= before + escape_char(c));
        } else {
            push_char_at(out, s, i);
            assert(out@ =~= before + escape_char(c));
        }
        assert(out@ =~= before + escape_char(c));
        assert(s@.subrange(0, i + 1).drop_last() =~= s@.subrange(0, i as int));
        i += 1;
    }
    assert(s@.subrange(0, n as int) =~= s@);
}

fn write_string(out: &mut String, s: &str)
    ensures
        final(out)@ == old(out)@ + string_text(s@),
{
    proof {
        reveal_strlit("\"");
    }
    out.append("\"");
    write_escaped(out, s);
    out.append("\"");
    assert(out@ =~= old(out)@ + string_text(s@));
}

/// Appends the compact JSON text of `j`.
#[verifier::loop_isolation(false)]
pub fn write_json(out: &mut String, j: &JsonValue)
    ensures
        final(out)@ == old(out)@ + json_text(j@),
    decreases j,
{
    match j {
        JsonValue::Null => out.append("null"),
        JsonValue::Bool(b) => if *b {
            out.append("true")
        } else {
            out.append("false")
        },
        JsonValue::Number(n) => out.append(n.as_str()),
        JsonValue::Str(s) => write_string(out, s.as_str()),
        JsonValue::Array(items) => {
            proof {
                lemma_array_view(*items);
                reveal_strlit("[");
                reveal_strlit("]");
                reveal_strlit(",");
            }
            let ghost iv = items_view(items@);
            let ghost start = out@;
            out.append("[");
            let mut i: usize = 0;
            assert(iv.subrange(0, 0) =~= Seq::<JsonView>::empty());
            while i < items.len()
                invariant
                    0 <= i <= items@.len(),
                    iv == items_view(items@),
                    out@ == start + seq!['['] + items_text(iv.subrange(0, i as int)),
                decreases items@.len() - i,
            {
                proof {
                    assert(decreases_to!(items => items@));
                    assert(decreases_to!(items@ => items@[i as int]));
                }
                let ghost before = out@;
                if i > 0 {
                    out.append(",");
                }
                write_json(out, &items[i]);
                proof {
                    let p = iv.subrange(0, i + 1);
                    assert(p.subrange(0, i as int) =~= iv.subrange(0, i as int));
                    assert(p[i as int] == json_view(items@[i as int]));
                    if i == 0 {
                        assert(items_text(p) == json_text(p[0]));
                    }
                    assert(out@ =~= start + seq!['['] + items_text(p));
                }
                i += 1;
            }
            out.append("]");
            assert(iv.subrange(0, items@.len() as int) =~= iv);
            assert(out@ =~= start + json_text(j@));
        },
        JsonValue::Object(entries) => {
            proof {
                lemma_object_view(*entries);
                reveal_strlit("{");
                reveal_strlit("}");
                reveal_strlit(",");
                reveal_strlit(":");
            }
            let ghost ev = entries_view(entries@);
            let ghost start = out@;
            out.append("{");
            let mut i: usize = 0;
            assert(ev.subrange(0, 0) =~= Seq::<(Seq<char>, JsonView)>::empty());
            while i < entries.len()
                invariant
                    0 <= i <= entries@.len(),
                    ev == entries_view(entries@),
                    out@ == start + seq!['{'] + entries_text(ev.subrange(0, i as int)),
                decreases entries@.len() - i,
            {
                proof {
                    assert(decreases_to!(entries => entries@));
                    assert(decreases_to!(entries@ => entries@[i as int]));
                    assert(decreases_to!(entries@[i as int] => entries@[i as int].1));
                }
                if i > 0 {
                    out.append(",");
                }
                write_string(out, entries[i].0.as_str());
                out.append(":");
                write_json(out, &entries[i].1);
                proof {
                    let p = ev.subrange(0, i + 1);
                    assert(p.subrange(0, i as int) =~= ev.subrange(0, i as int));
                    assert(p[i as int] == (entries@[i as int].0@, json_view(entries@[i as int].1)));
                    assert(out@ =~= start + seq!['{'] + entries_text(p));
                }
                i += 1;
            }
            out.append("}");
            assert(ev.subrange(0, entries@.len() as int) =~= ev);
            assert(out@ =~= start + json_text(j@));
        },
    }
}


// ---------------------------------------------------------------- key order
/// `a` sorts before `b`: characters compared by code point in turn, a proper prefix first.
/// This is the order of `String`'s `Ord` (which compares UTF-8 bytes, and so code points),
/// the order in which a JSON map keeps its keys.
pub open spec fn key_lt(a: Seq<char>, b: Seq<char>) -> bool
    decreases a.len(),
{
    if b.len() == 0 {
        false
    } else if a.len() == 0 {
        true
    } else if a[0] != b[0] {
        (a[0] as int) < (b[0] as int)
    } else {
        key_lt(a.drop_first(), b.drop_first())
    }
}

/// Whether `a` sorts before `b`.
pub fn key_less(a: &str, b: &str) -> (r: bool)
    ensures
        r == key_lt(a@, b@),
{
    let na = a.unicode_len();
    let nb = b.unicode_len();
    let mut i: usize = 0;
    assert(a@.skip(0) =~= a@);
    assert(b@.skip(0) =~= b@);
    while i < na && i < nb
        invariant
            na == a@.len(),
            nb == b@.len(),
            i <= na,
            i <= nb,
            key_lt(a@, b@) == key_lt(a@.skip(i as int), b@.skip(i as int)),
        decreases na - i,
    {
        let ca = a.get_char(i);
        let cb = b.get_char(i);
        if ca != cb {
            return (ca as u32) < (cb as u32);
        }
        assert(a@.skip(i as int).drop_first() =~= a@.skip(i + 1));
        assert(b@.skip(i as int).drop_first() =~= b@.skip(i + 1));
        i += 1;
    }
    i < nb
}

// ---------------------------------------------------------------- sorted objects
/// Inserting `(k, v)` into entries sorted by key, as a JSON map does: an entry with key `k`
/// gets the value `v`, otherwise the entry goes before the first greater key.
pub open spec fn insert_sorted(s: Seq<(Seq<char>, JsonView)>, k: Seq<char>, v: JsonView) -> Seq<
    (Seq<char>, JsonView),
>
    decreases s.len(),
{
    if s.len() == 0 {
        seq![(k, v)]
    } else if s[0].0 == k {
        s.update(0, (k, v))
    } else if key_lt(k, s[0].0) {
        seq![(k, v)] + s
    } else {
        seq![s[0]] + insert_sorted(s.drop_first(), k, v)
    }
}

/// The entries of an object as a JSON map holds them after inserting each in turn: sorted
/// by key, a later entry replacing an earlier one with the same key.
pub open spec fn sorted_entries(e: Seq<(Seq<char>, JsonView)>) -> Seq<(Seq<char>, JsonView)>
    decreases e.len(),
{
    if e.len() == 0 {
        Seq::empty()
    } else {
        insert_sorted(sorted_entries(e.drop_last()), e.last().0, e.last().1)
    }
}

/// The canonical form of a value: every object's entries sorted by key, all the way down.
pub open spec fn canonical(j: JsonView) -> JsonView
    decreases j,
{
    match j {
        JsonView::Array(items) => JsonView::Array(canonical_items(items)),
        JsonView::Object(entries) => JsonView::Object(sorted_entries(canonical_entries(entries))),
        _ => j,
    }
}

pub open spec fn canonical_items(items: Seq<JsonView>) -> Seq<JsonView>
    decreases items,
{
    if items.len() == 0 {
        Seq::empty()
    } else {
        canonical_items(items.subrange(0, items.len() - 1)).push(canonical(items[items.len() - 1]))
    }
}

pub open spec fn canonical_entries(entries: Seq<(Seq<char>, JsonView)>) -> Seq<(Seq<char>, JsonView)>
    decreases entries,
{
    if entries.len() == 0 {
        Seq::empty()
    } else {
        let last = entries[entries.len() - 1];
        proof {
            assert(decreases_to!(entries => last));
        }
        canonical_entries(entries.subrange(0, entries.len() - 1)).push((last.0, canonical(last.1)))
    }
}

proof fn lemma_insert_sorted_step(s: Seq<(Seq<char>, JsonView)>, i: int, k: Seq<char>, v: JsonView)
    requires
        0 <= i < s.len(),
        s[i].0 != k,
        !key_lt(k, s[i].0),
        insert_sorted(s, k, v) == s.take(i) + insert_sorted(s.skip(i), k, v),
    ensures
        insert_sorted(s, k, v) == s.take(i + 1) + insert_sorted(s.skip(i + 1), k, v),
{
    assert(s.skip(i).drop_first() =~= s.skip(i + 1));
    assert(s.skip(i)[0] == s[i]);
    assert(s.take(i + 1) =~= s.take(i) + seq![s[i]]);
}

/// Inserts `(k, v)` into entries sorted by key.
fn insert_entry_sorted(out: &mut Vec<(String, JsonValue)>, k: String, v: JsonValue)
    ensures
        entries_view(final(out)@) == insert_sorted(entries_view(old(out)@), k@, v@),
{
    let ghost ev = entries_view(out@);
    let ghost kv = k@;
    let ghost vv = v@;
    let n = out.len();
    let mut i: usize = 0;
    let mut stop = false;
    let mut same = false;
    assert(ev.take(0) + ev.skip(0) =~= ev);
    assert(ev.skip(0) =~= ev);
    while i < n && !stop
        invariant
            n == out@.len(),
            out@ == old(out)@,
            ev == entries_view(out@),
            kv == k@,
            i <= n,
            !stop ==> !same,
            stop ==> i < n && (same <==> ev[i as int].0 == kv) && (same || key_lt(kv, ev[i as int].0)),
            insert_sorted(ev, kv, vv) == ev.take(i as int) + insert_sorted(ev.skip(i as int), kv, vv),
        decreases n - i + (if stop { 0int } else { 1int }),
    {
        assert(ev[i as int].0 == out@[i as int].0@);
        if out[i].0 == k {
            stop = true;
            same = true;
        } else if key_less(k.as_str(), out[i].0.as_str()) {
            stop = true;
        } else {
            proof {
                lemma_insert_sorted_step(ev, i as int, kv, vv);
            }
            i += 1;
        }
    }
    let ghost rest = ev.skip(i as int);
    if stop && same {
        out.set(i, (k, v));
        proof {
            assert(rest[0] == ev[i as int]);
            assert(insert_sorted(rest, kv, vv) == rest.update(0, (kv, vv)));
            assert(entries_view(out@) =~= ev.take(i as int) + rest.update(0, (kv, vv)));
        }
    } else {
        out.insert(i, (k, v));
        proof {
            if i < n {
                assert(rest[0] == ev[i as int]);
                assert(insert_sorted(rest, kv, vv) == seq![(kv, vv)] + rest);
            } else {
                assert(rest.len() == 0);
            }
            assert(entries_view(out@) =~= ev.take(i as int) + insert_sorted(rest, kv, vv));
        }
    }
}

/// The canonical form of a value: objects sorted by key, all the way down.
#[verifier::loop_isolation(false)]
pub fn canonicalize(j: &JsonValue) -> (r: JsonValue)
    ensures
        r@ == canonical(j@),
    decreases j,
{
    match j {
        JsonValue::Array(items) => {
            proof {
                lemma_array_view(*items);
            }
            let ghost iv = items_view(items@);
            let mut out: Vec<JsonValue> = Vec::new();
            let mut i: usize = 0;
            assert(iv.subrange(0, 0) =~= Seq::<JsonView>::empty());
            assert(items_view(out@) =~= Seq::<JsonView>::empty());
            while i < items.len()
                invariant
                    0 <= i <= items@.len(),
                    iv == items_view(items@),
                    items_view(out@) == canonical_items(iv.subrange(0, i as int)),
                decreases items@.len() - i,
            {
                proof {
                    assert(decreases_to!(items => items@));
                    assert(decreases_to!(items@ => items@[i as int]));
                }
                let c = canonicalize(&items[i]);
                let ghost prev = out@;
                out.push(c);
                proof {
                    let p = iv.subrange(0, i + 1);
                    assert(p.subrange(0, i as int) =~= iv.subrange(0, i as int));
                    assert(p[i as int] == json_view(items@[i as int]));
                    assert(items_view(out@) =~= items_view(prev).push(c@));
                }
                i += 1;
            }
            assert(iv.subrange(0, items@.len() as int) =~= iv);
            proof {
                lemma_array_view(out);
            }
            JsonValue::Array(out)
        },
        JsonValue::Object(entries) => {
            proof {
                lemma_object_view(*entries);
            }
            let ghost ev = entries_view(entries@);
            let mut out: Vec<(String, JsonValue)> = Vec::new();
            let mut i: usize = 0;
            assert(ev.subrange(0, 0) =~= Seq::<(Seq<char>, JsonView)>::empty());
            assert(entries_view(out@) =~= Seq::<(Seq<char>, JsonView)>::empty());
            while i < entries.len()
                invariant
                    0 <= i <= entries@.len(),
                    ev == entries_view(entries@),
                    entries_view(out@) == sorted_entries(canonical_entries(ev.subrange(0, i as int))),
                decreases entries@.len() - i,
            {
                proof {
                    assert(decreases_to!(entries => entries@));
                    assert(decreases_to!(entries@ => entries@[i as int]));
                    assert(decreases_to!(entries@[i as int] => entries@[i as int].1));
                }
                let c = canonicalize(&entries[i].1);
                let k = entries[i].0.clone();
                insert_entry_sorted(&mut out, k, c);
                proof {
                    let p = ev.subrange(0, i + 1);
                    let prev = canonical_entries(ev.subrange(0, i as int));
                    assert(p.subrange(0, i as int) =~= ev.subrange(0, i as int));
                    assert(p[i as int] == (entries@[i as int].0@, json_view(entries@[i as int].1)));
                    let ce = canonical_entries(p);
                    assert(ce == prev.push((entries@[i as int].0@, canonical(json_view(entries@[i as int].1)))));
                    assert(ce.drop_last() =~= prev);
                }
                i += 1;
            }
            assert(ev.subrange(0, entries@.len() as int) =~= ev);
            proof {
                lemma_object_view(out);
            }
            JsonValue::Object(out)
        },
        _ => clone_json(j),
    }
}

/// The canonical JSON text of a value: objects sorted by key, no whitespace. Hashes are
/// computed over it.
pub fn canonical_text(j: &JsonValue) -> (t: String)
    ensures
        t@ == json_text(canonical(j@)),
{
    let c = canonicalize(j);
    let mut out = String::new();
    write_json(&mut out, &c);
    out
}

/// The canonical text of a rendered manifest and its content hash.
pub fn manifest_content_and_hash(manifest: &JsonValue) -> (r: (String, String))
    ensures
        r.0@ == json_text(canonical(manifest@)),
        r.1@ == spec_content_hash(r.0@),
{
    let text = canonical_text(manifest);
    let hash = content_hash(text.as_str());
    (text, hash)
}

// ---------------------------------------------------------------- order of the keys
/// Each key sorts before every later one.
pub open spec fn keys_ascending(s: Seq<(Seq<char>, JsonView)>) -> bool {
    forall|i: int, j: int| 0 <= i < j < s.len() ==> key_lt(#[trigger] s[i].0, #[trigger] s[j].0)
}

proof fn lemma_key_lt_irreflexive(a: Seq<char>)
    ensures
        !key_lt(a, a),
    decreases a.len(),
{
    if a.len() > 0 {
        lemma_key_lt_irreflexive(a.drop_first());
    }
}

proof fn lemma_key_lt_transitive(a: Seq<char>, b: Seq<char>, c: Seq<char>)
    requires
        key_lt(a, b),
        key_lt(b, c),
    ensures
        key_lt(a, c),
    decreases a.len(),
{
    if a.len() > 0 && a[0] == b[0] && b[0] == c[0] {
        lemma_key_lt_transitive(a.drop_first(), b.drop_first(), c.drop_first());
    }
}

proof fn lemma_key_lt_total(a: Seq<char>, b: Seq<char>)
    requires
        a != b,
    ensures
        key_lt(a, b) || key_lt(b, a),
    decreases a.len(),
{
    if a.len() > 0 && b.len() > 0 {
        if a[0] == b[0] {
            assert(a =~= seq![a[0]] + a.drop_first());
            assert(b =~= seq![b[0]] + b.drop_first());
            lemma_key_lt_total(a.drop_first(), b.drop_first());
        } else {
            assert((a[0] as int) != (b[0] as int));
        }
    } else if a.len() == 0 && b.len() == 0 {
        assert(a =~= b);
    }
}

proof fn lemma_insert_sorted(s: Seq<(Seq<char>, JsonView)>, k: Seq<char>, v: JsonView)
    requires
        keys_ascending(s),
    ensures
        keys_ascending(insert_sorted(s, k, v)),
        forall|i: int|
            0 <= i < insert_sorted(s, k, v).len() ==> #[trigger] insert_sorted(s, k, v)[i].0 == k || exists|j: int|
                0 <= j < s.len() && s[j].0 == insert_sorted(s, k, v)[i].0,
    decreases s.len(),
{
    let r = insert_sorted(s, k, v);
    if s.len() == 0 {
    } else if s[0].0 == k {
        assert forall|i: int| 0 <= i < r.len() implies #[trigger] r[i].0 == k || exists|j: int|
            0 <= j < s.len() && s[j].0 == r[i].0 by {
            if i > 0 {
                assert(s[i].0 == r[i].0);
            }
        }
        assert forall|i: int, j: int| 0 <= i < j < r.len() implies key_lt(#[trigger] r[i].0, #[trigger] r[j].0) by {
            assert(s[i].0 == r[i].0);
            assert(s[j].0 == r[j].0);
        }
    } else if key_lt(k, s[0].0) {
        assert forall|i: int| 0 <= i < r.len() implies #[trigger] r[i].0 == k || exists|j: int|
            0 <= j < s.len() && s[j].0 == r[i].0 by {
            if i > 0 {
                assert(s[i - 1].0 == r[i].0);
            }
        }
        assert forall|i: int, j: int| 0 <= i < j < r.len() implies key_lt(#[trigger] r[i].0, #[trigger] r[j].0) by {
            if i == 0 {
                if j > 1 {
                    assert(key_lt(s[0].0, s[j - 1].0));
                    lemma_key_lt_transitive(k, s[0].0, s[j - 1].0);
                }
            } else {
                assert(key_lt(s[i - 1].0, s[j - 1].0));
            }
        }
    } else {
        lemma_key_lt_total(k, s[0].0);
        let t = s.drop_first();
        assert forall|i: int, j: int| 0 <= i < j < t.len() implies key_lt(#[trigger] t[i].0, #[trigger] t[j].0) by {
            assert(key_lt(s[i + 1].0, s[j + 1].0));
        }
        lemma_insert_sorted(t, k, v);
        let rt = insert_sorted(t, k, v);
        assert(r == seq![s[0]] + rt);
        assert forall|i: int| 0 <= i < rt.len() implies key_lt(s[0].0, #[trigger] rt[i].0) by {
            if rt[i].0 != k {
                let j = choose|j: int| 0 <= j < t.len() && t[j].0 == rt[i].0;
                assert(key_lt(s[0].0, s[j + 1].0));
            }
        }
        assert forall|i: int| 0 <= i < r.len() implies #[trigger] r[i].0 == k || exists|j: int|
            0 <= j < s.len() && s[j].0 == r[i].0 by {
            if i == 0 {
                assert(s[0].0 == r[0].0);
            } else {
                assert(rt[i - 1].0 == r[i].0);
                if rt[i - 1].0 != k {
                    let j = choose|j: int| 0 <= j < t.len() && t[j].0 == rt[i - 1].0;
                    assert(s[j + 1].0 == r[i].0);
                }
            }
        }
        assert forall|i: int, j: int| 0 <= i < j < r.len() implies key_lt(#[trigger] r[i].0, #[trigger] r[j].0) by {
            if i == 0 {
                assert(rt[j - 1].0 == r[j].0);
            } else {
                assert(rt[i - 1].0 == r[i].0);
                assert(rt[j - 1].0 == r[j].0);
            }
        }
    }
}

proof fn lemma_sorted_entries_ascending(e: Seq<(Seq<char>, JsonView)>)
    ensures
        keys_ascending(sorted_entries(e)),
    decreases e.len(),
{
    if e.len() > 0 {
        lemma_sorted_entries_ascending(e.drop_last());
        lemma_insert_sorted(sorted_entries(e.drop_last()), e.last().0, e.last().1);
    }
}

/// The entries of a canonical object come in strictly ascending key order, so no key occurs
/// twice.
pub proof fn law_canonical_object_keys_ascending(j: JsonView)
    ensures
        canonical(j) matches JsonView::Object(e) ==> keys_ascending(e),
        forall|a: Seq<char>| !#[trigger] key_lt(a, a),
{
    if let JsonView::Object(entries) = j {
        lemma_sorted_entries_ascending(canonical_entries(entries));
    }
    assert forall|a: Seq<char>| !#[trigger] key_lt(a, a) by {
        lemma_key_lt_irreflexive(a);
    }
}

// ---------------------------------------------------------------- order of the entries
/// No key occurs twice.
pub open spec fn keys_distinct(s: Seq<(Seq<char>, JsonView)>) -> bool {
    forall|i: int, j: int| 0 <= i < j < s.len() ==> #[trigger] s[i].0 != #[trigger] s[j].0
}

/// The same entries, possibly in another order.
pub open spec fn same_entries(a: Seq<(Seq<char>, JsonView)>, b: Seq<(Seq<char>, JsonView)>) -> bool {
    forall|x: (Seq<char>, JsonView)| a.contains(x) <==> b.contains(x)
}

proof fn lemma_canonical_entries_at(e: Seq<(Seq<char>, JsonView)>)
    ensures
        canonical_entries(e).len() == e.len(),
        forall|i: int| 0 <= i < e.len() ==> #[trigger] canonical_entries(e)[i] == (e[i].0, canonical(e[i].1)),
    decreases e.len(),
{
    if e.len() > 0 {
        let p = e.subrange(0, e.len() - 1);
        lemma_canonical_entries_at(p);
        assert forall|i: int| 0 <= i < e.len() implies #[trigger] canonical_entries(e)[i] == (e[i].0, canonical(e[i].1)) by {
            if i < e.len() - 1 {
                assert(p[i] == e[i]);
            }
        }
    }
}

proof fn lemma_insert_sorted_new_key(s: Seq<(Seq<char>, JsonView)>, k: Seq<char>, v: JsonView)
    requires
        forall|j: int| 0 <= j < s.len() ==> #[trigger] s[j].0 != k,
    ensures
        forall|x: (Seq<char>, JsonView)| #[trigger] insert_sorted(s, k, v).contains(x) <==> (s.contains(x) || x == (k, v)),
    decreases s.len(),
{
    let r = insert_sorted(s, k, v);
    if s.len() == 0 {
        assert forall|x: (Seq<char>, JsonView)| #[trigger] r.contains(x) <==> (s.contains(x) || x == (k, v)) by {
            if r.contains(x) {
                let i = choose|i: int| 0 <= i < r.len() && r[i] == x;
            }
            if x == (k, v) {
                assert(r[0] == x);
            }
        }
    } else if key_lt(k, s[0].0) {
        assert forall|x: (Seq<char>, JsonView)| #[trigger] r.contains(x) <==> (s.contains(x) || x == (k, v)) by {
            if r.contains(x) {
                let i = choose|i: int| 0 <= i < r.len() && r[i] == x;
                if i > 0 {
                    assert(s[i - 1] == x);
                }
            }
            if s.contains(x) {
                let i = choose|i: int| 0 <= i < s.len() && s[i] == x;
                assert(r[i + 1] == x);
            }
            if x == (k, v) {
                assert(r[0] == x);
            }
        }
    } else {
        let t = s.drop_first();
        assert forall|j: int| 0 <= j < t.len() implies #[trigger] t[j].0 != k by {
            assert(s[j + 1] == t[j]);
        }
        lemma_insert_sorted_new_key(t, k, v);
        let rt = insert_sorted(t, k, v);
        assert(r == seq![s[0]] + rt);
        assert forall|x: (Seq<char>, JsonView)| #[trigger] r.contains(x) <==> (s.contains(x) || x == (k, v)) by {
            if r.contains(x) {
                let i = choose|i: int| 0 <= i < r.len() && r[i] == x;
                if i > 0 {
                    assert(rt[i - 1] == x);
                    assert(rt.contains(x));
                    if t.contains(x) {
                        let m = choose|m: int| 0 <= m < t.len() && t[m] == x;
                        assert(s[m + 1] == x);
                    }
                }
            }
            if s.contains(x) {
                let i = choose|i: int| 0 <= i < s.len() && s[i] == x;
                if i > 0 {
                    assert(t[i - 1] == x);
                    assert(rt.contains(x));
                    let m = choose|m: int| 0 <= m < rt.len() && rt[m] == x;
                    assert(r[m + 1] == x);
                } else {
                    assert(r[0] == x);
                }
            }
            if x == (k, v) {
                assert(rt.contains(x));
                let m = choose|m: int| 0 <= m < rt.len() && rt[m] == x;
                assert(r[m + 1] == x);
            }
        }
    }
}

proof fn lemma_sorted_entries_contents(e: Seq<(Seq<char>, JsonView)>)
    requires
        keys_distinct(e),
    ensures
        keys_ascending(sorted_entries(e)),
        same_entries(sorted_entries(e), e),
    decreases e.len(),
{
    lemma_sorted_entries_ascending(e);
    if e.len() > 0 {
        let p = e.drop_last();
        let k = e.last().0;
        let v = e.last().1;
        assert forall|i: int, j: int| 0 <= i < j < p.len() implies #[trigger] p[i].0 != #[trigger] p[j].0 by {
            assert(p[i] == e[i] && p[j] == e[j]);
        }
        lemma_sorted_entries_contents(p);
        let sp = sorted_entries(p);
        lemma_insert_sorted(sp, k, v);
        assert forall|j: int| 0 <= j < sp.len() implies #[trigger] sp[j].0 != k by {
            assert(sp.contains(sp[j]));
            assert(p.contains(sp[j]));
            let m = choose|m: int| 0 <= m < p.len() && p[m] == sp[j];
            assert(e[m] == p[m]);
            assert(e[e.len() - 1].0 == k);
        }
        lemma_insert_sorted_new_key(sp, k, v);
        assert forall|x: (Seq<char>, JsonView)| sorted_entries(e).contains(x) <==> e.contains(x) by {
            if e.contains(x) {
                let m = choose|m: int| 0 <= m < e.len() && e[m] == x;
                if m < e.len() - 1 {
                    assert(p[m] == x);
                    assert(p.contains(x));
                }
            }
            if p.contains(x) {
                let m = choose|m: int| 0 <= m < p.len() && p[m] == x;
                assert(e[m] == x);
            }
        }
    }
}

proof fn lemma_ascending_unique(s: Seq<(Seq<char>, JsonView)>, t: Seq<(Seq<char>, JsonView)>)
    requires
        keys_ascending(s),
        keys_ascending(t),
        same_entries(s, t),
    ensures
        s == t,
    decreases s.len(),
{
    if s.len() == 0 {
        if t.len() > 0 {
            assert(t.contains(t[0]));
        }
        assert(s =~= t);
    } else if t.len() == 0 {
        assert(s.contains(s[0]));
    } else {
        assert(s.contains(s[0]));
        assert(t.contains(t[0]));
        let j = choose|j: int| 0 <= j < t.len() && t[j] == s[0];
        let i = choose|i: int| 0 <= i < s.len() && s[i] == t[0];
        if j > 0 {
            assert(key_lt(t[0].0, t[j].0));
            if i > 0 {
                assert(key_lt(s[0].0, s[i].0));
                lemma_key_lt_transitive(s[0].0, t[0].0, s[0].0);
            }
            lemma_key_lt_irreflexive(s[0].0);
        }
        assert(s[0] == t[0]);
        let s1 = s.drop_first();
        let t1 = t.drop_first();
        assert forall|a: int, b: int| 0 <= a < b < s1.len() implies key_lt(#[trigger] s1[a].0, #[trigger] s1[b].0) by {
            assert(key_lt(s[a + 1].0, s[b + 1].0));
        }
        assert forall|a: int, b: int| 0 <= a < b < t1.len() implies key_lt(#[trigger] t1[a].0, #[trigger] t1[b].0) by {
            assert(key_lt(t[a + 1].0, t[b + 1].0));
        }
        assert forall|x: (Seq<char>, JsonView)| s1.contains(x) <==> t1.contains(x) by {
            if s1.contains(x) {
                let m = choose|m: int| 0 <= m < s1.len() && s1[m] == x;
                assert(s[m + 1] == x);
                assert(key_lt(s[0].0, s[m + 1].0));
                lemma_key_lt_irreflexive(s[0].0);
                assert(t.contains(x));
                let n = choose|n: int| 0 <= n < t.len() && t[n] == x;
                assert(n != 0);
                assert(t1[n - 1] == x);
            }
            if t1.contains(x) {
                let m = choose|m: int| 0 <= m < t1.len() && t1[m] == x;
                assert(t[m + 1] == x);
                assert(key_lt(t[0].0, t[m + 1].0));
                lemma_key_lt_irreflexive(t[0].0);
                assert(s.contains(x));
                let n = choose|n: int| 0 <= n < s.len() && s[n] == x;
                assert(n != 0);
                assert(s1[n - 1] == x);
            }
        }
        lemma_ascending_unique(s1, t1);
        assert(s =~= seq![s[0]] + s1);
        assert(t =~= seq![t[0]] + t1);
    }
}

/// The canonical form of an object does not depend on the order of its entries: two
/// objects with the same entries, no key twice, have the same canonical form, and so the
/// same canonical text and hash.
pub proof fn law_canonical_ignores_entry_order(a: Seq<(Seq<char>, JsonView)>, b: Seq<(Seq<char>, JsonView)>)
    requires
        keys_distinct(a),
        keys_distinct(b),
        same_entries(a, b),
    ensures
        canonical(JsonView::Object(a)) == canonical(JsonView::Object(b)),
{
    let ca = canonical_entries(a);
    let cb = canonical_entries(b);
    lemma_canonical_entries_at(a);
    lemma_canonical_entries_at(b);
    assert forall|i: int, j: int| 0 <= i < j < ca.len() implies #[trigger] ca[i].0 != #[trigger] ca[j].0 by {
        assert(a[i].0 != a[j].0);
    }
    assert forall|i: int, j: int| 0 <= i < j < cb.len() implies #[trigger] cb[i].0 != #[trigger] cb[j].0 by {
        assert(b[i].0 != b[j].0);
    }
    assert forall|x: (Seq<char>, JsonView)| ca.contains(x) <==> cb.contains(x) by {
        if ca.contains(x) {
            let i = choose|i: int| 0 <= i < ca.len() && ca[i] == x;
            assert(a.contains(a[i]));
            let j = choose|j: int| 0 <= j < b.len() && b[j] == a[i];
            assert(cb[j] == x);
        }
        if cb.contains(x) {
            let j = choose|j: int| 0 <= j < cb.len() && cb[j] == x;
            assert(b.contains(b[j]));
            let i = choose|i: int| 0 <= i < a.len() && a[i] == b[j];
            assert(ca[i] == x);
        }
    }
    lemma_sorted_entries_contents(ca);
    lemma_sorted_entries_contents(cb);
    lemma_ascending_unique(sorted_entries(ca), sorted_entries(cb));
}

} // verus!
