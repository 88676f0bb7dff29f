//! Label and annotation keys shared by the controller and the runner, hash label values and
//! derived object names.
use crate::resource::{map_get, StringMap};
use crate::text::{concat3, concat_str, seq_starts_with, spec_truncate, starts_with, truncate};
use vstd::prelude::*;

verus! {

pub const LABEL_MANAGED_BY: &'static str = "app.kubernetes.io/managed-by";

pub const MANAGED_BY_VALUE: &'static str = "frontend-forge";

pub const LABEL_FI_NAME: &'static str = "frontend-forge.kubesphere.io/fi-name";

pub const LABEL_SPEC_HASH: &'static str = "frontend-forge.kubesphere.io/spec-hash";

pub const LABEL_MANIFEST_HASH: &'static str = "frontend-forge.kubesphere.io/manifest-hash";

pub const LABEL_ENABLED: &'static str = "frontend-forge.kubesphere.io/enabled";

pub const LABEL_BUILD_KIND: &'static str = "frontend-forge.kubesphere.io/build-kind";

pub const BUILD_KIND_VALUE: &'static str = "build";

pub const ANNO_MANIFEST_HASH: &'static str = "frontend-forge.kubesphere.io/manifest-hash";

pub const ANNO_OBSERVED_GENERATION: &'static str = "frontend-forge.kubesphere.io/observed-generation";

pub const ANNO_BUILD_JOB: &'static str = "frontend-forge.kubesphere.io/build-job";

pub const ANNO_MANIFEST_CONTENT: &'static str = "frontend-forge.kubesphere.io/manifest";

/// Prefix of digests written as `sha256:<hex>`.
pub open spec fn sha256_prefix() -> Seq<char> {
    seq!['s', 'h', 'a', '2', '5', '6', ':']
}

/// A hash as a label value: the digest with its `sha256:` prefix removed (a label value
/// may not hold `:`).
pub open spec fn spec_hash_label_value(hash: Seq<char>) -> Seq<char> {
    if seq_starts_with(hash, sha256_prefix()) {
        hash.skip(7)
    } else {
        hash
    }
}

pub fn hash_label_value(hash: &str) -> (r: String)
    ensures
        r@ == spec_hash_label_value(hash@),
{
    let prefix = "sha256:";
    proof {
        reveal_strlit("sha256:");
    }
    assert(prefix@ =~= sha256_prefix());
    if starts_with(hash, prefix) {
        let n = hash.unicode_len();
        String::from_str(hash.substring_char(7, n))
    } else {
        String::from_str(hash)
    }
}

/// The text of the `enabled` label: `"true"` or `"false"`.
pub open spec fn spec_enabled_label_value(enabled: bool) -> Seq<char> {
    if enabled {
        "true"@
    } else {
        "false"@
    }
}

pub fn enabled_label_value(enabled: bool) -> (r: &'static str)
    ensures
        r@ == spec_enabled_label_value(enabled),
{
    if enabled {
        "true"
    } else {
        "false"
    }
}

/// Name of the JSBundle of an integration: `fi-<name>`.
pub open spec fn spec_default_bundle_name(fi_name: Seq<char>) -> Seq<char> {
    "fi-"@ + fi_name
}

pub fn default_bundle_name(fi_name: &str) -> (r: String)
    ensures
        r@ == spec_default_bundle_name(fi_name@),
{
    concat_str("fi-", fi_name)
}

/// Longest name that a Kubernetes object name or label value may have.
pub const MAX_NAME_LEN: usize = 63;

/// A derived object name kept within [`MAX_NAME_LEN`] characters by cutting its tail.
pub open spec fn spec_bounded_name(name: Seq<char>) -> Seq<char> {
    spec_truncate(name, MAX_NAME_LEN as nat)
}

pub fn bounded_name(name: &str) -> (r: String)
    ensures
        r@ == spec_bounded_name(name@),
{
    truncate(name, MAX_NAME_LEN)
}

/// Name of the build Job for an integration and a spec hash: `fi-<name>-<hash>`, the hash
/// without its `sha256:` prefix, bounded in length.
pub open spec fn spec_job_name(fi_name: Seq<char>, spec_hash: Seq<char>) -> Seq<char> {
    spec_bounded_name("fi-"@ + fi_name + "-"@ + spec_hash_label_value(spec_hash))
}

pub fn job_name(fi_name: &str, spec_hash: &str) -> (r: String)
    ensures
        r@ == spec_job_name(fi_name@, spec_hash@),
{
    let hash = hash_label_value(spec_hash);
    let head = concat3("fi-", fi_name, "-");
    let full = concat_str(head.as_str(), hash.as_str());
    bounded_name(full.as_str())
}

/// Setting key `k` of a map to `v`: the first entry with key `k` gets value `v`, or the
/// entry is appended.
pub open spec fn map_insert(m: Seq<(Seq<char>, Seq<char>)>, k: Seq<char>, v: Seq<char>) -> Seq<
    (Seq<char>, Seq<char>),
>
    decreases m.len(),
{
    if m.len() == 0 {
        seq![(k, v)]
    } else if m[0].0 == k {
        seq![(k, v)] + m.drop_first()
    } else {
        seq![m[0]] + map_insert(m.drop_first(), k, v)
    }
}

proof fn lemma_map_insert_split(m: Seq<(Seq<char>, Seq<char>)>, i: int, k: Seq<char>, v: Seq<char>)
    requires
        0 <= i <= m.len(),
        forall|j: int| 0 <= j < i ==> m[j].0 != k,
    ensures
        map_insert(m, k, v) == m.subrange(0, i) + map_insert(m.subrange(i, m.len() as int), k, v),
    decreases i,
{
    if i == 0 {
        assert(m.subrange(0, 0) + map_insert(m.subrange(0, m.len() as int), k, v) =~= map_insert(m, k, v)) by {
            assert(m.subrange(0, m.len() as int) =~= m);
        }
    } else {
        let t = m.drop_first();
        assert forall|j: int| 0 <= j < i - 1 implies t[j].0 != k by {
            assert(t[j] == m[j + 1]);
        }
        lemma_map_insert_split(t, i - 1, k, v);
        assert(t.subrange(i - 1, t.len() as int) =~= m.subrange(i, m.len() as int));
        assert(seq![m[0]] + t.subrange(0, i - 1) =~= m.subrange(0, i));
    }
}

/// Sets `key` to `value` in a string map.
pub fn string_map_insert(m: &mut StringMap, key: String, value: String)
    ensures
        final(m).deep_view() == map_insert(old(m).deep_view(), key@, value@),
{
    let ghost m0 = m.deep_view();
    let ghost kv = key@;
    let ghost vv = value@;
    let n = m.len();
    let mut i: usize = 0;
    while i < n
        invariant
            n == m@.len(),
            0 <= i <= n,
            m.deep_view() == m0,
            m0 == old(m).deep_view(),
            kv == key@,
            vv == value@,
            forall|j: int| 0 <= j < i ==> #[trigger] m0[j].0 != kv,
        decreases n - i,
    {
        assert(m0[i as int] == m@[i as int].deep_view());
        if m[i].0 == key {
            proof {
                lemma_map_insert_split(m0, i as int, kv, vv);
                let tail = m0.subrange(i as int, m0.len() as int);
                assert(tail[0].0 == kv);
                assert(map_insert(tail, kv, vv) == seq![(kv, vv)] + tail.drop_first());
            }
            m.set(i, (key, value));
            proof {
                let tail = m0.subrange(i as int, m0.len() as int);
                assert(m.deep_view() =~= m0.subrange(0, i as int) + (seq![(kv, vv)] + tail.drop_first()));
            }
            return;
        }
        i += 1;
    }
    proof {
        lemma_map_insert_split(m0, n as int, kv, vv);
        assert(m0.subrange(n as int, n as int) =~= Seq::<(Seq<char>, Seq<char>)>::empty());
    }
    m.push((key, value));
    assert(m.deep_view() =~= m0.subrange(0, n as int) + seq![(kv, vv)]);
}

/// Looking up the key just set gives the value just set.
pub proof fn lemma_map_insert_get(m: Seq<(Seq<char>, Seq<char>)>, k: Seq<char>, v: Seq<char>)
    ensures
        map_get(map_insert(m, k, v), k) == Some(v),
    decreases m.len(),
{
    if m.len() > 0 && m[0].0 != k {
        lemma_map_insert_get(m.drop_first(), k, v);
        assert((seq![m[0]] + map_insert(m.drop_first(), k, v)).drop_first() =~= map_insert(
            m.drop_first(),
            k,
            v,
        ));
    }
}

} // verus!
