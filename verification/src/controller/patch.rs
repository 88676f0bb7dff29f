//! The patches the controller sends: the `enabled` label of integrations and bundles, a
//! bundle's state, and the integration status with its cleared fields written as `null`.
use crate::api::{
    FrontendIntegrationPhase, FrontendIntegrationStatus, FrontendIntegrationStatusView, LastBuildStatus,
    LastBuildStatusView, ResourceRef, ResourceRefView, SimpleCondition, SimpleConditionView,
};
use crate::decimal::{i64_to_decimal, spec_int_decimal};
use crate::json::{
    entries_view, finish_object, items_view, json_view, lemma_array_view, new_object, opt_entry, opt_str_entry,
    push_entry, push_opt_str, JsonValue, JsonView,
};
use crate::labels::{enabled_label_value, spec_enabled_label_value, LABEL_ENABLED};
use crate::resource::{opt_map_get, opt_string_map_get, FrontendIntegration, JSBundle, JSBundleView, StringMap};
use crate::time::{format_rfc3339, rfc3339_text, timestamp_in_range, Timestamp};
use vstd::prelude::*;

verus! {

broadcast use vstd::std_specs::vec::group_vec_axioms;

// ---------------------------------------------------------------- labels and state
/// `{"metadata": {"labels": {key: value}}}`.
pub open spec fn spec_label_patch(key: Seq<char>, value: Seq<char>) -> JsonView {
    JsonView::Object(
        seq![("metadata"@, JsonView::Object(seq![("labels"@, JsonView::Object(seq![(key, JsonView::Str(value))]))]))],
    )
}

fn label_patch(key: &str, value: &str) -> (j: JsonValue)
    ensures
        j@ == spec_label_patch(key@, value@),
{
    let mut labels = new_object();
    push_entry(&mut labels, key, JsonValue::Str(String::from_str(value)));
    assert(entries_view(labels@) =~= seq![(key@, JsonView::Str(value@))]);
    let labels = finish_object(labels);
    let mut metadata = new_object();
    push_entry(&mut metadata, "labels", labels);
    assert(entries_view(metadata@) =~= seq![("labels"@, labels@)]);
    let metadata = finish_object(metadata);
    let mut top = new_object();
    push_entry(&mut top, "metadata", metadata);
    assert(entries_view(top@) =~= seq![("metadata"@, metadata@)]);
    let j = finish_object(top);
    assert(j@ == spec_label_patch(key@, value@));
    j
}

/// The patch that sets the `enabled` label of an object to `enabled`, or none when the label
/// already has that value.
pub open spec fn spec_enabled_label_patch(labels: Option<Seq<(Seq<char>, Seq<char>)>>, enabled: bool) -> Option<
    JsonView,
> {
    if opt_map_get(labels, LABEL_ENABLED@) == Some(spec_enabled_label_value(enabled)) {
        None
    } else {
        Some(spec_label_patch(LABEL_ENABLED@, spec_enabled_label_value(enabled)))
    }
}

fn enabled_label_patch(labels: &Option<StringMap>, enabled: bool) -> (r: Option<JsonValue>)
    ensures
        r.deep_view() == spec_enabled_label_patch(labels.deep_view(), enabled),
{
    let desired = enabled_label_value(enabled);
    let same = match opt_string_map_get(labels, LABEL_ENABLED) {
        Some(v) => *v == String::from_str(desired),
        None => false,
    };
    if same {
        None
    } else {
        Some(label_patch(LABEL_ENABLED, desired))
    }
}

/// The label patch that brings an integration's `enabled` label in line with its spec.
pub fn fi_enabled_label_patch(fi: &FrontendIntegration) -> (r: Option<JsonValue>)
    ensures
        r.deep_view() == spec_enabled_label_patch(
            fi.deep_view().metadata.labels,
            crate::api::spec_enabled(fi.deep_view().spec),
        ),
{
    enabled_label_patch(&fi.metadata.labels, fi.spec.enabled())
}

/// The label patch that sets a bundle's `enabled` label.
pub fn jsbundle_enabled_label_patch(bundle: &JSBundle, enabled: bool) -> (r: Option<JsonValue>)
    ensures
        r.deep_view() == spec_enabled_label_patch(bundle.deep_view().metadata.labels, enabled),
{
    enabled_label_patch(&bundle.metadata.labels, enabled)
}

/// The state a bundle is given: `Available` when its integration is enabled, `Disabled`
/// otherwise.
pub open spec fn spec_jsbundle_state(enabled: bool) -> Seq<char> {
    if enabled {
        "Available"@
    } else {
        "Disabled"@
    }
}

pub fn jsbundle_state(enabled: bool) -> (r: &'static str)
    ensures
        r@ == spec_jsbundle_state(enabled),
{
    if enabled {
        "Available"
    } else {
        "Disabled"
    }
}

pub open spec fn spec_bundle_state(bundle: JSBundleView) -> Option<Seq<char>> {
    match bundle.status {
        Some(s) => s.state,
        None => None,
    }
}

/// `{"status": {"state": state}}`, or none when the bundle is already in that state.
pub open spec fn spec_jsbundle_state_patch(bundle: JSBundleView, enabled: bool) -> Option<JsonView> {
    if spec_bundle_state(bundle) == Some(spec_jsbundle_state(enabled)) {
        None
    } else {
        Some(
            JsonView::Object(
                seq![("status"@, JsonView::Object(seq![("state"@, JsonView::Str(spec_jsbundle_state(enabled)))]))],
            ),
        )
    }
}

pub fn jsbundle_state_patch(bundle: &JSBundle, enabled: bool) -> (r: Option<JsonValue>)
    ensures
        r.deep_view() == spec_jsbundle_state_patch(bundle.deep_view(), enabled),
{
    let desired = jsbundle_state(enabled);
    let same = match &bundle.status {
        Some(s) => match &s.state {
            Some(v) => *v == String::from_str(desired),
            None => false,
        },
        None => false,
    };
    if same {
        None
    } else {
        let mut status = new_object();
        push_entry(&mut status, "state", JsonValue::Str(String::from_str(desired)));
        assert(entries_view(status@) =~= seq![("state"@, JsonView::Str(desired@))]);
        let status = finish_object(status);
        let mut top = new_object();
        push_entry(&mut top, "status", status);
        assert(entries_view(top@) =~= seq![("status"@, status@)]);
        Some(finish_object(top))
    }
}

// ---------------------------------------------------------------- status patch
pub open spec fn spec_phase_str(p: FrontendIntegrationPhase) -> Seq<char> {
    match p {
        FrontendIntegrationPhase::Pending => "Pending"@,
        FrontendIntegrationPhase::Building => "Building"@,
        FrontendIntegrationPhase::Succeeded => "Succeeded"@,
        FrontendIntegrationPhase::Failed => "Failed"@,
    }
}

fn phase_str(p: FrontendIntegrationPhase) -> (s: &'static str)
    ensures
        s@ == spec_phase_str(p),
{
    match p {
        FrontendIntegrationPhase::Pending => "Pending",
        FrontendIntegrationPhase::Building => "Building",
        FrontendIntegrationPhase::Succeeded => "Succeeded",
        FrontendIntegrationPhase::Failed => "Failed",
    }
}

/// An instant as the RFC 3339 string it is serialized to.
pub open spec fn spec_timestamp_json(t: Timestamp) -> JsonView {
    JsonView::Str(rfc3339_text(t.seconds, t.nanos))
}

pub open spec fn opt_timestamp_json(t: Option<Timestamp>) -> Option<JsonView> {
    match t {
        Some(t) => Some(spec_timestamp_json(t)),
        None => None,
    }
}

pub open spec fn opt_number_json(n: Option<i64>) -> Option<JsonView> {
    match n {
        Some(n) => Some(JsonView::Number(spec_int_decimal(n as int))),
        None => None,
    }
}

fn push_opt_timestamp(out: &mut Vec<(String, JsonValue)>, key: &str, t: Option<Timestamp>)
    requires
        t matches Some(t) ==> timestamp_in_range(t),
    ensures
        entries_view(final(out)@) == entries_view(old(out)@) + opt_entry(key@, opt_timestamp_json(t)),
{
    match t {
        Some(t) => {
            let text = format_rfc3339(t);
            push_entry(out, key, JsonValue::Str(text));
        },
        None => {
            assert(entries_view(out@) =~= entries_view(out@) + Seq::<(Seq<char>, JsonView)>::empty());
        },
    }
}

fn push_opt_number(out: &mut Vec<(String, JsonValue)>, key: &str, n: Option<i64>)
    ensures
        entries_view(final(out)@) == entries_view(old(out)@) + opt_entry(key@, opt_number_json(n)),
{
    match n {
        Some(n) => push_entry(out, key, JsonValue::Number(i64_to_decimal(n))),
        None => {
            assert(entries_view(out@) =~= entries_view(out@) + Seq::<(Seq<char>, JsonView)>::empty());
        },
    }
}

/// A resource reference as serialized: `name`, then `namespace` and `uid` when present.
pub open spec fn spec_resource_ref_json(r: ResourceRefView) -> JsonView {
    JsonView::Object(
        seq![("name"@, JsonView::Str(r.name))] + opt_str_entry("namespace"@, r.namespace) + opt_str_entry(
            "uid"@,
            r.uid,
        ),
    )
}

pub open spec fn opt_resource_ref_json(r: Option<ResourceRefView>) -> Option<JsonView> {
    match r {
        Some(r) => Some(spec_resource_ref_json(r)),
        None => None,
    }
}

fn resource_ref_json(r: &ResourceRef) -> (j: JsonValue)
    ensures
        j@ == spec_resource_ref_json(r.deep_view()),
{
    let mut out = new_object();
    push_entry(&mut out, "name", JsonValue::Str(r.name.clone()));
    push_opt_str(&mut out, "namespace", &r.namespace);
    push_opt_str(&mut out, "uid", &r.uid);
    let ghost rv = r.deep_view();
    assert(entries_view(out@) =~= seq![("name"@, JsonView::Str(rv.name))] + opt_str_entry("namespace"@, rv.namespace)
        + opt_str_entry("uid"@, rv.uid));
    finish_object(out)
}

fn push_opt_resource_ref(out: &mut Vec<(String, JsonValue)>, key: &str, r: &Option<ResourceRef>)
    ensures
        entries_view(final(out)@) == entries_view(old(out)@) + opt_entry(key@, opt_resource_ref_json(r.deep_view())),
{
    match r {
        Some(r) => push_entry(out, key, resource_ref_json(r)),
        None => {
            assert(entries_view(out@) =~= entries_view(out@) + Seq::<(Seq<char>, JsonView)>::empty());
        },
    }
}

/// The latest build as serialized: `job_ref` and `started_at` when present.
pub open spec fn spec_last_build_json(b: LastBuildStatusView) -> JsonView {
    JsonView::Object(
        opt_entry("job_ref"@, opt_resource_ref_json(b.job_ref)) + opt_entry(
            "started_at"@,
            opt_timestamp_json(b.started_at),
        ),
    )
}

pub open spec fn opt_last_build_json(b: Option<LastBuildStatusView>) -> Option<JsonView> {
    match b {
        Some(b) => Some(spec_last_build_json(b)),
        None => None,
    }
}

fn last_build_json(b: &LastBuildStatus) -> (j: JsonValue)
    requires
        b.started_at matches Some(t) ==> timestamp_in_range(t),
    ensures
        j@ == spec_last_build_json(b.deep_view()),
{
    let mut out = new_object();
    push_opt_resource_ref(&mut out, "job_ref", &b.job_ref);
    push_opt_timestamp(&mut out, "started_at", b.started_at);
    assert(entries_view(out@) =~= opt_entry("job_ref"@, opt_resource_ref_json(b.deep_view().job_ref)) + opt_entry(
        "started_at"@,
        opt_timestamp_json(b.deep_view().started_at),
    ));
    finish_object(out)
}

/// A condition as serialized: `type` and `status`, then the optional fields when present.
pub open spec fn spec_condition_json(c: SimpleConditionView) -> JsonView {
    JsonView::Object(
        seq![("type"@, JsonView::Str(c.type_)), ("status"@, JsonView::Str(c.status))] + opt_str_entry(
            "reason"@,
            c.reason,
        ) + opt_str_entry("message"@, c.message) + opt_entry(
            "observed_generation"@,
            opt_number_json(c.observed_generation),
        ) + opt_entry("last_transition_time"@, opt_timestamp_json(c.last_transition_time)),
    )
}

fn condition_json(c: &SimpleCondition) -> (j: JsonValue)
    requires
        c.last_transition_time matches Some(t) ==> timestamp_in_range(t),
    ensures
        j@ == spec_condition_json(c.deep_view()),
{
    let mut out = new_object();
    push_entry(&mut out, "type", JsonValue::Str(c.type_.clone()));
    push_entry(&mut out, "status", JsonValue::Str(c.status.clone()));
    push_opt_str(&mut out, "reason", &c.reason);
    push_opt_str(&mut out, "message", &c.message);
    push_opt_number(&mut out, "observed_generation", c.observed_generation);
    push_opt_timestamp(&mut out, "last_transition_time", c.last_transition_time);
    let ghost cv = c.deep_view();
    assert(entries_view(out@) =~= seq![("type"@, JsonView::Str(cv.type_)), ("status"@, JsonView::Str(cv.status))]
        + opt_str_entry("reason"@, cv.reason) + opt_str_entry("message"@, cv.message) + opt_entry(
        "observed_generation"@,
        opt_number_json(cv.observed_generation),
    ) + opt_entry("last_transition_time"@, opt_timestamp_json(cv.last_transition_time)));
    finish_object(out)
}

/// The instants of a status can all be written as RFC 3339 text (always so for statuses
/// built from the clock or read from the API server).
pub open spec fn status_times_in_range(st: FrontendIntegrationStatusView) -> bool {
    &&& (st.last_build matches Some(b) ==> (b.started_at matches Some(t) ==> timestamp_in_range(t)))
    &&& forall|i: int|
        0 <= i < st.conditions.len() ==> ((#[trigger] st.conditions[i]).last_transition_time matches Some(t)
            ==> timestamp_in_range(t))
}

/// The conditions entry: present only when there is a condition.
pub open spec fn conditions_entry(conds: Seq<SimpleConditionView>) -> Seq<(Seq<char>, JsonView)> {
    if conds.len() == 0 {
        Seq::empty()
    } else {
        seq![("conditions"@, JsonView::Array(conds.map_values(|c: SimpleConditionView| spec_condition_json(c))))]
    }
}

/// The entries of a serialized status: `phase`, then each optional field when present,
/// then `conditions` when there is one.
pub open spec fn spec_status_entries(st: FrontendIntegrationStatusView) -> Seq<(Seq<char>, JsonView)> {
    seq![("phase"@, JsonView::Str(spec_phase_str(st.phase)))] + opt_str_entry(
        "observed_spec_hash"@,
        st.observed_spec_hash,
    ) + opt_str_entry("observed_manifest_hash"@, st.observed_manifest_hash) + opt_entry(
        "observed_generation"@,
        opt_number_json(st.observed_generation),
    ) + opt_entry("last_build"@, opt_last_build_json(st.last_build)) + opt_entry(
        "bundle_ref"@,
        opt_resource_ref_json(st.bundle_ref),
    ) + opt_str_entry("message"@, st.message) + opt_str_entry("last_error"@, st.last_error) + conditions_entry(
        st.conditions,
    )
}

/// The entry `key: null` when the value is absent, so that a merge patch clears it.
pub open spec fn null_if_absent<T>(key: Seq<char>, v: Option<T>) -> Seq<(Seq<char>, JsonView)> {
    match v {
        Some(_) => Seq::empty(),
        None => seq![(key, JsonView::Null)],
    }
}

/// The merge patch that writes a status: `{"status": ...}`, where a missing `last_build`,
/// `bundle_ref` or `last_error` is written as `null`.
pub open spec fn spec_status_patch(st: FrontendIntegrationStatusView) -> JsonView {
    JsonView::Object(
        seq![
            (
                "status"@,
                JsonView::Object(
                    spec_status_entries(st) + null_if_absent("last_build"@, st.last_build) + null_if_absent(
                        "bundle_ref"@,
                        st.bundle_ref,
                    ) + null_if_absent("last_error"@, st.last_error),
                ),
            ),
        ],
    )
}

fn push_conditions(out: &mut Vec<(String, JsonValue)>, conds: &Vec<SimpleCondition>)
    requires
        forall|i: int|
            0 <= i < conds@.len() ==> ((#[trigger] conds@[i]).last_transition_time matches Some(t)
                ==> timestamp_in_range(t)),
    ensures
        entries_view(final(out)@) == entries_view(old(out)@) + conditions_entry(conds.deep_view()),
{
    if conds.len() == 0 {
        assert(entries_view(out@) =~= entries_view(out@) + Seq::<(Seq<char>, JsonView)>::empty());
        return;
    }
    let mut items: Vec<JsonValue> = Vec::new();
    let mut i: usize = 0;
    let ghost cv = conds.deep_view();
    while i < conds.len()
        invariant
            0 <= i <= conds@.len(),
            cv == conds.deep_view(),
            items@.len() == i,
            forall|k: int|
                0 <= k < conds@.len() ==> ((#[trigger] conds@[k]).last_transition_time matches Some(t)
                    ==> timestamp_in_range(t)),
            forall|k: int| 0 <= k < i ==> #[trigger] json_view(items@[k]) == spec_condition_json(cv[k]),
        decreases conds@.len() - i,
    {
        assert(cv[i as int] == conds@[i as int].deep_view());
        let j = condition_json(&conds[i]);
        items.push(j);
        i += 1;
    }
    proof {
        lemma_array_view(items);
        assert(items_view(items@) =~= cv.map_values(|c: SimpleConditionView| spec_condition_json(c)));
    }
    push_entry(out, "conditions", JsonValue::Array(items));
}

fn push_null_if_absent<T>(out: &mut Vec<(String, JsonValue)>, key: &str, v: &Option<T>)
    ensures
        entries_view(final(out)@) == entries_view(old(out)@) + null_if_absent(key@, *v),
{
    match v {
        Some(_) => {
            assert(entries_view(out@) =~= entries_view(out@) + Seq::<(Seq<char>, JsonView)>::empty());
        },
        None => push_entry(out, key, JsonValue::Null),
    }
}

/// The merge patch that records `status` on an integration.
pub fn frontend_integration_status_patch(status: &FrontendIntegrationStatus) -> (j: JsonValue)
    requires
        status_times_in_range(status.deep_view()),
    ensures
        j@ == spec_status_patch(status.deep_view()),
{
    let ghost sv = status.deep_view();
    let mut out = new_object();
    push_entry(&mut out, "phase", JsonValue::Str(String::from_str(phase_str(status.phase))));
    push_opt_str(&mut out, "observed_spec_hash", &status.observed_spec_hash);
    push_opt_str(&mut out, "observed_manifest_hash", &status.observed_manifest_hash);
    push_opt_number(&mut out, "observed_generation", status.observed_generation);
    match &status.last_build {
        Some(b) => push_entry(&mut out, "last_build", last_build_json(b)),
        None => {
            assert(entries_view(out@) =~= entries_view(out@) + Seq::<(Seq<char>, JsonView)>::empty());
        },
    }
    assert(entries_view(out@) == seq![("phase"@, JsonView::Str(spec_phase_str(sv.phase)))] + opt_str_entry(
        "observed_spec_hash"@,
        sv.observed_spec_hash,
    ) + opt_str_entry("observed_manifest_hash"@, sv.observed_manifest_hash) + opt_entry(
        "observed_generation"@,
        opt_number_json(sv.observed_generation),
    ) + opt_entry("last_build"@, opt_last_build_json(sv.last_build)));
    push_opt_resource_ref(&mut out, "bundle_ref", &status.bundle_ref);
    push_opt_str(&mut out, "message", &status.message);
    push_opt_str(&mut out, "last_error", &status.last_error);
    proof {
        assert forall|i: int| 0 <= i < status.conditions@.len() implies
            ((#[trigger] status.conditions@[i]).last_transition_time matches Some(t) ==> timestamp_in_range(t)) by {
            assert(sv.conditions[i] == status.conditions@[i].deep_view());
        }
    }
    push_conditions(&mut out, &status.conditions);
    assert(entries_view(out@) =~= spec_status_entries(sv));
    push_null_if_absent(&mut out, "last_build", &status.last_build);
    push_null_if_absent(&mut out, "bundle_ref", &status.bundle_ref);
    push_null_if_absent(&mut out, "last_error", &status.last_error);
    assert(entries_view(out@) =~= spec_status_entries(sv) + null_if_absent("last_build"@, sv.last_build)
        + null_if_absent("bundle_ref"@, sv.bundle_ref) + null_if_absent("last_error"@, sv.last_error));
    let inner = finish_object(out);
    let mut top = new_object();
    push_entry(&mut top, "status", inner);
    assert(entries_view(top@) =~= seq![("status"@, inner@)]);
    finish_object(top)
}

} // verus!
