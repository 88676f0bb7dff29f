//! Integration status values, and the tests that decide whether a build is needed and
//! whether a Job can be reused.
use crate::api::{
    FrontendIntegrationPhase, FrontendIntegrationStatus, FrontendIntegrationStatusView, LastBuildStatus,
    LastBuildStatusView, ResourceRef, ResourceRefView,
};
use crate::controller::job::{observed_job_phase, spec_observed_job_phase, ObservedJobPhase};
use crate::duplicate::Duplicate;
use crate::labels::{
    hash_label_value, sha256_prefix, spec_hash_label_value, ANNO_MANIFEST_HASH, LABEL_MANIFEST_HASH,
    LABEL_SPEC_HASH,
};
use crate::resource::{
    name_any, opt_map_get, opt_string_map_get, spec_name_any, FrontendIntegration,
    FrontendIntegrationView, JSBundle, JSBundleView, Job, JobView, ObjectMeta, ObjectMetaView,
};
use crate::text::{concat_str, seq_starts_with, starts_with};
use crate::time::{timestamp_in_range, utc_now, Timestamp};
use vstd::prelude::*;

verus! {

/// A reference to an object by name, namespace and uid.
pub open spec fn spec_resource_ref(m: ObjectMetaView) -> ResourceRefView {
    ResourceRefView { name: spec_name_any(m), namespace: m.namespace, uid: m.uid }
}

pub fn resource_ref(m: &ObjectMeta) -> (r: ResourceRef)
    ensures
        r.deep_view() == spec_resource_ref(m.deep_view()),
{
    ResourceRef { name: name_any(m), namespace: m.namespace.duplicate(), uid: m.uid.duplicate() }
}

/// The generation written into a new status: the object's, or 0.
pub open spec fn spec_generation(fi: FrontendIntegrationView) -> Option<i64> {
    Some(
        match fi.metadata.generation {
            Some(g) => g,
            None => 0,
        },
    )
}

pub open spec fn prev_observed_spec_hash(fi: FrontendIntegrationView) -> Option<Seq<char>> {
    match fi.status {
        Some(s) => s.observed_spec_hash,
        None => None,
    }
}

pub open spec fn prev_manifest_hash(fi: FrontendIntegrationView) -> Option<Seq<char>> {
    match fi.status {
        Some(s) => s.observed_manifest_hash,
        None => None,
    }
}

pub open spec fn prev_last_build(fi: FrontendIntegrationView) -> Option<LastBuildStatusView> {
    match fi.status {
        Some(s) => s.last_build,
        None => None,
    }
}

pub open spec fn prev_bundle_ref(fi: FrontendIntegrationView) -> Option<ResourceRefView> {
    match fi.status {
        Some(s) => s.bundle_ref,
        None => None,
    }
}

pub open spec fn prev_last_error(fi: FrontendIntegrationView) -> Option<Seq<char>> {
    match fi.status {
        Some(s) => s.last_error,
        None => None,
    }
}

pub open spec fn prev_started_at(fi: FrontendIntegrationView) -> Option<Timestamp> {
    match prev_last_build(fi) {
        Some(b) => b.started_at,
        None => None,
    }
}

fn generation_of(fi: &FrontendIntegration) -> (g: Option<i64>)
    ensures
        g == spec_generation(fi.deep_view()),
{
    Some(
        match fi.metadata.generation {
            Some(g) => g,
            None => 0,
        },
    )
}

fn prev_manifest_hash_of(fi: &FrontendIntegration) -> (h: Option<String>)
    ensures
        h.deep_view() == prev_manifest_hash(fi.deep_view()),
{
    match &fi.status {
        Some(s) => s.observed_manifest_hash.duplicate(),
        None => None,
    }
}

pub fn prev_last_error_of(fi: &FrontendIntegration) -> (e: Option<String>)
    ensures
        e.deep_view() == prev_last_error(fi.deep_view()),
{
    match &fi.status {
        Some(s) => s.last_error.duplicate(),
        None => None,
    }
}

fn prev_last_build_of(fi: &FrontendIntegration) -> (b: Option<LastBuildStatus>)
    ensures
        b.deep_view() == prev_last_build(fi.deep_view()),
{
    match &fi.status {
        Some(s) => s.last_build.duplicate(),
        None => None,
    }
}

/// Whether a bundle carries the spec-hash label of `spec_hash`.
pub open spec fn spec_bundle_matches_spec_hash(bundle: JSBundleView, spec_hash: Seq<char>) -> bool {
    opt_map_get(bundle.metadata.labels, LABEL_SPEC_HASH@) == Some(spec_hash_label_value(spec_hash))
}

pub fn bundle_matches_spec_hash(bundle: &JSBundle, spec_hash: &str) -> (b: bool)
    ensures
        b == spec_bundle_matches_spec_hash(bundle.deep_view(), spec_hash@),
{
    let expected = hash_label_value(spec_hash);
    match opt_string_map_get(&bundle.metadata.labels, LABEL_SPEC_HASH) {
        Some(v) => *v == expected,
        None => false,
    }
}

/// Whether an optional bundle is present and matches `spec_hash`.
pub open spec fn spec_opt_bundle_matches(bundle: Option<JSBundleView>, spec_hash: Seq<char>) -> bool {
    match bundle {
        Some(b) => spec_bundle_matches_spec_hash(b, spec_hash),
        None => false,
    }
}

fn opt_bundle_matches(bundle: Option<&JSBundle>, spec_hash: &str) -> (b: bool)
    ensures
        b == spec_opt_bundle_matches(opt_bundle_view(bundle), spec_hash@),
{
    match bundle {
        Some(b) => bundle_matches_spec_hash(b, spec_hash),
        None => false,
    }
}

/// The view of an optional borrowed bundle.
pub open spec fn opt_bundle_view(bundle: Option<&JSBundle>) -> Option<JSBundleView> {
    match bundle {
        Some(b) => Some(b.deep_view()),
        None => None,
    }
}

/// The hash that the status says was built: the spec hash, else the legacy manifest hash.
pub open spec fn spec_observed_hash(status: Option<FrontendIntegrationStatusView>) -> Option<Seq<char>> {
    match status {
        Some(s) => match s.observed_spec_hash {
            Some(h) => Some(h),
            None => s.observed_manifest_hash,
        },
        None => None,
    }
}

/// A build is needed when the integration has no status yet, when the observed hash is not
/// `spec_hash`, or when it is but the matching bundle is missing and the last build neither
/// runs nor failed (a failed build is not retried for an unchanged spec).
pub open spec fn spec_needs_new_build(
    status: Option<FrontendIntegrationStatusView>,
    spec_hash: Seq<char>,
    bundle: Option<JSBundleView>,
) -> bool {
    let observed = spec_observed_hash(status);
    let hash_changed = observed != Some(spec_hash);
    let pending_initial = status is None;
    let in_flight_or_failed = match status {
        Some(s) => s.phase == FrontendIntegrationPhase::Building || s.phase
            == FrontendIntegrationPhase::Failed,
        None => false,
    };
    let missing_matching_bundle = observed == Some(spec_hash) && !in_flight_or_failed
        && !spec_opt_bundle_matches(bundle, spec_hash);
    hash_changed || pending_initial || missing_matching_bundle
}

pub fn needs_new_build(fi: &FrontendIntegration, spec_hash: &str, bundle: Option<&JSBundle>) -> (b: bool)
    ensures
        b == spec_needs_new_build(fi.deep_view().status, spec_hash@, opt_bundle_view(bundle)),
{
    let status = match &fi.status {
        Some(s) => s,
        None => {
            return true;
        },
    };
    let observed = match &status.observed_spec_hash {
        Some(h) => Some(h),
        None => match &status.observed_manifest_hash {
            Some(h) => Some(h),
            None => None,
        },
    };
    let matches_hash = match observed {
        Some(h) => *h == String::from_str(spec_hash),
        None => false,
    };
    if !matches_hash {
        return true;
    }
    let in_flight_or_failed = status.phase == FrontendIntegrationPhase::Building || status.phase
        == FrontendIntegrationPhase::Failed;
    !in_flight_or_failed && !opt_bundle_matches(bundle, spec_hash)
}

/// Whether an existing Job for the current hash is reused instead of creating a new one:
/// pending and running Jobs are; a succeeded Job only while its bundle matches and the last
/// build did not fail; a failed Job never is.
pub open spec fn spec_should_reuse_build_job(
    fi: FrontendIntegrationView,
    job: JobView,
    bundle: Option<JSBundleView>,
    spec_hash: Seq<char>,
) -> bool {
    match spec_observed_job_phase(job.status) {
        ObservedJobPhase::Pending | ObservedJobPhase::Running => true,
        ObservedJobPhase::Succeeded => spec_opt_bundle_matches(bundle, spec_hash) && !(match fi.status {
            Some(s) => s.phase == FrontendIntegrationPhase::Failed,
            None => false,
        }),
        ObservedJobPhase::Failed => false,
    }
}

pub fn should_reuse_build_job(
    fi: &FrontendIntegration,
    job: &Job,
    bundle: Option<&JSBundle>,
    spec_hash: &str,
) -> (b: bool)
    ensures
        b == spec_should_reuse_build_job(fi.deep_view(), job.deep_view(), opt_bundle_view(bundle), spec_hash@),
{
    let phase = observed_job_phase(
        match &job.status {
            Some(s) => Some(s),
            None => None,
        },
    );
    match phase {
        ObservedJobPhase::Pending | ObservedJobPhase::Running => true,
        ObservedJobPhase::Succeeded => {
            let bundle_ready = opt_bundle_matches(bundle, spec_hash);
            let failed = match &fi.status {
                Some(s) => s.phase == FrontendIntegrationPhase::Failed,
                None => false,
            };
            bundle_ready && !failed
        },
        ObservedJobPhase::Failed => false,
    }
}

/// The manifest hash a bundle records: its manifest-hash annotation, else its manifest-hash
/// label with the `sha256:` prefix put back.
pub open spec fn spec_bundle_manifest_hash(bundle: JSBundleView) -> Option<Seq<char>> {
    match opt_map_get(bundle.metadata.annotations, ANNO_MANIFEST_HASH@) {
        Some(v) => Some(v),
        None => match opt_map_get(bundle.metadata.labels, LABEL_MANIFEST_HASH@) {
            Some(v) => Some(
                if seq_starts_with(v, sha256_prefix()) {
                    v
                } else {
                    sha256_prefix() + v
                },
            ),
            None => None,
        },
    }
}

pub fn bundle_manifest_hash(bundle: &JSBundle) -> (h: Option<String>)
    ensures
        h.deep_view() == spec_bundle_manifest_hash(bundle.deep_view()),
{
    if let Some(v) = opt_string_map_get(&bundle.metadata.annotations, ANNO_MANIFEST_HASH) {
        return Some(v.clone());
    }
    let prefix = "sha256:";
    proof {
        reveal_strlit("sha256:");
    }
    assert(prefix@ =~= sha256_prefix());
    match opt_string_map_get(&bundle.metadata.labels, LABEL_MANIFEST_HASH) {
        Some(v) => if starts_with(v.as_str(), prefix) {
            Some(v.clone())
        } else {
            Some(concat_str(prefix, v.as_str()))
        },
        None => None,
    }
}

/// Status of a disabled integration: pending, keeping the observed hashes, dropping the last
/// build and its error, and pointing at the bundle that exists now, if any.
pub open spec fn spec_disabled_status(fi: FrontendIntegrationView, bundle: Option<JSBundleView>) -> FrontendIntegrationStatusView {
    FrontendIntegrationStatusView {
        phase: FrontendIntegrationPhase::Pending,
        observed_spec_hash: prev_observed_spec_hash(fi),
        observed_manifest_hash: prev_manifest_hash(fi),
        observed_generation: spec_generation(fi),
        last_build: None,
        bundle_ref: match bundle {
            Some(b) => Some(spec_resource_ref(b.metadata)),
            None => None,
        },
        message: Some("Disabled"@),
        last_error: None,
        conditions: seq![],
    }
}

pub fn disabled_status(fi: &FrontendIntegration, bundle: Option<&JSBundle>) -> (st: FrontendIntegrationStatus)
    ensures
        st.deep_view() == spec_disabled_status(fi.deep_view(), opt_bundle_view(bundle)),
{
    let st = FrontendIntegrationStatus {
        phase: FrontendIntegrationPhase::Pending,
        observed_spec_hash: match &fi.status {
            Some(s) => s.observed_spec_hash.duplicate(),
            None => None,
        },
        observed_manifest_hash: prev_manifest_hash_of(fi),
        observed_generation: generation_of(fi),
        last_build: None,
        bundle_ref: match bundle {
            Some(b) => Some(resource_ref(&b.metadata)),
            None => None,
        },
        message: Some(String::from_str("Disabled")),
        last_error: None,
        conditions: Vec::new(),
    };
    assert(st.conditions.deep_view() =~= seq![]);
    st
}

/// Status while a build runs: building `spec_hash` with Job `job` since `started_at`,
/// towards the bundle named `bundle_name`, keeping the error recorded so far (a runner may
/// have written it before its Job is seen to fail).
pub open spec fn spec_building_status(
    fi: FrontendIntegrationView,
    spec_hash: Seq<char>,
    bundle_name: Seq<char>,
    job: JobView,
    message: Seq<char>,
    started_at: Timestamp,
) -> FrontendIntegrationStatusView {
    FrontendIntegrationStatusView {
        phase: FrontendIntegrationPhase::Building,
        observed_spec_hash: Some(spec_hash),
        observed_manifest_hash: prev_manifest_hash(fi),
        observed_generation: spec_generation(fi),
        last_build: Some(
            LastBuildStatusView {
                job_ref: Some(spec_resource_ref(job.metadata)),
                started_at: Some(started_at),
            },
        ),
        bundle_ref: Some(ResourceRefView { name: bundle_name, namespace: None, uid: None }),
        message: Some(message),
        last_error: prev_last_error(fi),
        conditions: seq![],
    }
}

/// The building status, stamped with `started_at`.
pub fn building_status_at(
    fi: &FrontendIntegration,
    spec_hash: &str,
    bundle_name: &str,
    job: &Job,
    message: &str,
    started_at: Timestamp,
) -> (st: FrontendIntegrationStatus)
    ensures
        st.deep_view() == spec_building_status(
            fi.deep_view(),
            spec_hash@,
            bundle_name@,
            job.deep_view(),
            message@,
            started_at,
        ),
{
    let st = FrontendIntegrationStatus {
        phase: FrontendIntegrationPhase::Building,
        observed_spec_hash: Some(String::from_str(spec_hash)),
        observed_manifest_hash: prev_manifest_hash_of(fi),
        observed_generation: generation_of(fi),
        last_build: Some(
            LastBuildStatus { job_ref: Some(resource_ref(&job.metadata)), started_at: Some(started_at) },
        ),
        bundle_ref: Some(ResourceRef { name: String::from_str(bundle_name), namespace: None, uid: None }),
        message: Some(String::from_str(message)),
        last_error: prev_last_error_of(fi),
        conditions: Vec::new(),
    };
    assert(st.conditions.deep_view() =~= seq![]);
    st
}

/// The building status, stamped with the current time; none when the system clock reads no
/// usable instant.
pub fn building_status(
    fi: &FrontendIntegration,
    spec_hash: &str,
    bundle_name: &str,
    job: &Job,
    message: &str,
) -> (r: Option<FrontendIntegrationStatus>)
    ensures
        r matches Some(st) ==> (st.last_build matches Some(b) && b.started_at matches Some(t) && timestamp_in_range(t)
            && st.deep_view() == spec_building_status(
            fi.deep_view(),
            spec_hash@,
            bundle_name@,
            job.deep_view(),
            message@,
            t,
        )),
{
    match utc_now() {
        Some(now) => Some(building_status_at(fi, spec_hash, bundle_name, job, message, now)),
        None => None,
    }
}

/// Status after a build succeeded: the bundle and Job that produced it, keeping the start
/// time of the last build, with no error.
pub open spec fn spec_succeeded_status(
    fi: FrontendIntegrationView,
    spec_hash: Seq<char>,
    bundle: JSBundleView,
    job: JobView,
) -> FrontendIntegrationStatusView {
    FrontendIntegrationStatusView {
        phase: FrontendIntegrationPhase::Succeeded,
        observed_spec_hash: Some(spec_hash),
        observed_manifest_hash: spec_bundle_manifest_hash(bundle),
        observed_generation: spec_generation(fi),
        last_build: Some(
            LastBuildStatusView {
                job_ref: Some(spec_resource_ref(job.metadata)),
                started_at: prev_started_at(fi),
            },
        ),
        bundle_ref: Some(spec_resource_ref(bundle.metadata)),
        message: Some("Build succeeded"@),
        last_error: None,
        conditions: seq![],
    }
}

pub fn succeeded_status(
    fi: &FrontendIntegration,
    spec_hash: &str,
    bundle: &JSBundle,
    job: &Job,
) -> (st: FrontendIntegrationStatus)
    ensures
        st.deep_view() == spec_succeeded_status(fi.deep_view(), spec_hash@, bundle.deep_view(), job.deep_view()),
{
    let started_at = match &fi.status {
        Some(s) => match &s.last_build {
            Some(b) => b.started_at,
            None => None,
        },
        None => None,
    };
    let st = FrontendIntegrationStatus {
        phase: FrontendIntegrationPhase::Succeeded,
        observed_spec_hash: Some(String::from_str(spec_hash)),
        observed_manifest_hash: bundle_manifest_hash(bundle),
        observed_generation: generation_of(fi),
        last_build: Some(LastBuildStatus { job_ref: Some(resource_ref(&job.metadata)), started_at }),
        bundle_ref: Some(resource_ref(&bundle.metadata)),
        message: Some(String::from_str("Build succeeded")),
        last_error: None,
        conditions: Vec::new(),
    };
    assert(st.conditions.deep_view() =~= seq![]);
    st
}

/// Status after a failed build: the failure message, keeping the last build, the bundle and
/// the error the runner wrote.
pub open spec fn spec_failed_status(fi: FrontendIntegrationView, spec_hash: Seq<char>, message: Seq<char>) -> FrontendIntegrationStatusView {
    FrontendIntegrationStatusView {
        phase: FrontendIntegrationPhase::Failed,
        observed_spec_hash: Some(spec_hash),
        observed_manifest_hash: prev_manifest_hash(fi),
        observed_generation: spec_generation(fi),
        last_build: prev_last_build(fi),
        bundle_ref: prev_bundle_ref(fi),
        message: Some(message),
        last_error: prev_last_error(fi),
        conditions: seq![],
    }
}

pub fn failed_status(fi: &FrontendIntegration, spec_hash: &str, message: String) -> (st: FrontendIntegrationStatus)
    ensures
        st.deep_view() == spec_failed_status(fi.deep_view(), spec_hash@, message@),
{
    let st = FrontendIntegrationStatus {
        phase: FrontendIntegrationPhase::Failed,
        observed_spec_hash: Some(String::from_str(spec_hash)),
        observed_manifest_hash: prev_manifest_hash_of(fi),
        observed_generation: generation_of(fi),
        last_build: prev_last_build_of(fi),
        bundle_ref: match &fi.status {
            Some(s) => s.bundle_ref.duplicate(),
            None => None,
        },
        message: Some(message),
        last_error: prev_last_error_of(fi),
        conditions: Vec::new(),
    };
    assert(st.conditions.deep_view() =~= seq![]);
    st
}

/// Status when no Job exists for the hash but its bundle is there: succeeded, keeping the
/// last build, with no error.
pub open spec fn spec_bundle_ready_status(
    fi: FrontendIntegrationView,
    spec_hash: Seq<char>,
    bundle: JSBundleView,
) -> FrontendIntegrationStatusView {
    FrontendIntegrationStatusView {
        phase: FrontendIntegrationPhase::Succeeded,
        observed_spec_hash: Some(spec_hash),
        observed_manifest_hash: spec_bundle_manifest_hash(bundle),
        observed_generation: spec_generation(fi),
        last_build: prev_last_build(fi),
        bundle_ref: Some(spec_resource_ref(bundle.metadata)),
        message: Some("JSBundle ready"@),
        last_error: None,
        conditions: seq![],
    }
}

pub fn bundle_ready_status(fi: &FrontendIntegration, spec_hash: &str, bundle: &JSBundle) -> (st: FrontendIntegrationStatus)
    ensures
        st.deep_view() == spec_bundle_ready_status(fi.deep_view(), spec_hash@, bundle.deep_view()),
{
    let st = FrontendIntegrationStatus {
        phase: FrontendIntegrationPhase::Succeeded,
        observed_spec_hash: Some(String::from_str(spec_hash)),
        observed_manifest_hash: bundle_manifest_hash(bundle),
        observed_generation: generation_of(fi),
        last_build: prev_last_build_of(fi),
        bundle_ref: Some(resource_ref(&bundle.metadata)),
        message: Some(String::from_str("JSBundle ready")),
        last_error: None,
        conditions: Vec::new(),
    };
    assert(st.conditions.deep_view() =~= seq![]);
    st
}

} // verus!
