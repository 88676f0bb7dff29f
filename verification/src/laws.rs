//! Properties that span the library's functions: what the controller concludes from the
//! statuses it records itself, what it recognizes of what the runner publishes, and what its
//! patches settle.
use crate::api::{spec_without_enabled, FrontendIntegrationSpecView, FrontendIntegrationStatusView};
use crate::controller::job::{spec_labels_for, spec_make_build_job, spec_observed_job_phase, ControllerConfigView, ObservedJobPhase};
use crate::controller::patch::{spec_enabled_label_patch, spec_jsbundle_state, spec_jsbundle_state_patch};
use crate::controller::plan::{spec_decide_children, spec_scheduled_outcome};
use crate::controller::status::prev_last_error;
use crate::controller::status::{
    spec_building_status, spec_bundle_manifest_hash, spec_bundle_matches_spec_hash, spec_disabled_status,
    spec_failed_status, spec_needs_new_build, spec_observed_hash, spec_opt_bundle_matches,
    spec_should_reuse_build_job, spec_succeeded_status,
};
use crate::labels::{
    lemma_map_insert_get, spec_enabled_label_value, spec_hash_label_value, ANNO_BUILD_JOB, ANNO_MANIFEST_HASH,
    BUILD_KIND_VALUE, LABEL_BUILD_KIND, LABEL_ENABLED, LABEL_FI_NAME, LABEL_MANAGED_BY, LABEL_SPEC_HASH, map_insert,
};
use crate::resource::{map_get, spec_name_any, FrontendIntegrationView, JSBundleView, JobView};
use crate::runner::{spec_desired_jsbundle, spec_stale_check_step, RunnerConfigView, StaleCheckStep};
use crate::api::{CrdScope, CrdTablePageSpecView, ColumnSpecView, FrontendIntegrationPhase, ManifestRenderErrorView, MenuPlacement};
use crate::json::JsonView;
use crate::manifest::pages::spec_crd_page;
use crate::manifest::render::spec_render_v1_manifest;
use crate::manifest::resolve::{spec_check_pages, spec_validate_key};
use crate::time::Timestamp;
use vstd::prelude::*;

verus! {

// ---------------------------------------------------------------- spec identity
/// The part of a spec that is hashed does not depend on `enabled`: disabling and re-enabling
/// an integration keeps its spec hash.
pub proof fn law_hashed_spec_ignores_enabled(s: FrontendIntegrationSpecView, enabled: Option<bool>)
    ensures
        spec_without_enabled(FrontendIntegrationSpecView { enabled, ..s }) == spec_without_enabled(s),
{
}

// ---------------------------------------------------------------- build scheduling
/// A changed spec hash always asks for a build.
pub proof fn law_changed_hash_builds(
    status: Option<FrontendIntegrationStatusView>,
    spec_hash: Seq<char>,
    bundle: Option<JSBundleView>,
)
    requires
        spec_observed_hash(status) != Some(spec_hash),
    ensures
        spec_needs_new_build(status, spec_hash, bundle),
{
}

/// While a build of a hash is recorded as running, no second build of that hash is asked for.
pub proof fn law_building_status_is_stable(
    fi: FrontendIntegrationView,
    spec_hash: Seq<char>,
    bundle_name: Seq<char>,
    job: JobView,
    message: Seq<char>,
    started_at: Timestamp,
    bundle: Option<JSBundleView>,
)
    ensures
        !spec_needs_new_build(
            Some(spec_building_status(fi, spec_hash, bundle_name, job, message, started_at)),
            spec_hash,
            bundle,
        ),
{
}

/// A failed build is not retried while the spec hash stays the same.
pub proof fn law_failed_build_not_retried(
    fi: FrontendIntegrationView,
    spec_hash: Seq<char>,
    message: Seq<char>,
    bundle: Option<JSBundleView>,
)
    ensures
        !spec_needs_new_build(Some(spec_failed_status(fi, spec_hash, message)), spec_hash, bundle),
{
}

/// A recorded success stands while the bundle of its hash is there.
pub proof fn law_succeeded_status_is_stable(
    fi: FrontendIntegrationView,
    spec_hash: Seq<char>,
    bundle: JSBundleView,
    job: JobView,
)
    requires
        spec_bundle_matches_spec_hash(bundle, spec_hash),
    ensures
        !spec_needs_new_build(Some(spec_succeeded_status(fi, spec_hash, bundle, job)), spec_hash, Some(bundle)),
{
}

/// After an integration is disabled and enabled again with an unchanged spec, a build is
/// asked for exactly when the bundle of its hash is no longer there.
pub proof fn law_reenabled_builds_iff_bundle_missing(
    fi: FrontendIntegrationView,
    bundle_when_disabled: Option<JSBundleView>,
    spec_hash: Seq<char>,
    bundle_now: Option<JSBundleView>,
)
    requires
        spec_observed_hash(fi.status) == Some(spec_hash),
    ensures
        spec_needs_new_build(Some(spec_disabled_status(fi, bundle_when_disabled)), spec_hash, bundle_now)
            == !spec_opt_bundle_matches(bundle_now, spec_hash),
{
}

/// Whatever status a reconcile records from the Job and bundle of the current hash, the next
/// reconcile, seeing the same bundle, asks for no new build of that hash.
pub proof fn law_children_outcome_is_stable(
    fi: FrontendIntegrationView,
    spec_hash: Seq<char>,
    bundle_name: Seq<char>,
    job: Option<JobView>,
    bundle: Option<JSBundleView>,
    requeue_seconds: u64,
    now: Timestamp,
)
    ensures
        spec_decide_children(fi, spec_hash, bundle_name, job, bundle, requeue_seconds, now).status matches Some(st)
            ==> !spec_needs_new_build(Some(st), spec_hash, bundle),
{
}

/// A failed build keeps the error its runner wrote into the status: the recorded message and
/// error are the runner's, not the Job's own failure text.
pub proof fn law_failed_build_keeps_runner_error(
    fi: FrontendIntegrationView,
    spec_hash: Seq<char>,
    bundle_name: Seq<char>,
    job: JobView,
    bundle: Option<JSBundleView>,
    requeue_seconds: u64,
    now: Timestamp,
    error: Seq<char>,
)
    requires
        spec_observed_job_phase(job.status) == ObservedJobPhase::Failed,
        prev_last_error(fi) == Some(error),
    ensures
        spec_decide_children(fi, spec_hash, bundle_name, Some(job), bundle, requeue_seconds, now).status matches Some(
            st,
        ) && st.phase == crate::api::FrontendIntegrationPhase::Failed && st.message == Some(error) && st.last_error
            == Some(error),
{
}

/// A newly scheduled build starts without an error.
pub proof fn law_scheduled_build_clears_error(
    fi: FrontendIntegrationView,
    spec_hash: Seq<char>,
    bundle_name: Seq<char>,
    job: JobView,
    requeue_seconds: u64,
    now: Timestamp,
)
    ensures
        spec_scheduled_outcome(fi, spec_hash, bundle_name, job, requeue_seconds, now).status matches Some(st)
            && st.last_error is None,
{
}

/// Once a build Job is scheduled, the next reconcile asks for no second build of the hash.
pub proof fn law_scheduled_outcome_is_stable(
    fi: FrontendIntegrationView,
    spec_hash: Seq<char>,
    bundle_name: Seq<char>,
    job: JobView,
    requeue_seconds: u64,
    now: Timestamp,
    bundle: Option<JSBundleView>,
)
    ensures
        spec_scheduled_outcome(fi, spec_hash, bundle_name, job, requeue_seconds, now).status matches Some(st)
            ==> !spec_needs_new_build(Some(st), spec_hash, bundle),
{
}

/// A failed Job is never reused for a new build; a pending or running one always is.
pub proof fn law_job_reuse_by_phase(
    fi: FrontendIntegrationView,
    job: JobView,
    bundle: Option<JSBundleView>,
    spec_hash: Seq<char>,
)
    ensures
        spec_observed_job_phase(job.status) == ObservedJobPhase::Failed ==> !spec_should_reuse_build_job(
            fi,
            job,
            bundle,
            spec_hash,
        ),
        (spec_observed_job_phase(job.status) == ObservedJobPhase::Pending || spec_observed_job_phase(job.status)
            == ObservedJobPhase::Running) ==> spec_should_reuse_build_job(fi, job, bundle, spec_hash),
{
}

/// The build Job the controller creates is the one it finds again for the integration and
/// spec hash: its labels name the integration and carry the hash label of the spec hash.
pub proof fn law_build_job_is_found_by_its_labels(
    fi: FrontendIntegrationView,
    config: ControllerConfigView,
    job_name: Seq<char>,
    jsbundle_name: Seq<char>,
    spec_hash: Seq<char>,
)
    ensures
        map_get(
            spec_make_build_job(fi, config, job_name, jsbundle_name, spec_hash).metadata.labels.unwrap(),
            LABEL_FI_NAME@,
        ) == Some(spec_name_any(fi.metadata)),
        map_get(
            spec_make_build_job(fi, config, job_name, jsbundle_name, spec_hash).metadata.labels.unwrap(),
            LABEL_SPEC_HASH@,
        ) == Some(spec_hash_label_value(spec_hash)),
{
    lemma_label_keys_differ();
    let base = spec_labels_for(spec_name_any(fi.metadata), spec_hash);
    let k = LABEL_BUILD_KIND@;
    let v = BUILD_KIND_VALUE@;
    let labels = map_insert(base, k, v);
    let t1 = base.drop_first();
    let t2 = t1.drop_first();
    assert(labels == seq![base[0]] + map_insert(t1, k, v));
    assert(map_insert(t1, k, v) == seq![t1[0]] + map_insert(t2, k, v));
    assert(labels.drop_first() =~= map_insert(t1, k, v));
    assert(map_insert(t1, k, v).drop_first() =~= map_insert(t2, k, v));
    assert(map_insert(t2, k, v) == seq![t2[0]] + map_insert(t2.drop_first(), k, v));
    assert(map_insert(t2, k, v).drop_first() =~= map_insert(t2.drop_first(), k, v));
    assert(spec_make_build_job(fi, config, job_name, jsbundle_name, spec_hash).metadata.labels.unwrap() == labels);
    assert(labels[0] == base[0]);
    assert(labels.drop_first()[0] == t1[0]);
    assert(labels.drop_first().drop_first()[0] == t2[0]);
    assert(map_get(labels, LABEL_FI_NAME@) == map_get(labels.drop_first(), LABEL_FI_NAME@));
    assert(map_get(labels.drop_first(), LABEL_FI_NAME@) == Some(spec_name_any(fi.metadata)));
    assert(map_get(labels, LABEL_SPEC_HASH@) == map_get(labels.drop_first(), LABEL_SPEC_HASH@));
    assert(map_get(labels.drop_first(), LABEL_SPEC_HASH@) == map_get(labels.drop_first().drop_first(), LABEL_SPEC_HASH@));
}

// ---------------------------------------------------------------- runner and controller
proof fn lemma_label_keys_differ()
    ensures
        LABEL_MANAGED_BY@ != LABEL_SPEC_HASH@,
        LABEL_FI_NAME@ != LABEL_SPEC_HASH@,
        LABEL_ENABLED@ != LABEL_SPEC_HASH@,
        ANNO_BUILD_JOB@ != ANNO_MANIFEST_HASH@,
        LABEL_BUILD_KIND@ != LABEL_MANAGED_BY@,
        LABEL_BUILD_KIND@ != LABEL_FI_NAME@,
        LABEL_BUILD_KIND@ != LABEL_SPEC_HASH@,
        LABEL_MANAGED_BY@ != LABEL_FI_NAME@,
{
    reveal_strlit("app.kubernetes.io/managed-by");
    reveal_strlit("frontend-forge.kubesphere.io/fi-name");
    reveal_strlit("frontend-forge.kubesphere.io/enabled");
    reveal_strlit("frontend-forge.kubesphere.io/spec-hash");
    reveal_strlit("frontend-forge.kubesphere.io/build-job");
    reveal_strlit("frontend-forge.kubesphere.io/manifest-hash");
    reveal_strlit("frontend-forge.kubesphere.io/build-kind");
    assert(LABEL_BUILD_KIND@.len() != LABEL_MANAGED_BY@.len());
    assert(LABEL_BUILD_KIND@.len() != LABEL_FI_NAME@.len());
    assert(LABEL_BUILD_KIND@.len() != LABEL_SPEC_HASH@.len());
    assert(LABEL_MANAGED_BY@.len() != LABEL_FI_NAME@.len());
    assert(LABEL_MANAGED_BY@.len() != LABEL_SPEC_HASH@.len());
    assert(LABEL_FI_NAME@.len() != LABEL_SPEC_HASH@.len());
    assert(LABEL_ENABLED@.len() != LABEL_SPEC_HASH@.len());
    assert(ANNO_BUILD_JOB@.len() != ANNO_MANIFEST_HASH@.len());
}

/// The bundle the runner publishes is the one the controller looks for: it carries the
/// spec hash the runner's Job was started for, and the manifest hash the controller records
/// from it is the one the runner computed.
pub proof fn law_published_bundle_is_recognized(
    cfg: RunnerConfigView,
    fi: FrontendIntegrationView,
    configmap_name: Seq<char>,
    bundle_key: Seq<char>,
    manifest_content: Seq<char>,
    manifest_hash: Seq<char>,
    job_name: Seq<char>,
)
    ensures
        spec_bundle_matches_spec_hash(
            spec_desired_jsbundle(cfg, fi, configmap_name, bundle_key, manifest_content, manifest_hash, job_name),
            cfg.spec_hash,
        ),
        spec_bundle_manifest_hash(
            spec_desired_jsbundle(cfg, fi, configmap_name, bundle_key, manifest_content, manifest_hash, job_name),
        ) == Some(manifest_hash),
{
    lemma_label_keys_differ();
    let b = spec_desired_jsbundle(cfg, fi, configmap_name, bundle_key, manifest_content, manifest_hash, job_name);
    let labels = b.metadata.labels.unwrap();
    assert(labels.drop_first().drop_first().drop_first()[0].0 == LABEL_SPEC_HASH@);
    assert(map_get(labels, LABEL_SPEC_HASH@) == map_get(labels.drop_first(), LABEL_SPEC_HASH@));
    assert(map_get(labels.drop_first(), LABEL_SPEC_HASH@) == map_get(
        labels.drop_first().drop_first(),
        LABEL_SPEC_HASH@,
    ));
    assert(map_get(labels.drop_first().drop_first(), LABEL_SPEC_HASH@) == map_get(
        labels.drop_first().drop_first().drop_first(),
        LABEL_SPEC_HASH@,
    ));
    let annos = b.metadata.annotations.unwrap();
    assert(map_get(annos, ANNO_MANIFEST_HASH@) == map_get(annos.drop_first(), ANNO_MANIFEST_HASH@));
}

/// A finished build is published only when the integration's status names the very hash the
/// Job built; a status naming another hash abandons the build.
pub proof fn law_runner_publishes_only_current_hash(
    fi: FrontendIntegrationView,
    spec_hash: Seq<char>,
    before_deadline: bool,
)
    ensures
        (spec_stale_check_step(fi, spec_hash, before_deadline) == StaleCheckStep::Publish) <==> spec_observed_hash(
            fi.status,
        ) == Some(spec_hash),
{
}

// ---------------------------------------------------------------- patches settle
/// Once the `enabled` label patch has been applied, no further label patch is asked for.
pub proof fn law_enabled_label_patch_settles(labels: Seq<(Seq<char>, Seq<char>)>, enabled: bool)
    ensures
        spec_enabled_label_patch(Some(map_insert(labels, LABEL_ENABLED@, spec_enabled_label_value(enabled))), enabled)
            is None,
{
    lemma_map_insert_get(labels, LABEL_ENABLED@, spec_enabled_label_value(enabled));
}

/// Once the state patch has been applied, no further state patch is asked for.
pub proof fn law_jsbundle_state_patch_settles(bundle: JSBundleView, enabled: bool)
    requires
        bundle.status matches Some(s) && s.state == Some(spec_jsbundle_state(enabled)),
    ensures
        spec_jsbundle_state_patch(bundle, enabled) is None,
{
}

// ---------------------------------------------------------------- build Jobs
/// The runner pod of a build Job runs under the configured runner service account.
pub proof fn law_build_job_runs_as_runner_service_account(
    fi: FrontendIntegrationView,
    config: ControllerConfigView,
    job_name: Seq<char>,
    jsbundle_name: Seq<char>,
    spec_hash: Seq<char>,
)
    ensures
        spec_make_build_job(fi, config, job_name, jsbundle_name, spec_hash).spec matches Some(js)
            && js.template.spec matches Some(pod) && pod.service_account_name == config.runner_service_account,
{
}

/// A status that records the current hash, is neither building nor failed, and has no
/// bundle of that hash beside it asks for a new build: a deleted bundle is rebuilt, whether
/// the last build succeeded or the integration was disabled.
pub proof fn law_missing_bundle_is_rebuilt(
    st: FrontendIntegrationStatusView,
    spec_hash: Seq<char>,
    bundle: Option<JSBundleView>,
)
    requires
        st.observed_spec_hash == Some(spec_hash),
        st.phase != FrontendIntegrationPhase::Building,
        st.phase != FrontendIntegrationPhase::Failed,
        bundle is None || !spec_bundle_matches_spec_hash(bundle.unwrap(), spec_hash),
    ensures
        spec_needs_new_build(Some(st), spec_hash, bundle),
{
}

// ---------------------------------------------------------------- CRD pages
/// The `SCOPE` that the page-state data source of a CRD table page carries outside the
/// workspace placement: `cluster` for a cluster-scoped resource, `namespace` for a
/// namespaced one.
pub open spec fn crd_scope_keyword(scope: CrdScope) -> Seq<char> {
    if scope == CrdScope::Cluster {
        seq!['c', 'l', 'u', 's', 't', 'e', 'r']
    } else {
        seq!['n', 'a', 'm', 'e', 's', 'p', 'a', 'c', 'e']
    }
}

/// Entry `k` of the config of a CRD page's page-state data source (the second data source
/// of its components tree).
pub open spec fn page_state_config_entry(page: JsonView, k: int) -> Option<(Seq<char>, JsonView)> {
    match page {
        JsonView::Object(top) => if top.len() < 3 {
            None
        } else {
            match top[2].1 {
                JsonView::Object(tree) => if tree.len() < 3 {
                    None
                } else {
                    match tree[2].1 {
                        JsonView::Array(sources) => if sources.len() < 2 {
                            None
                        } else {
                            match sources[1] {
                                JsonView::Object(state) => if state.len() < 4 {
                                    None
                                } else {
                                    match state[3].1 {
                                        JsonView::Object(config) => if 0 <= k < config.len() {
                                            Some(config[k])
                                        } else {
                                            None
                                        },
                                        _ => None,
                                    }
                                },
                                _ => None,
                            }
                        },
                        _ => None,
                    }
                },
                _ => None,
            }
        },
        _ => None,
    }
}

/// A CRD table page rendered outside the workspace placement queries its resource with the
/// resource's own scope: its page-state config says `SCOPE: "cluster"` for a cluster-scoped
/// CRD and `SCOPE: "namespace"` for a namespaced one, so the two scopes are told apart.
pub proof fn law_crd_page_scope_follows_crd_scope(
    page_id: Seq<char>,
    display_name: Seq<char>,
    placement: MenuPlacement,
    crd: CrdTablePageSpecView,
    columns: Seq<ColumnSpecView>,
)
    requires
        placement != MenuPlacement::Workspace,
    ensures
        page_state_config_entry(spec_crd_page(page_id, display_name, placement, crd, columns), 2) == Some(
            (seq!['S', 'C', 'O', 'P', 'E'], JsonView::Str(crd_scope_keyword(crd.scope))),
        ),
        crd_scope_keyword(CrdScope::Cluster) != crd_scope_keyword(CrdScope::Namespaced),
{
    reveal_strlit("SCOPE");
    reveal_strlit("namespace");
    reveal_strlit("cluster");
    assert("SCOPE"@ =~= seq!['S', 'C', 'O', 'P', 'E']);
    assert("cluster"@ =~= seq!['c', 'l', 'u', 's', 't', 'e', 'r']);
    assert("namespace"@ =~= seq!['n', 'a', 'm', 'e', 's', 'p', 'a', 'c', 'e']);
    assert(crd_scope_keyword(CrdScope::Cluster).len() != crd_scope_keyword(CrdScope::Namespaced).len());
}

// ---------------------------------------------------------------- keys
/// A character that a menu or page key may hold: an ASCII lowercase letter, an ASCII digit
/// or `-`.
pub open spec fn kebab_char(c: char) -> bool {
    (c as int >= 0x61 && c as int <= 0x7a) || (c as int >= 0x30 && c as int <= 0x39) || c as int == 0x2d
}

/// A key holding any other character (an upper-case letter, a space, `_`, `/`, ...) is
/// refused: as a menu key with `InvalidMenuKey`, as a page key with `InvalidPageShape`.
pub proof fn law_key_with_foreign_char_is_refused(fi_name: Seq<char>, key: Seq<char>, is_menu_key: bool, i: int)
    requires
        0 <= i < key.len(),
        !kebab_char(key[i]),
    ensures
        spec_validate_key(fi_name, key, is_menu_key) == if is_menu_key {
            Some(ManifestRenderErrorView::InvalidMenuKey { fi_name, key })
        } else {
            Some(
                ManifestRenderErrorView::InvalidPageShape {
                    fi_name,
                    key,
                    message: "page keys must be kebab-case route fragments"@,
                },
            )
        },
{
    let c = key[i];
    assert('a' as int == 0x61 && 'z' as int == 0x7a && '0' as int == 0x30 && '9' as int == 0x39 && '-' as int == 0x2d);
    assert(!crate::text::is_key_char(c));
    assert(!crate::text::spec_valid_key(key));
}

/// Rendering refuses an integration whose first page key holds a character other than an
/// ASCII lowercase letter, digit or `-`.
pub proof fn law_render_refuses_foreign_page_key(fi: FrontendIntegrationView, i: int)
    requires
        fi.spec.pages.len() > 0,
        0 <= i < fi.spec.pages[0].key.len(),
        !kebab_char(fi.spec.pages[0].key[i]),
    ensures
        spec_render_v1_manifest(fi) == Err::<JsonView, ManifestRenderErrorView>(
            ManifestRenderErrorView::InvalidPageShape {
                fi_name: spec_name_any(fi.metadata),
                key: fi.spec.pages[0].key,
                message: "page keys must be kebab-case route fragments"@,
            },
        ),
{
    law_key_with_foreign_char_is_refused(spec_name_any(fi.metadata), fi.spec.pages[0].key, false, i);
}

/// Rendering refuses an integration whose page configurations are in order but whose first
/// menu key holds a character other than an ASCII lowercase letter, digit or `-`.
pub proof fn law_render_refuses_foreign_menu_key(fi: FrontendIntegrationView, i: int)
    requires
        spec_check_pages(spec_name_any(fi.metadata), fi.spec.pages, 0, seq![]) is None,
        fi.spec.menus.len() > 0,
        0 <= i < fi.spec.menus[0].key.len(),
        !kebab_char(fi.spec.menus[0].key[i]),
    ensures
        spec_render_v1_manifest(fi) == Err::<JsonView, ManifestRenderErrorView>(
            ManifestRenderErrorView::InvalidMenuKey { fi_name: spec_name_any(fi.metadata), key: fi.spec.menus[0].key },
        ),
{
    law_key_with_foreign_char_is_refused(spec_name_any(fi.metadata), fi.spec.menus[0].key, true, i);
}

/// In the workspace placement the page-state config carries no `SCOPE`: the workspace
/// data source scopes by itself, so the config is the page id, the CRD and the hook.
pub proof fn law_workspace_crd_page_has_no_scope(
    page_id: Seq<char>,
    display_name: Seq<char>,
    crd: CrdTablePageSpecView,
    columns: Seq<ColumnSpecView>,
)
    ensures
        page_state_config_entry(spec_crd_page(page_id, display_name, MenuPlacement::Workspace, crd, columns), 3)
            is None,
        page_state_config_entry(spec_crd_page(page_id, display_name, MenuPlacement::Workspace, crd, columns), 2)
            matches Some(e) && e.0 == seq!['H', 'O', 'O', 'K', '_', 'N', 'A', 'M', 'E'],
{
    reveal_strlit("HOOK_NAME");
    assert("HOOK_NAME"@ =~= seq!['H', 'O', 'O', 'K', '_', 'N', 'A', 'M', 'E']);
}

/// A non-empty key of ASCII lowercase letters, digits and `-` that neither starts nor ends
/// with `-` is accepted, as a menu key and as a page key.
pub proof fn law_kebab_key_is_accepted(fi_name: Seq<char>, key: Seq<char>, is_menu_key: bool)
    requires
        key.len() > 0,
        key[0] as int != 0x2d,
        key[key.len() - 1] as int != 0x2d,
        forall|i: int| 0 <= i < key.len() ==> kebab_char(#[trigger] key[i]),
    ensures
        spec_validate_key(fi_name, key, is_menu_key) is None,
{
    assert('a' as int == 0x61 && 'z' as int == 0x7a && '0' as int == 0x30 && '9' as int == 0x39 && '-' as int == 0x2d);
    assert forall|i: int| 0 <= i < key.len() implies #[trigger] crate::text::is_key_char(key[i]) by {
        assert(kebab_char(key[i]));
    }
}

} // verus!
