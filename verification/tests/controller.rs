use frontend_forge::api::{
    FrontendIntegrationPhase, FrontendIntegrationSpec, FrontendIntegrationStatus, IframePageSpec, JsBundleSpec,
    JsBundleStatus, LastBuildStatus, MenuNodeType, MenuPlacement, PageSpec, PageType, PrimaryMenuSpec,
    ResourceRef, SimpleCondition,
};
use frontend_forge::controller::job::{
    extract_job_message, labels_for, make_build_job, observed_job_phase, ControllerConfig, ObservedJobPhase,
};
use frontend_forge::controller::lookup::{job_selector, latest_job};
use frontend_forge::controller::patch::{
    fi_enabled_label_patch, frontend_integration_status_patch, jsbundle_enabled_label_patch,
    jsbundle_state_patch,
};
use frontend_forge::controller::plan::{
    choose_build_job, decide_children_at, disabled_outcome, plan_reconcile, reconcile_skips, scheduled_outcome_at,
    ReconcileAction, ReconcileStep,
};
use frontend_forge::controller::status::{
    bundle_manifest_hash, bundle_matches_spec_hash, disabled_status, needs_new_build, should_reuse_build_job,
};
use frontend_forge::json::JsonValue;
use frontend_forge::labels::{
    default_bundle_name, hash_label_value, job_name, LABEL_BUILD_KIND, LABEL_ENABLED, LABEL_FI_NAME,
    LABEL_MANIFEST_HASH, LABEL_SPEC_HASH, ANNO_MANIFEST_HASH, ANNO_OBSERVED_GENERATION,
};
use frontend_forge::resource::{
    string_map_get, FrontendIntegration, JSBundle, Job, JobCondition, JobStatus, ObjectMeta, OwnerReference,
};
use frontend_forge::spec_json::build_spec_hash;
use frontend_forge::time::Timestamp;

fn fi(name: &str, status: Option<FrontendIntegrationStatus>) -> FrontendIntegration {
    let mut metadata = ObjectMeta::empty();
    metadata.name = Some(name.to_string());
    metadata.namespace = Some("default".to_string());
    metadata.generation = Some(3);
    FrontendIntegration {
        metadata,
        spec: FrontendIntegrationSpec {
            display_name: None,
            locales: vec![],
            enabled: Some(true),
            menus: vec![PrimaryMenuSpec {
                display_name: "demo".to_string(),
                key: "demo".to_string(),
                placement: MenuPlacement::Global,
                type_: MenuNodeType::Page,
                children: vec![],
            }],
            pages: vec![PageSpec {
                key: "demo".to_string(),
                type_: PageType::Iframe,
                crd_table: None,
                iframe: Some(IframePageSpec { src: "http://example.test".to_string() }),
            }],
            builder: None,
        },
        status,
    }
}

fn status_with(phase: FrontendIntegrationPhase, observed: Option<&str>) -> FrontendIntegrationStatus {
    let mut st = FrontendIntegrationStatus::default();
    st.phase = phase;
    st.observed_spec_hash = observed.map(|s| s.to_string());
    st
}

fn bundle_for_hash(name: &str, spec_hash: &str) -> JSBundle {
    let mut metadata = ObjectMeta::empty();
    metadata.name = Some(name.to_string());
    metadata.labels = Some(vec![(LABEL_SPEC_HASH.to_string(), hash_label_value(spec_hash))]);
    JSBundle { metadata, spec: JsBundleSpec { raw: None, raw_from: None }, status: None }
}

fn job_with_status(active: Option<i32>, succeeded: Option<i32>, failed: Option<i32>) -> Job {
    Job {
        metadata: ObjectMeta::empty(),
        spec: None,
        status: Some(JobStatus { active, succeeded, failed, conditions: None }),
    }
}

fn named_job(name: &str, status: Option<JobStatus>) -> Job {
    let mut metadata = ObjectMeta::empty();
    metadata.name = Some(name.to_string());
    metadata.namespace = Some("work".to_string());
    metadata.uid = Some("job-uid".to_string());
    Job { metadata, spec: None, status }
}

fn condition(type_: &str, status: &str, reason: Option<&str>, message: Option<&str>) -> JobCondition {
    JobCondition {
        type_: type_.to_string(),
        status: status.to_string(),
        reason: reason.map(|s| s.to_string()),
        message: message.map(|s| s.to_string()),
    }
}

fn config() -> ControllerConfig {
    ControllerConfig {
        work_namespace: "extension-frontend-forge".to_string(),
        runner_image: "runner:latest".to_string(),
        runner_service_account: Some("runner-sa".to_string()),
        build_service_base_url: "http://builder".to_string(),
        jsbundle_configmap_namespace: "extension-frontend-forge".to_string(),
        jsbundle_config_key: "index.js".to_string(),
        build_service_timeout_seconds: 600,
        stale_check_grace_seconds: 30,
        reconcile_requeue_seconds: 5,
        job_active_deadline_seconds: 300,
        job_ttl_seconds_after_finished: Some(3600),
    }
}

fn get<'a>(j: &'a JsonValue, key: &str) -> Option<&'a JsonValue> {
    match j {
        JsonValue::Object(entries) => entries.iter().find(|(k, _)| k == key).map(|(_, v)| v),
        _ => None,
    }
}

fn text(j: Option<&JsonValue>) -> Option<&str> {
    match j {
        Some(JsonValue::Str(s)) => Some(s.as_str()),
        _ => None,
    }
}

fn is_null(j: Option<&JsonValue>) -> bool {
    matches!(j, Some(JsonValue::Null))
}

const T0: Timestamp = Timestamp { seconds: 1_700_000_000, nanos: 0 };

#[test]
fn needs_build_when_hash_changes() {
    let mut fi = fi("demo", Some(status_with(FrontendIntegrationPhase::Succeeded, Some("sha256:old"))));
    fi.spec.enabled = Some(true);
    assert!(needs_new_build(&fi, "sha256:new", None));
}

#[test]
fn does_not_build_when_observed_hash_matches() {
    let mut fi = fi("demo", None);
    fi.spec.enabled = Some(true);
    let hash = "sha256:0123abcd";
    let bundle = bundle_for_hash("fi-demo", hash);
    fi.status = Some(status_with(FrontendIntegrationPhase::Succeeded, Some(hash)));

    assert!(!needs_new_build(&fi, hash, Some(&bundle)));
}

#[test]
fn does_not_auto_retry_failed_build_when_hash_is_unchanged() {
    let mut fi = fi("demo", None);
    fi.spec.enabled = Some(true);
    let hash = "sha256:0123abcd";
    fi.status = Some(status_with(FrontendIntegrationPhase::Failed, Some(hash)));

    assert!(!needs_new_build(&fi, hash, None));
}

#[test]
fn builds_when_matching_bundle_is_missing_after_reenable() {
    let mut fi = fi("demo", None);
    fi.spec.enabled = Some(true);
    let hash = "sha256:0123abcd";
    let mut st = status_with(FrontendIntegrationPhase::Pending, Some(hash));
    st.message = Some("Disabled".to_string());
    fi.status = Some(st);

    assert!(needs_new_build(&fi, hash, None));
}

#[test]
fn builds_when_there_is_no_status_yet() {
    let fi = fi("demo", None);
    assert!(needs_new_build(&fi, "sha256:0123abcd", None));
}

#[test]
fn hash_label_value_is_dns_safe() {
    assert_eq!(hash_label_value("sha256:abcd"), "abcd");
    assert_eq!(hash_label_value("abcd"), "abcd");
}

#[test]
fn does_not_reuse_failed_job_when_retrying_failed_phase() {
    let fi = fi("demo", Some(status_with(FrontendIntegrationPhase::Failed, None)));
    let failed_job = job_with_status(None, None, Some(1));

    assert!(!should_reuse_build_job(&fi, &failed_job, None, "sha256:demo"));
}

#[test]
fn reuses_running_job_when_retrying_failed_phase() {
    let fi = fi("demo", Some(status_with(FrontendIntegrationPhase::Failed, None)));
    let running_job = job_with_status(Some(1), None, None);

    assert!(should_reuse_build_job(&fi, &running_job, None, "sha256:demo"));
}

#[test]
fn does_not_reuse_succeeded_job_when_matching_bundle_is_missing() {
    let fi = fi("demo", Some(status_with(FrontendIntegrationPhase::Succeeded, None)));
    let succeeded_job = job_with_status(None, Some(1), None);

    assert!(!should_reuse_build_job(&fi, &succeeded_job, None, "sha256:demo"));
}

#[test]
fn reuses_succeeded_job_while_its_bundle_matches() {
    let fi = fi("demo", Some(status_with(FrontendIntegrationPhase::Succeeded, None)));
    let succeeded_job = job_with_status(None, Some(1), None);
    let bundle = bundle_for_hash("fi-demo", "sha256:demo");
    assert!(should_reuse_build_job(&fi, &succeeded_job, Some(&bundle), "sha256:demo"));
}

#[test]
fn bundle_hash_match_uses_build_hash_label() {
    let hash = "sha256:0123abcd";
    let bundle = bundle_for_hash("fi-demo", hash);

    assert!(bundle_matches_spec_hash(&bundle, hash));
    assert!(!bundle_matches_spec_hash(&bundle, "sha256:other"));
}

#[test]
fn disabled_status_clears_last_build_and_uses_live_bundle_ref() {
    let mut st = status_with(FrontendIntegrationPhase::Pending, Some("sha256:demo"));
    st.observed_manifest_hash = Some("sha256:manifest".to_string());
    st.last_build = Some(LastBuildStatus {
        job_ref: Some(ResourceRef {
            name: "old-job".to_string(),
            namespace: Some("default".to_string()),
            uid: Some("job-uid".to_string()),
        }),
        started_at: Some(T0),
    });
    st.bundle_ref = Some(ResourceRef {
        name: "stale-bundle".to_string(),
        namespace: None,
        uid: Some("stale-uid".to_string()),
    });
    let fi = fi("demo", Some(st));
    let bundle = bundle_for_hash("fi-demo", "sha256:demo");
    let status = disabled_status(&fi, Some(&bundle));

    assert!(status.last_build.is_none());
    assert_eq!(status.bundle_ref.map(|bundle_ref| bundle_ref.name), Some("fi-demo".to_string()));
    assert_eq!(status.message.as_deref(), Some("Disabled"));
    assert_eq!(status.observed_spec_hash.as_deref(), Some("sha256:demo"));
    assert_eq!(status.observed_generation, Some(3));
}

#[test]
fn status_patch_sets_null_for_cleared_optional_refs() {
    let mut status = FrontendIntegrationStatus::default();
    status.phase = FrontendIntegrationPhase::Pending;
    let patch = frontend_integration_status_patch(&status);

    let inner = get(&patch, "status").unwrap();
    assert!(is_null(get(inner, "last_build")));
    assert!(is_null(get(inner, "bundle_ref")));
}

#[test]
fn status_patch_writes_fields_and_omits_absent_ones() {
    let mut status = status_with(FrontendIntegrationPhase::Building, Some("sha256:h"));
    status.observed_generation = Some(-7);
    status.last_build = Some(LastBuildStatus { job_ref: None, started_at: Some(T0) });
    status.bundle_ref = Some(ResourceRef { name: "fi-demo".to_string(), namespace: None, uid: None });
    status.conditions = vec![SimpleCondition {
        type_: "Ready".to_string(),
        status: "False".to_string(),
        reason: None,
        message: Some("m".to_string()),
        observed_generation: None,
        last_transition_time: None,
    }];
    let patch = frontend_integration_status_patch(&status);
    let inner = get(&patch, "status").unwrap();
    assert_eq!(text(get(inner, "phase")), Some("Building"));
    assert_eq!(text(get(inner, "observed_spec_hash")), Some("sha256:h"));
    assert!(get(inner, "observed_manifest_hash").is_none());
    assert!(get(inner, "message").is_none());
    match get(inner, "observed_generation") {
        Some(JsonValue::Number(n)) => assert_eq!(n, "-7"),
        _ => panic!("expected a number"),
    }
    let last_build = get(inner, "last_build").unwrap();
    assert!(get(last_build, "job_ref").is_none());
    assert_eq!(text(get(last_build, "started_at")), Some("2023-11-14T22:13:20Z"));
    let bundle_ref = get(inner, "bundle_ref").unwrap();
    assert_eq!(text(get(bundle_ref, "name")), Some("fi-demo"));
    assert!(get(bundle_ref, "uid").is_none());
    match get(inner, "conditions") {
        Some(JsonValue::Array(items)) => {
            assert_eq!(items.len(), 1);
            assert_eq!(text(get(&items[0], "type")), Some("Ready"));
            assert_eq!(text(get(&items[0], "message")), Some("m"));
            assert!(get(&items[0], "reason").is_none());
        },
        _ => panic!("expected conditions"),
    }
}

#[test]
fn enabled_label_patch_only_when_label_differs() {
    let mut fi = fi("demo", None);
    let patch = fi_enabled_label_patch(&fi).expect("a patch");
    let labels = get(get(&patch, "metadata").unwrap(), "labels").unwrap();
    assert_eq!(text(get(labels, LABEL_ENABLED)), Some("true"));
    fi.metadata.labels = Some(vec![(LABEL_ENABLED.to_string(), "true".to_string())]);
    assert!(fi_enabled_label_patch(&fi).is_none());
    fi.spec.enabled = Some(false);
    let patch = fi_enabled_label_patch(&fi).expect("a patch");
    let labels = get(get(&patch, "metadata").unwrap(), "labels").unwrap();
    assert_eq!(text(get(labels, LABEL_ENABLED)), Some("false"));

    let mut bundle = bundle_for_hash("fi-demo", "sha256:x");
    assert!(jsbundle_enabled_label_patch(&bundle, false).is_some());
    bundle.metadata.labels = Some(vec![(LABEL_ENABLED.to_string(), "false".to_string())]);
    assert!(jsbundle_enabled_label_patch(&bundle, false).is_none());
}

#[test]
fn state_patch_only_when_state_differs() {
    let mut bundle = bundle_for_hash("fi-demo", "sha256:x");
    let patch = jsbundle_state_patch(&bundle, true).expect("a patch");
    assert_eq!(text(get(get(&patch, "status").unwrap(), "state")), Some("Available"));
    bundle.status = Some(JsBundleStatus { state: Some("Available".to_string()), link: None, conditions: vec![] });
    assert!(jsbundle_state_patch(&bundle, true).is_none());
    let patch = jsbundle_state_patch(&bundle, false).expect("a patch");
    assert_eq!(text(get(get(&patch, "status").unwrap(), "state")), Some("Disabled"));
}

#[test]
fn observed_job_phase_reads_counts_then_conditions() {
    assert!(observed_job_phase(None) == ObservedJobPhase::Pending);
    let counts = JobStatus { active: Some(1), succeeded: Some(1), failed: Some(1), conditions: None };
    assert!(observed_job_phase(Some(&counts)) == ObservedJobPhase::Failed);
    let counts = JobStatus { active: Some(1), succeeded: Some(2), failed: Some(0), conditions: None };
    assert!(observed_job_phase(Some(&counts)) == ObservedJobPhase::Succeeded);
    let counts = JobStatus { active: Some(1), succeeded: None, failed: None, conditions: None };
    assert!(observed_job_phase(Some(&counts)) == ObservedJobPhase::Running);
    let conds = JobStatus {
        active: None,
        succeeded: None,
        failed: None,
        conditions: Some(vec![condition("Failed", "False", None, None), condition("Complete", "True", None, None)]),
    };
    assert!(observed_job_phase(Some(&conds)) == ObservedJobPhase::Succeeded);
}

#[test]
fn job_message_prefers_message_then_reason() {
    let job = named_job(
        "j",
        Some(JobStatus {
            active: None,
            succeeded: None,
            failed: Some(1),
            conditions: Some(vec![condition("Failed", "True", Some("BackoffLimitExceeded"), None)]),
        }),
    );
    assert_eq!(extract_job_message(&job).as_deref(), Some("BackoffLimitExceeded"));
    let job = named_job(
        "j",
        Some(JobStatus {
            active: None,
            succeeded: None,
            failed: Some(1),
            conditions: Some(vec![condition("Failed", "True", Some("R"), Some("boom"))]),
        }),
    );
    assert_eq!(extract_job_message(&job).as_deref(), Some("boom"));
    assert!(extract_job_message(&named_job("j", None)).is_none());
}

#[test]
fn build_job_carries_labels_env_and_owner() {
    let mut fi = fi("demo", None);
    fi.metadata.uid = Some("fi-uid".to_string());
    let name = job_name("demo", "sha256:abc");
    assert_eq!(name, "fi-demo-abc");
    let job = make_build_job(&fi, &config(), &name, &default_bundle_name("demo"), "sha256:abc");
    let labels = job.metadata.labels.as_ref().unwrap();
    assert_eq!(string_map_get(labels, LABEL_FI_NAME).map(String::as_str), Some("demo"));
    assert_eq!(string_map_get(labels, LABEL_SPEC_HASH).map(String::as_str), Some("abc"));
    assert_eq!(string_map_get(labels, LABEL_BUILD_KIND).map(String::as_str), Some("build"));
    let annotations = job.metadata.annotations.as_ref().unwrap();
    assert_eq!(string_map_get(annotations, ANNO_OBSERVED_GENERATION).map(String::as_str), Some("3"));
    assert_eq!(job.metadata.namespace.as_deref(), Some("extension-frontend-forge"));
    assert_eq!(job.metadata.owner_references.as_ref().unwrap()[0].uid, "fi-uid");
    let spec = job.spec.as_ref().unwrap();
    assert_eq!(spec.backoff_limit, Some(0));
    assert_eq!(spec.active_deadline_seconds, Some(300));
    let pod = spec.template.spec.as_ref().unwrap();
    assert_eq!(pod.restart_policy.as_deref(), Some("Never"));
    let env = pod.containers[0].env.as_ref().unwrap();
    let value = |n: &str| env.iter().find(|e| e.name == n).and_then(|e| e.value.clone());
    assert_eq!(value("FI_NAME").as_deref(), Some("demo"));
    assert_eq!(value("SPEC_HASH").as_deref(), Some("sha256:abc"));
    assert_eq!(value("JSBUNDLE_NAME").as_deref(), Some("fi-demo"));
    assert_eq!(value("BUILD_SERVICE_TIMEOUT_SECONDS").as_deref(), Some("600"));
    assert_eq!(labels_for("demo", "sha256:abc").len(), 3);
}

#[test]
fn plan_follows_enabled_and_build_need() {
    let mut fi = fi("demo", None);
    assert!(plan_reconcile(&fi, "sha256:h", None) == ReconcileStep::Build);
    fi.status = Some(status_with(FrontendIntegrationPhase::Building, Some("sha256:h")));
    assert!(plan_reconcile(&fi, "sha256:h", None) == ReconcileStep::SyncChildren);
    fi.spec.enabled = Some(false);
    assert!(plan_reconcile(&fi, "sha256:h", None) == ReconcileStep::Disabled);
    assert!(!reconcile_skips(&fi));
    fi.metadata.deletion_timestamp = Some(T0);
    assert!(reconcile_skips(&fi));
}

#[test]
fn existing_job_is_reused_only_when_allowed() {
    let fi = fi("demo", Some(status_with(FrontendIntegrationPhase::Building, Some("sha256:h"))));
    let running = job_with_status(Some(1), None, None);
    assert!(choose_build_job(&fi, Some(running), None, "sha256:h").is_some());
    let failed = job_with_status(None, None, Some(1));
    assert!(choose_build_job(&fi, Some(failed), None, "sha256:h").is_none());
    assert!(choose_build_job(&fi, None, None, "sha256:h").is_none());
}

#[test]
fn children_decisions_follow_job_and_bundle() {
    let fi = fi("demo", Some(status_with(FrontendIntegrationPhase::Building, Some("sha256:h"))));
    let running = named_job("j1", Some(JobStatus { active: Some(1), succeeded: None, failed: None, conditions: None }));
    let d = decide_children_at(&fi, "sha256:h", "fi-demo", Some(&running), None, 5, T0);
    assert!(d.action == ReconcileAction::Requeue { seconds: 5 });
    let st = d.status.unwrap();
    assert!(st.phase == FrontendIntegrationPhase::Building);
    assert_eq!(st.message.as_deref(), Some("Build in progress"));
    assert_eq!(st.last_build.unwrap().job_ref.unwrap().name, "j1");

    let failed = named_job(
        "j1",
        Some(JobStatus {
            active: None,
            succeeded: None,
            failed: Some(1),
            conditions: Some(vec![condition("Failed", "True", None, Some("out of memory"))]),
        }),
    );
    let d = decide_children_at(&fi, "sha256:h", "fi-demo", Some(&failed), None, 5, T0);
    assert!(d.action == ReconcileAction::AwaitChange);
    let st = d.status.unwrap();
    assert!(st.phase == FrontendIntegrationPhase::Failed);
    assert_eq!(st.message.as_deref(), Some("out of memory"));

    let done = named_job("j1", Some(JobStatus { active: None, succeeded: Some(1), failed: None, conditions: None }));
    let d = decide_children_at(&fi, "sha256:h", "fi-demo", Some(&done), None, 5, T0);
    assert_eq!(d.status.unwrap().message.as_deref(), Some("Job succeeded; waiting for JSBundle materialization"));
    let other = bundle_for_hash("fi-demo", "sha256:other");
    let d = decide_children_at(&fi, "sha256:h", "fi-demo", Some(&done), Some(&other), 5, T0);
    assert_eq!(
        d.status.unwrap().message.as_deref(),
        Some("Job succeeded; waiting for JSBundle with matching spec-hash")
    );
    let mut ready = bundle_for_hash("fi-demo", "sha256:h");
    ready.metadata.annotations = Some(vec![(ANNO_MANIFEST_HASH.to_string(), "sha256:m".to_string())]);
    let d = decide_children_at(&fi, "sha256:h", "fi-demo", Some(&done), Some(&ready), 5, T0);
    assert_eq!(d.bundle_enabled, Some(true));
    assert!(d.action == ReconcileAction::AwaitChange);
    let st = d.status.unwrap();
    assert!(st.phase == FrontendIntegrationPhase::Succeeded);
    assert_eq!(st.observed_manifest_hash.as_deref(), Some("sha256:m"));
    assert_eq!(st.message.as_deref(), Some("Build succeeded"));

    let d = decide_children_at(&fi, "sha256:h", "fi-demo", None, Some(&ready), 5, T0);
    assert_eq!(d.status.unwrap().message.as_deref(), Some("JSBundle ready"));
    let d = decide_children_at(&fi, "sha256:h", "fi-demo", None, None, 5, T0);
    assert!(d.status.is_none());
    assert!(d.bundle_enabled.is_none());
}

#[test]
fn disabled_and_scheduled_outcomes() {
    let fi = fi("demo", Some(status_with(FrontendIntegrationPhase::Succeeded, Some("sha256:h"))));
    let bundle = bundle_for_hash("fi-demo", "sha256:h");
    let d = disabled_outcome(&fi, Some(&bundle));
    assert_eq!(d.bundle_enabled, Some(false));
    assert!(d.action == ReconcileAction::AwaitChange);
    assert!(disabled_outcome(&fi, None).bundle_enabled.is_none());
    let job = named_job("j2", None);
    let d = scheduled_outcome_at(&fi, "sha256:h", "fi-demo", &job, 7, T0);
    assert!(d.action == ReconcileAction::Requeue { seconds: 7 });
    assert_eq!(d.status.unwrap().message.as_deref(), Some("Build job scheduled"));
}

#[test]
fn manifest_hash_falls_back_to_label_with_prefix() {
    let mut bundle = bundle_for_hash("fi-demo", "sha256:h");
    assert!(bundle_manifest_hash(&bundle).is_none());
    bundle.metadata.labels = Some(vec![(LABEL_MANIFEST_HASH.to_string(), "abc".to_string())]);
    assert_eq!(bundle_manifest_hash(&bundle).as_deref(), Some("sha256:abc"));
}

#[test]
fn reenabled_integration_keeps_its_bundle_without_rebuild() {
    let mut fi = fi("demo", Some(status_with(FrontendIntegrationPhase::Succeeded, Some("sha256:h"))));
    let bundle = bundle_for_hash("fi-demo", "sha256:h");
    let disabled = disabled_status(&fi, Some(&bundle));
    fi.status = Some(disabled);
    assert!(!needs_new_build(&fi, "sha256:h", Some(&bundle)));
    assert!(needs_new_build(&fi, "sha256:h", None));
}

#[test]
fn recorded_outcomes_do_not_ask_for_another_build() {
    let base = fi("demo", Some(status_with(FrontendIntegrationPhase::Building, Some("sha256:h"))));
    let done = named_job("j1", Some(JobStatus { active: None, succeeded: Some(1), failed: None, conditions: None }));
    let ready = bundle_for_hash("fi-demo", "sha256:h");
    for (job, bundle) in [(Some(&done), Some(&ready)), (Some(&done), None), (None, Some(&ready))] {
        let d = decide_children_at(&base, "sha256:h", "fi-demo", job, bundle, 5, T0);
        let mut next = fi("demo", None);
        next.status = d.status;
        assert!(!needs_new_build(&next, "sha256:h", bundle));
    }
    let d = scheduled_outcome_at(&base, "sha256:h", "fi-demo", &done, 5, T0);
    let mut next = fi("demo", None);
    next.status = d.status;
    assert!(!needs_new_build(&next, "sha256:h", None));
}

#[test]
fn building_statuses_are_stamped_with_the_clock() {
    let fi = fi("demo", Some(status_with(FrontendIntegrationPhase::Building, Some("sha256:h"))));
    let running = named_job("j1", Some(JobStatus { active: Some(1), succeeded: None, failed: None, conditions: None }));
    let d = frontend_forge::controller::plan::decide_children(&fi, "sha256:h", "fi-demo", Some(&running), None, 5)
        .expect("a usable clock");
    let started = d.status.unwrap().last_build.unwrap().started_at.unwrap();
    assert!(started.seconds > 1_600_000_000);
    assert!(started.nanos < 1_000_000_000);
}

#[test]
fn job_selector_names_integration_and_hash_label() {
    assert_eq!(
        job_selector("demo", "sha256:abc"),
        "frontend-forge.kubesphere.io/fi-name=demo,frontend-forge.kubesphere.io/spec-hash=abc"
    );
}

fn created_job(name: &str, created: Option<Timestamp>) -> Job {
    let mut job = named_job(name, None);
    job.metadata.creation_timestamp = created;
    job
}

#[test]
fn latest_job_is_the_last_created() {
    assert!(latest_job(vec![]).is_none());
    let t1 = Timestamp { seconds: 100, nanos: 5 };
    let t2 = Timestamp { seconds: 100, nanos: 7 };
    let jobs = vec![
        created_job("a", Some(t2)),
        created_job("b", None),
        created_job("c", Some(t1)),
    ];
    let latest = latest_job(jobs).unwrap();
    assert_eq!(latest.metadata.name.as_deref(), Some("a"));
    let tied = vec![created_job("x", Some(t1)), created_job("y", Some(t1)), created_job("z", None)];
    assert_eq!(latest_job(tied).unwrap().metadata.name.as_deref(), Some("y"));
}

#[test]
fn build_hash_ignores_enabled() {
    let mut enabled_fi = fi("demo", None);
    enabled_fi.spec.enabled = Some(true);

    let mut disabled_fi = fi("demo", None);
    disabled_fi.spec.enabled = Some(false);

    assert_eq!(build_spec_hash(&enabled_fi), build_spec_hash(&disabled_fi));
}

#[test]
fn build_hash_changes_with_the_spec() {
    let a = fi("demo", None);
    let mut b = fi("demo", None);
    b.spec.display_name = Some("Demo".to_string());
    assert_ne!(build_spec_hash(&a), build_spec_hash(&b));
    assert!(build_spec_hash(&a).starts_with("sha256:"));
    assert_eq!(build_spec_hash(&a).len(), "sha256:".len() + 64);
}

fn failed_job() -> Job {
    named_job(
        "j1",
        Some(JobStatus {
            active: None,
            succeeded: None,
            failed: Some(1),
            conditions: Some(vec![condition(
                "Failed",
                "True",
                Some("BackoffLimitExceeded"),
                Some("Job has reached the specified backoff limit"),
            )]),
        }),
    )
}

#[test]
fn failed_build_keeps_the_runner_error() {
    let mut st = status_with(FrontendIntegrationPhase::Building, Some("sha256:h"));
    st.message = Some("duplicate page key 'demo'".to_string());
    st.last_error = Some("duplicate page key 'demo'".to_string());
    let fi = fi("demo", Some(st));
    let d = decide_children_at(&fi, "sha256:h", "fi-demo", Some(&failed_job()), None, 5, T0);
    assert!(d.action == ReconcileAction::AwaitChange);
    let st = d.status.unwrap();
    assert!(st.phase == FrontendIntegrationPhase::Failed);
    assert_eq!(st.message.as_deref(), Some("duplicate page key 'demo'"));
    assert_eq!(st.last_error.as_deref(), Some("duplicate page key 'demo'"));
}

#[test]
fn failed_build_without_runner_error_reports_the_job() {
    let fi = fi("demo", Some(status_with(FrontendIntegrationPhase::Building, Some("sha256:h"))));
    let d = decide_children_at(&fi, "sha256:h", "fi-demo", Some(&failed_job()), None, 5, T0);
    let st = d.status.unwrap();
    assert_eq!(st.message.as_deref(), Some("Job has reached the specified backoff limit"));
    assert!(st.last_error.is_none());
    let silent = named_job(
        "j1",
        Some(JobStatus { active: None, succeeded: None, failed: Some(1), conditions: None }),
    );
    let d = decide_children_at(&fi, "sha256:h", "fi-demo", Some(&silent), None, 5, T0);
    assert_eq!(d.status.unwrap().message.as_deref(), Some("Build job failed"));
}

#[test]
fn scheduling_a_build_clears_the_last_error() {
    let mut st = status_with(FrontendIntegrationPhase::Failed, Some("sha256:old"));
    st.last_error = Some("boom".to_string());
    let fi = fi("demo", Some(st));
    let job = named_job("j2", None);
    let d = scheduled_outcome_at(&fi, "sha256:h", "fi-demo", &job, 5, T0);
    let st = d.status.unwrap();
    assert!(st.phase == FrontendIntegrationPhase::Building);
    assert!(st.last_error.is_none());
}

#[test]
fn status_patch_writes_and_clears_last_error() {
    let mut status = status_with(FrontendIntegrationPhase::Failed, Some("sha256:h"));
    status.last_error = Some("boom".to_string());
    let patch = frontend_integration_status_patch(&status);
    let inner = get(&patch, "status").unwrap();
    assert_eq!(text(get(inner, "last_error")), Some("boom"));
    status.last_error = None;
    let patch = frontend_integration_status_patch(&status);
    let inner = get(&patch, "status").unwrap();
    assert!(is_null(get(inner, "last_error")));
}
