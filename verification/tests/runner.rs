use frontend_forge::api::{
    FrontendIntegrationSpec, FrontendIntegrationStatus, IframePageSpec, MenuNodeType, MenuPlacement, PageSpec,
    PageType, PrimaryMenuSpec,
};
use frontend_forge::controller::status::{bundle_manifest_hash, bundle_matches_spec_hash};
use frontend_forge::digest::content_hash;
use frontend_forge::json::JsonValue;
use frontend_forge::labels::{
    enabled_label_value, ANNO_BUILD_JOB, ANNO_MANIFEST_CONTENT, ANNO_MANIFEST_HASH, LABEL_ENABLED,
    LABEL_MANIFEST_HASH, LABEL_SPEC_HASH,
};
use frontend_forge::resource::{string_map_get, FrontendIntegration, ObjectMeta};
use frontend_forge::runner::{
    bundle_configmap, bundle_configmap_name, bundle_link, decode_remote_file_to_utf8, desired_jsbundle,
    jsbundle_status_patch, manifest_annotations, owner_refs_for, project_build_files, published_jsbundle_status,
    runner_job_is_current, select_bundle_artifact, stale_check_step, ProjectBuildResponse, RemoteFile,
    RunnerConfig, RunnerError, StaleCheckStep,
};

fn test_fi(name: &str) -> FrontendIntegration {
    let mut metadata = ObjectMeta::empty();
    metadata.name = Some(name.to_string());
    FrontendIntegration {
        metadata,
        spec: FrontendIntegrationSpec {
            display_name: None,
            locales: vec![],
            enabled: Some(true),
            menus: vec![PrimaryMenuSpec {
                display_name: name.to_string(),
                key: name.to_string(),
                placement: MenuPlacement::Global,
                type_: MenuNodeType::Page,
                children: vec![],
            }],
            pages: vec![PageSpec {
                key: name.to_string(),
                type_: PageType::Iframe,
                crd_table: None,
                iframe: Some(IframePageSpec { src: "http://example.test".to_string() }),
            }],
            builder: None,
        },
        status: None,
    }
}

fn test_cfg() -> RunnerConfig {
    RunnerConfig {
        fi_name: "demo".to_string(),
        spec_hash: "sha256:abc".to_string(),
        jsbundle_name: "fi-demo".to_string(),
        jsbundle_configmap_namespace: "extension-frontend-forge-config".to_string(),
        jsbundle_config_key: "index.js".to_string(),
        build_service_base_url: "http://builder".to_string(),
        build_service_timeout_seconds: 30,
        stale_check_grace_seconds: 30,
    }
}

fn file(path: &str, content: &str) -> RemoteFile {
    RemoteFile { path: path.to_string(), content: content.to_string() }
}

fn get<'a>(j: &'a JsonValue, key: &str) -> Option<&'a JsonValue> {
    match j {
        JsonValue::Object(entries) => entries.iter().find(|(k, _)| k == key).map(|(_, v)| v),
        _ => None,
    }
}

fn text(j: Option<&JsonValue>) -> Option<&str> {
    match j {
        Some(JsonValue::Str(s)) => Some(s.as_str()),
        _ => None,
    }
}

#[test]
fn decodes_plain_file_passthrough() {
    let file = RemoteFile { path: "index.js".to_string(), content: "console.log('ok')".to_string() };

    let decoded = decode_remote_file_to_utf8(&file).ok().unwrap();
    assert_eq!(decoded, "console.log('ok')");
}

#[test]
fn selects_js_fallback_artifact() {
    let cfg = test_cfg();

    let (key, content) = select_bundle_artifact(
        &cfg,
        vec![
            RemoteFile { path: "style.css".to_string(), content: "body{}".to_string() },
            RemoteFile { path: "bundle/main.js".to_string(), content: "console.log('js')".to_string() },
        ],
    )
    .ok()
    .unwrap();

    assert_eq!(key, "index.js");
    assert_eq!(content, "console.log('js')");
}

#[test]
fn builds_jsbundle_link() {
    assert_eq!(bundle_link("fi-demo", "index.js"), "/dist/fi-demo/index.js");
}

#[test]
fn manifest_annotations_include_hash_and_content() {
    let annotations = manifest_annotations("job-1", "{\"kind\":\"Extension\"}", "sha256:abc");

    assert_eq!(string_map_get(&annotations, ANNO_BUILD_JOB).map(String::as_str), Some("job-1"));
    assert_eq!(string_map_get(&annotations, ANNO_MANIFEST_HASH).map(String::as_str), Some("sha256:abc"));
    assert_eq!(
        string_map_get(&annotations, ANNO_MANIFEST_CONTENT).map(String::as_str),
        Some("{\"kind\":\"Extension\"}")
    );
}

#[test]
fn enabled_label_is_boolean_string() {
    assert_eq!(enabled_label_value(true), "true");
    assert_eq!(enabled_label_value(false), "false");
}

#[test]
fn owner_refs_for_fi_sets_controller_owner_reference() {
    let mut fi = test_fi("demo");
    fi.metadata.uid = Some("fi-uid-123".to_string());

    let owner_refs = owner_refs_for(&fi).expect("owner refs missing");
    assert_eq!(owner_refs.len(), 1);

    let owner = &owner_refs[0];
    assert_eq!(owner.api_version, "frontend-forge.kubesphere.io/v1alpha1");
    assert_eq!(owner.kind, "FrontendIntegration");
    assert_eq!(owner.name, "demo");
    assert_eq!(owner.uid, "fi-uid-123");
    assert_eq!(owner.controller, Some(true));
}

#[test]
fn owner_refs_need_a_uid() {
    assert!(owner_refs_for(&test_fi("demo")).is_none());
}

#[test]
fn selects_the_configured_key_first() {
    let cfg = test_cfg();
    let (key, content) = select_bundle_artifact(
        &cfg,
        vec![file("main.js", "a"), file("index.js", "b"), file("other.js", "c")],
    )
    .ok()
    .unwrap();
    assert_eq!(key, "index.js");
    assert_eq!(content, "b");
}

#[test]
fn selects_a_single_file_under_its_own_name() {
    let cfg = test_cfg();
    let (key, content) = select_bundle_artifact(&cfg, vec![file("app.css", "x")]).ok().unwrap();
    assert_eq!(key, "app.css");
    assert_eq!(content, "x");
}

#[test]
fn selects_the_first_script_among_several() {
    let cfg = test_cfg();
    let (key, content) = select_bundle_artifact(
        &cfg,
        vec![file("a.css", "1"), file("first.js", "2"), file("second.js", "3")],
    )
    .ok()
    .unwrap();
    assert_eq!(key, "first.js");
    assert_eq!(content, "2");
}

#[test]
fn missing_artifact_names_the_configured_key() {
    let cfg = test_cfg();
    match select_bundle_artifact(&cfg, vec![file("a.css", "1"), file("b.css", "2")]) {
        Err(RunnerError::MissingBundleArtifact { desired_key }) => assert_eq!(desired_key, "index.js"),
        _ => panic!("expected a missing artifact"),
    }
    match select_bundle_artifact(&cfg, vec![]) {
        Err(e) => assert_eq!(e.message(), "no suitable JS bundle artifact found (wanted key 'index.js')"),
        Ok(_) => panic!("expected a missing artifact"),
    }
}

#[test]
fn failed_build_reports_service_message_or_default() {
    let failed = ProjectBuildResponse { ok: false, message: Some("boom".to_string()), files: vec![] };
    match project_build_files(failed) {
        Err(e) => assert_eq!(e.message(), "build-service returned failure: boom"),
        Ok(_) => panic!("expected a failure"),
    }
    let silent = ProjectBuildResponse { ok: false, message: None, files: vec![file("index.js", "x")] };
    match project_build_files(silent) {
        Err(RunnerError::BuildFailed { message }) => assert_eq!(message, "build-service returned ok=false"),
        _ => panic!("expected a failure"),
    }
    let ok = ProjectBuildResponse { ok: true, message: None, files: vec![file("index.js", "x")] };
    let files = project_build_files(ok).ok().unwrap();
    assert_eq!(files.len(), 1);
    assert_eq!(files[0].path, "index.js");
}

#[test]
fn stale_check_publishes_only_for_the_job_hash() {
    let mut fi = test_fi("demo");
    assert!(stale_check_step(&fi, "sha256:abc", true) == StaleCheckStep::Retry);
    assert!(stale_check_step(&fi, "sha256:abc", false) == StaleCheckStep::TimedOut);
    let mut status = FrontendIntegrationStatus::default();
    status.observed_spec_hash = Some("sha256:abc".to_string());
    fi.status = Some(status);
    assert!(stale_check_step(&fi, "sha256:abc", false) == StaleCheckStep::Publish);
    assert!(stale_check_step(&fi, "sha256:other", true) == StaleCheckStep::Abandon);
    let mut legacy = FrontendIntegrationStatus::default();
    legacy.observed_manifest_hash = Some("sha256:abc".to_string());
    fi.status = Some(legacy);
    assert!(stale_check_step(&fi, "sha256:abc", true) == StaleCheckStep::Publish);
    assert_eq!(RunnerError::StaleCheckTimeout.message(), "fi status.observed_spec_hash not available within grace period");
}

#[test]
fn job_is_current_only_for_its_own_hash() {
    let cfg = test_cfg();
    assert!(runner_job_is_current(&cfg, "sha256:abc"));
    assert!(!runner_job_is_current(&cfg, "sha256:abd"));
}

#[test]
fn link_drops_leading_slashes_of_the_key() {
    assert_eq!(bundle_link("fi-demo", "//js/index.js"), "/dist/fi-demo/js/index.js");
}

#[test]
fn configmap_name_is_bounded() {
    assert_eq!(bundle_configmap_name("fi-demo"), "fi-demo-config");
    let long = "x".repeat(70);
    let name = bundle_configmap_name(&long);
    assert_eq!(name.chars().count(), 63);
    assert_eq!(name, "x".repeat(63));
}

#[test]
fn published_bundle_is_recognized_by_the_controller() {
    let cfg = test_cfg();
    let mut fi = test_fi("demo");
    fi.metadata.uid = Some("uid-1".to_string());
    let bundle = desired_jsbundle(&cfg, &fi, "fi-demo-config", "index.js", "{}", "sha256:m1", "job-1");
    assert!(bundle_matches_spec_hash(&bundle, "sha256:abc"));
    assert!(!bundle_matches_spec_hash(&bundle, "sha256:abd"));
    assert_eq!(bundle_manifest_hash(&bundle), Some("sha256:m1".to_string()));
    let labels = bundle.metadata.labels.as_ref().unwrap();
    assert_eq!(string_map_get(labels, LABEL_SPEC_HASH).map(String::as_str), Some("abc"));
    assert_eq!(string_map_get(labels, LABEL_MANIFEST_HASH).map(String::as_str), Some("m1"));
    assert_eq!(string_map_get(labels, LABEL_ENABLED).map(String::as_str), Some("true"));
    let key_ref = bundle.spec.raw_from.as_ref().unwrap().config_map_key_ref.as_ref().unwrap();
    assert_eq!(key_ref.key, "index.js");
    assert_eq!(key_ref.name, "fi-demo-config");
    assert_eq!(key_ref.namespace, "extension-frontend-forge-config");
    assert!(bundle.metadata.owner_references.is_none());
}

#[test]
fn configmap_holds_content_under_bundle_key() {
    let cfg = test_cfg();
    let fi = test_fi("demo");
    let cm = bundle_configmap(&cfg, &fi, "fi-demo-config", "index.js", "console.log(1)", "sha256:m1", "job-1");
    assert_eq!(cm.metadata.name.as_deref(), Some("fi-demo-config"));
    assert_eq!(cm.metadata.namespace.as_deref(), Some("extension-frontend-forge-config"));
    let data = cm.data.as_ref().unwrap();
    assert_eq!(string_map_get(data, "index.js").map(String::as_str), Some("console.log(1)"));
    let annotations = cm.metadata.annotations.as_ref().unwrap();
    assert_eq!(string_map_get(annotations, ANNO_BUILD_JOB).map(String::as_str), Some("job-1"));
    assert!(cm.metadata.owner_references.is_none());
}

#[test]
fn bundle_status_patch_writes_state_and_link() {
    let status = published_jsbundle_status("fi-demo", "/index.js");
    let patch = jsbundle_status_patch(&status);
    let inner = get(&patch, "status").unwrap();
    assert_eq!(text(get(inner, "state")), Some("Available"));
    assert_eq!(text(get(inner, "link")), Some("/dist/fi-demo/index.js"));
    assert!(get(inner, "conditions").is_none());
}

#[test]
fn content_hash_is_prefixed_sha256_hex() {
    assert_eq!(
        content_hash(""),
        "sha256:e3b0c44298fc1c149afbf4c8996fb92427ae41e4649b934ca495991b7852b855"
    );
    assert_eq!(
        content_hash("abc"),
        "sha256:ba7816bf8f01cfea414140de5dae2223b00361a396177a9cb410ff61f20015ad"
    );
}

#[test]
fn build_spec_hash_ignores_enabled() {
    let fi_enabled = test_fi("demo");
    let mut fi_disabled = test_fi("demo");
    fi_disabled.spec.enabled = Some(false);

    let enabled_hash = frontend_forge::spec_json::build_spec_hash(&fi_enabled);
    let disabled_hash = frontend_forge::spec_json::build_spec_hash(&fi_disabled);
    assert_eq!(enabled_hash, disabled_hash);
}

#[test]
fn runner_failure_patch_writes_message_and_last_error() {
    let patch = frontend_forge::runner::runner_failure_patch("render failed");
    let text = frontend_forge::canonical::canonical_text(&patch);
    assert_eq!(text, "{\"status\":{\"last_error\":\"render failed\",\"message\":\"render failed\"}}");
}
