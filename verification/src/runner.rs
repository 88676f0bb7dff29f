//! The build runner: whether its Job still builds the current spec, what the build service's
//! answer yields, which artifact is published, and the ConfigMap, JSBundle and status that
//! publish it.
use crate::api::{
    spec_enabled, JsBundleNamespacedKeyRef, JsBundleNamespacedKeyRefView, JsBundleRawFromSpec,
    JsBundleRawFromSpecView, JsBundleSpec, JsBundleSpecView, JsBundleStatus, JsBundleStatusView,
};
use crate::controller::status::spec_observed_hash;
use crate::json::{
    clone_json, entries_view, finish_object, items_view, json_view, lemma_array_view, new_object, opt_str_entry,
    push_entry, push_opt_str, JsonValue, JsonView,
};
use crate::labels::{
    bounded_name, enabled_label_value, hash_label_value, spec_bounded_name, spec_enabled_label_value,
    spec_hash_label_value, ANNO_BUILD_JOB, ANNO_MANIFEST_CONTENT, ANNO_MANIFEST_HASH, LABEL_ENABLED,
    LABEL_FI_NAME, LABEL_MANAGED_BY, LABEL_MANIFEST_HASH, LABEL_SPEC_HASH, MANAGED_BY_VALUE,
};
use crate::resource::{
    spec_fi_controller_owner_ref, ConfigMap, ConfigMapView, FrontendIntegration, FrontendIntegrationView, JSBundle,
    JSBundleView, ObjectMeta, ObjectMetaView, OwnerReference, OwnerReferenceView, StringMap,
};
use crate::text::{concat_str, contains_char, ends_with, seq_ends_with, spec_trim_start_char, trim_start_char};
use vstd::prelude::*;

verus! {

broadcast use vstd::std_specs::vec::group_vec_axioms;

// ---------------------------------------------------------------- configuration
/// What a runner Job is told through its environment.
pub struct RunnerConfig {
    pub fi_name: String,
    pub spec_hash: String,
    pub jsbundle_name: String,
    pub jsbundle_configmap_namespace: String,
    pub jsbundle_config_key: String,
    pub build_service_base_url: String,
    pub build_service_timeout_seconds: u64,
    pub stale_check_grace_seconds: u64,
}

pub struct RunnerConfigView {
    pub fi_name: Seq<char>,
    pub spec_hash: Seq<char>,
    pub jsbundle_name: Seq<char>,
    pub jsbundle_configmap_namespace: Seq<char>,
    pub jsbundle_config_key: Seq<char>,
    pub build_service_base_url: Seq<char>,
    pub build_service_timeout_seconds: u64,
    pub stale_check_grace_seconds: u64,
}

impl DeepView for RunnerConfig {
    type V = RunnerConfigView;

    open spec fn deep_view(&self) -> RunnerConfigView {
        RunnerConfigView {
            fi_name: self.fi_name@,
            spec_hash: self.spec_hash@,
            jsbundle_name: self.jsbundle_name@,
            jsbundle_configmap_namespace: self.jsbundle_configmap_namespace@,
            jsbundle_config_key: self.jsbundle_config_key@,
            build_service_base_url: self.build_service_base_url@,
            build_service_timeout_seconds: self.build_service_timeout_seconds,
            stale_check_grace_seconds: self.stale_check_grace_seconds,
        }
    }
}

/// Whether the Job still builds the integration's current spec: the hash it was started for
/// is the hash of the spec it now reads. A Job whose hash is out of date stops without
/// building.
pub fn runner_job_is_current(cfg: &RunnerConfig, current_spec_hash: &str) -> (b: bool)
    ensures
        b == (cfg.spec_hash@ == current_spec_hash@),
{
    cfg.spec_hash == String::from_str(current_spec_hash)
}

// ---------------------------------------------------------------- errors
/// The runner's own failures.
pub enum RunnerError {
    /// The build service answered `ok: false`.
    BuildFailed { message: String },
    /// No file of the build fits the bundle.
    MissingBundleArtifact { desired_key: String },
    /// The integration's status named no built hash within the grace period.
    StaleCheckTimeout,
}

pub enum RunnerErrorView {
    BuildFailed { message: Seq<char> },
    MissingBundleArtifact { desired_key: Seq<char> },
    StaleCheckTimeout,
}

impl DeepView for RunnerError {
    type V = RunnerErrorView;

    open spec fn deep_view(&self) -> RunnerErrorView {
        match self {
            RunnerError::BuildFailed { message } => RunnerErrorView::BuildFailed { message: message@ },
            RunnerError::MissingBundleArtifact { desired_key } => RunnerErrorView::MissingBundleArtifact {
                desired_key: desired_key@,
            },
            RunnerError::StaleCheckTimeout => RunnerErrorView::StaleCheckTimeout,
        }
    }
}

pub open spec fn spec_runner_error_message(e: RunnerErrorView) -> Seq<char> {
    match e {
        RunnerErrorView::BuildFailed { message } => "build-service returned failure: "@ + message,
        RunnerErrorView::MissingBundleArtifact { desired_key } => "no suitable JS bundle artifact found (wanted key '"@
            + desired_key + "')"@,
        RunnerErrorView::StaleCheckTimeout => "fi status.observed_spec_hash not available within grace period"@,
    }
}

impl RunnerError {
    /// The error's message.
    pub fn message(&self) -> (m: String)
        ensures
            m@ == spec_runner_error_message(self.deep_view()),
    {
        match self {
            RunnerError::BuildFailed { message } => concat_str("build-service returned failure: ", message.as_str()),
            RunnerError::MissingBundleArtifact { desired_key } => {
                let head = concat_str("no suitable JS bundle artifact found (wanted key '", desired_key.as_str());
                concat_str(head.as_str(), "')")
            },
            RunnerError::StaleCheckTimeout => String::from_str(
                "fi status.observed_spec_hash not available within grace period",
            ),
        }
    }
}

// ---------------------------------------------------------------- build service answer
/// A file produced by the build service.
pub struct RemoteFile {
    pub path: String,
    pub content: String,
}

pub struct RemoteFileView {
    pub path: Seq<char>,
    pub content: Seq<char>,
}

impl DeepView for RemoteFile {
    type V = RemoteFileView;

    open spec fn deep_view(&self) -> RemoteFileView {
        RemoteFileView { path: self.path@, content: self.content@ }
    }
}

/// The build service's answer to a project build.
pub struct ProjectBuildResponse {
    pub ok: bool,
    pub message: Option<String>,
    pub files: Vec<RemoteFile>,
}

/// The message of a failed build: the service's message, or a fixed text when it gave none.
pub open spec fn spec_build_failure_message(message: Option<Seq<char>>) -> Seq<char> {
    match message {
        Some(m) => m,
        None => "build-service returned ok=false"@,
    }
}

/// The files of a successful build; a build answered with `ok: false` fails with the
/// service's message.
pub fn project_build_files(resp: ProjectBuildResponse) -> (r: Result<Vec<RemoteFile>, RunnerError>)
    ensures
        resp.ok ==> r == Ok::<Vec<RemoteFile>, RunnerError>(resp.files),
        !resp.ok ==> (r matches Err(e) && e.deep_view() == (RunnerErrorView::BuildFailed {
            message: spec_build_failure_message(resp.message.deep_view()),
        })),
{
    if !resp.ok {
        let message = match resp.message {
            Some(m) => m,
            None => String::from_str("build-service returned ok=false"),
        };
        return Err(RunnerError::BuildFailed { message });
    }
    Ok(resp.files)
}

/// The content of a file of the build, which the service sends as text.
pub fn decode_remote_file_to_utf8(remote: &RemoteFile) -> (r: Result<String, RunnerError>)
    ensures
        r matches Ok(s) && s@ == remote.content@,
{
    Ok(remote.content.clone())
}

// ---------------------------------------------------------------- choosing the artifact
/// `i` is the first index below `n` where `p` holds.
pub open spec fn is_first(n: int, p: spec_fn(int) -> bool, i: int) -> bool {
    &&& 0 <= i < n
    &&& p(i)
    &&& forall|j: int| 0 <= j < i ==> !#[trigger] p(j)
}

/// The first index below `n` where `p` holds, if any.
pub open spec fn first_index(n: int, p: spec_fn(int) -> bool) -> Option<int> {
    if exists|i: int| is_first(n, p, i) {
        Some(choose|i: int| is_first(n, p, i))
    } else {
        None
    }
}

proof fn lemma_first_index_is(n: int, p: spec_fn(int) -> bool, i: int)
    requires
        is_first(n, p, i),
    ensures
        first_index(n, p) == Some(i),
{
    let k = choose|k: int| is_first(n, p, k);
    assert(is_first(n, p, k));
    if k < i {
        assert(!p(k));
    } else if k > i {
        assert(!p(i));
    }
}

proof fn lemma_first_index_none(n: int, p: spec_fn(int) -> bool)
    requires
        forall|j: int| 0 <= j < n ==> !#[trigger] p(j),
    ensures
        first_index(n, p) is None,
{
    if exists|i: int| is_first(n, p, i) {
        let k = choose|k: int| is_first(n, p, k);
        assert(p(k));
    }
}

/// The file at `i` has path `key`.
pub open spec fn path_is(files: Seq<RemoteFileView>, key: Seq<char>) -> spec_fn(int) -> bool {
    |i: int| files[i].path == key
}

/// The file at `i` is a script: its path ends with `.js`.
pub open spec fn path_is_script(files: Seq<RemoteFileView>) -> spec_fn(int) -> bool {
    |i: int| seq_ends_with(files[i].path, ".js"@)
}

fn position_of_path(files: &Vec<RemoteFile>, key: &str) -> (r: Option<usize>)
    ensures
        r matches Some(i) ==> is_first(files@.len() as int, path_is(files.deep_view(), key@), i as int),
        r is None ==> first_index(files@.len() as int, path_is(files.deep_view(), key@)) is None,
{
    let ghost fv = files.deep_view();
    let ghost p = path_is(fv, key@);
    let mut i: usize = 0;
    while i < files.len()
        invariant
            0 <= i <= files@.len(),
            fv == files.deep_view(),
            p == path_is(fv, key@),
            forall|j: int| 0 <= j < i ==> !#[trigger] p(j),
        decreases files@.len() - i,
    {
        assert(fv[i as int] == files@[i as int].deep_view());
        if files[i].path == String::from_str(key) {
            assert(p(i as int));
            return Some(i);
        }
        i += 1;
    }
    proof {
        lemma_first_index_none(files@.len() as int, p);
    }
    None
}

fn position_of_script(files: &Vec<RemoteFile>) -> (r: Option<usize>)
    ensures
        r matches Some(i) ==> is_first(files@.len() as int, path_is_script(files.deep_view()), i as int),
        r is None ==> first_index(files@.len() as int, path_is_script(files.deep_view())) is None,
{
    let ghost fv = files.deep_view();
    let ghost p = path_is_script(fv);
    let suffix = ".js";
    let mut i: usize = 0;
    while i < files.len()
        invariant
            0 <= i <= files@.len(),
            fv == files.deep_view(),
            p == path_is_script(fv),
            suffix@ == ".js"@,
            forall|j: int| 0 <= j < i ==> !#[trigger] p(j),
        decreases files@.len() - i,
    {
        assert(fv[i as int] == files@[i as int].deep_view());
        if ends_with(files[i].path.as_str(), suffix) {
            assert(p(i as int));
            return Some(i);
        }
        i += 1;
    }
    proof {
        lemma_first_index_none(files@.len() as int, p);
    }
    None
}

/// The file published as the bundle: the one whose path is the configured key, else the
/// only file, else the first script.
pub open spec fn spec_selected_index(files: Seq<RemoteFileView>, desired_key: Seq<char>) -> Option<int> {
    match first_index(files.len() as int, path_is(files, desired_key)) {
        Some(i) => Some(i),
        None => if files.len() == 1 {
            Some(0)
        } else {
            first_index(files.len() as int, path_is_script(files))
        },
    }
}

/// The key and content of the bundle. The key is the file's path, unless that path has a
/// directory part, in which case the configured key is used. Without a fitting file the
/// selection fails, naming the configured key.
pub open spec fn spec_select_bundle_artifact(desired_key: Seq<char>, files: Seq<RemoteFileView>) -> Result<
    (Seq<char>, Seq<char>),
    RunnerErrorView,
> {
    match spec_selected_index(files, desired_key) {
        None => Err(RunnerErrorView::MissingBundleArtifact { desired_key }),
        Some(i) => Ok(
            (
                if files[i].path.contains('/') {
                    desired_key
                } else {
                    files[i].path
                },
                files[i].content,
            ),
        ),
    }
}

/// The model of a selection's result.
pub open spec fn selection_view(r: Result<(String, String), RunnerError>) -> Result<
    (Seq<char>, Seq<char>),
    RunnerErrorView,
> {
    match r {
        Ok((k, c)) => Ok((k@, c@)),
        Err(e) => Err(e.deep_view()),
    }
}

pub fn select_bundle_artifact(cfg: &RunnerConfig, remote_files: Vec<RemoteFile>) -> (r: Result<
    (String, String),
    RunnerError,
>)
    ensures
        selection_view(r) == spec_select_bundle_artifact(cfg.jsbundle_config_key@, remote_files.deep_view()),
{
    let ghost fv = remote_files.deep_view();
    let desired_key = cfg.jsbundle_config_key.clone();
    let found = position_of_path(&remote_files, desired_key.as_str());
    let selected = match found {
        Some(i) => {
            proof {
                lemma_first_index_is(fv.len() as int, path_is(fv, desired_key@), i as int);
            }
            Some(i)
        },
        None => if remote_files.len() == 1 {
            Some(0)
        } else {
            let s = position_of_script(&remote_files);
            proof {
                if let Some(i) = s {
                    lemma_first_index_is(fv.len() as int, path_is_script(fv), i as int);
                }
            }
            s
        },
    };
    assert(selected matches Some(i) ==> spec_selected_index(fv, desired_key@) == Some(i as int));
    assert(selected is None ==> spec_selected_index(fv, desired_key@) is None);
    let idx = match selected {
        Some(i) => i,
        None => return Err(RunnerError::MissingBundleArtifact { desired_key }),
    };
    let file = &remote_files[idx];
    assert(fv[idx as int] == file.deep_view());
    let content = match decode_remote_file_to_utf8(file) {
        Ok(c) => c,
        Err(e) => return Err(e),
    };
    let key = if contains_char(file.path.as_str(), '/') {
        desired_key
    } else {
        file.path.clone()
    };
    Ok((key, content))
}

// ---------------------------------------------------------------- where the bundle lives
/// Where the console loads a bundle from: `/dist/<bundle>/<key>`, leading slashes of the key
/// dropped.
pub open spec fn spec_bundle_link(jsbundle_name: Seq<char>, bundle_key: Seq<char>) -> Seq<char> {
    "/dist/"@ + jsbundle_name + "/"@ + spec_trim_start_char(bundle_key, '/')
}

pub fn bundle_link(jsbundle_name: &str, bundle_key: &str) -> (r: String)
    ensures
        r@ == spec_bundle_link(jsbundle_name@, bundle_key@),
{
    let key = trim_start_char(bundle_key, '/');
    let mut out = String::from_str("/dist/");
    out.append(jsbundle_name);
    out.append("/");
    out.append(key.as_str());
    out
}

/// Name of the ConfigMap that holds a bundle's content: `<bundle>-config`, bounded in length.
pub open spec fn spec_bundle_configmap_name(jsbundle_name: Seq<char>) -> Seq<char> {
    spec_bounded_name(jsbundle_name + "-config"@)
}

pub fn bundle_configmap_name(jsbundle_name: &str) -> (r: String)
    ensures
        r@ == spec_bundle_configmap_name(jsbundle_name@),
{
    let full = concat_str(jsbundle_name, "-config");
    bounded_name(full.as_str())
}

/// The owner references of the ConfigMap the runner writes: the integration's controller
/// reference, when the integration has a name and a uid.
pub open spec fn spec_owner_refs_for(fi: FrontendIntegrationView) -> Option<Seq<OwnerReferenceView>> {
    match spec_fi_controller_owner_ref(fi.metadata) {
        Some(o) => Some(seq![o]),
        None => None,
    }
}

pub fn owner_refs_for(fi: &FrontendIntegration) -> (r: Option<Vec<OwnerReference>>)
    ensures
        r.deep_view() == spec_owner_refs_for(fi.deep_view()),
{
    match fi.controller_owner_ref() {
        Some(o) => {
            let v = vec![o];
            assert(v.deep_view() =~= seq![o.deep_view()]);
            Some(v)
        },
        None => None,
    }
}

/// The annotations that trace a bundle to its build: the Job, the manifest hash and the
/// manifest itself.
pub open spec fn spec_manifest_annotations(job_name: Seq<char>, manifest_content: Seq<char>, manifest_hash: Seq<
    char,
>) -> Seq<(Seq<char>, Seq<char>)> {
    seq![
        (ANNO_BUILD_JOB@, job_name),
        (ANNO_MANIFEST_HASH@, manifest_hash),
        (ANNO_MANIFEST_CONTENT@, manifest_content),
    ]
}

pub fn manifest_annotations(job_name: &str, manifest_content: &str, manifest_hash: &str) -> (m: StringMap)
    ensures
        m.deep_view() == spec_manifest_annotations(job_name@, manifest_content@, manifest_hash@),
{
    let m = vec![
        (String::from_str(ANNO_BUILD_JOB), String::from_str(job_name)),
        (String::from_str(ANNO_MANIFEST_HASH), String::from_str(manifest_hash)),
        (String::from_str(ANNO_MANIFEST_CONTENT), String::from_str(manifest_content)),
    ];
    assert(m.deep_view() =~= spec_manifest_annotations(job_name@, manifest_content@, manifest_hash@));
    m
}

// ---------------------------------------------------------------- published objects
/// Metadata with a name and nothing else set.
pub open spec fn named_meta(name: Seq<char>) -> ObjectMetaView {
    ObjectMetaView {
        name: Some(name),
        generate_name: None,
        namespace: None,
        uid: None,
        generation: None,
        labels: None,
        annotations: None,
        owner_references: None,
        creation_timestamp: None,
        deletion_timestamp: None,
    }
}

/// The labels of the ConfigMap holding a bundle.
pub open spec fn spec_configmap_labels(cfg: RunnerConfigView, manifest_hash: Seq<char>) -> Seq<
    (Seq<char>, Seq<char>),
> {
    seq![
        (LABEL_MANAGED_BY@, MANAGED_BY_VALUE@),
        (LABEL_FI_NAME@, cfg.fi_name),
        (LABEL_SPEC_HASH@, spec_hash_label_value(cfg.spec_hash)),
        (LABEL_MANIFEST_HASH@, spec_hash_label_value(manifest_hash)),
    ]
}

/// The ConfigMap that holds a bundle: in the configured namespace, owned by the integration,
/// labelled with the integration, spec hash and manifest hash, annotated with the Job and the
/// manifest hash, and holding the content under the bundle key.
pub open spec fn spec_bundle_configmap(
    cfg: RunnerConfigView,
    fi: FrontendIntegrationView,
    configmap_name: Seq<char>,
    bundle_key: Seq<char>,
    bundle_content: Seq<char>,
    manifest_hash: Seq<char>,
    job_name: Seq<char>,
) -> ConfigMapView {
    ConfigMapView {
        metadata: ObjectMetaView {
            namespace: Some(cfg.jsbundle_configmap_namespace),
            owner_references: spec_owner_refs_for(fi),
            labels: Some(spec_configmap_labels(cfg, manifest_hash)),
            annotations: Some(seq![(ANNO_BUILD_JOB@, job_name), (ANNO_MANIFEST_HASH@, manifest_hash)]),
            ..named_meta(configmap_name)
        },
        data: Some(seq![(bundle_key, bundle_content)]),
    }
}

pub fn bundle_configmap(
    cfg: &RunnerConfig,
    fi: &FrontendIntegration,
    configmap_name: &str,
    bundle_key: &str,
    bundle_content: &str,
    manifest_hash: &str,
    job_name: &str,
) -> (cm: ConfigMap)
    ensures
        cm.deep_view() == spec_bundle_configmap(
            cfg.deep_view(),
            fi.deep_view(),
            configmap_name@,
            bundle_key@,
            bundle_content@,
            manifest_hash@,
            job_name@,
        ),
{
    let labels = vec![
        (String::from_str(LABEL_MANAGED_BY), String::from_str(MANAGED_BY_VALUE)),
        (String::from_str(LABEL_FI_NAME), cfg.fi_name.clone()),
        (String::from_str(LABEL_SPEC_HASH), hash_label_value(cfg.spec_hash.as_str())),
        (String::from_str(LABEL_MANIFEST_HASH), hash_label_value(manifest_hash)),
    ];
    assert(labels.deep_view() =~= spec_configmap_labels(cfg.deep_view(), manifest_hash@));
    let annotations = vec![
        (String::from_str(ANNO_BUILD_JOB), String::from_str(job_name)),
        (String::from_str(ANNO_MANIFEST_HASH), String::from_str(manifest_hash)),
    ];
    assert(annotations.deep_view() =~= seq![(ANNO_BUILD_JOB@, job_name@), (ANNO_MANIFEST_HASH@, manifest_hash@)]);
    let data = vec![(String::from_str(bundle_key), String::from_str(bundle_content))];
    assert(data.deep_view() =~= seq![(bundle_key@, bundle_content@)]);
    ConfigMap {
        metadata: ObjectMeta {
            name: Some(String::from_str(configmap_name)),
            generate_name: None,
            namespace: Some(cfg.jsbundle_configmap_namespace.clone()),
            uid: None,
            generation: None,
            labels: Some(labels),
            annotations: Some(annotations),
            owner_references: owner_refs_for(fi),
            creation_timestamp: None,
            deletion_timestamp: None,
        },
        data: Some(data),
    }
}

/// The labels of a published bundle: those of its ConfigMap plus the integration's
/// `enabled` state.
pub open spec fn spec_jsbundle_labels(cfg: RunnerConfigView, fi: FrontendIntegrationView, manifest_hash: Seq<char>) -> Seq<
    (Seq<char>, Seq<char>),
> {
    seq![
        (LABEL_MANAGED_BY@, MANAGED_BY_VALUE@),
        (LABEL_FI_NAME@, cfg.fi_name),
        (LABEL_ENABLED@, spec_enabled_label_value(spec_enabled(fi.spec))),
        (LABEL_SPEC_HASH@, spec_hash_label_value(cfg.spec_hash)),
        (LABEL_MANIFEST_HASH@, spec_hash_label_value(manifest_hash)),
    ]
}

/// The published bundle: named as configured, labelled, annotated with its build, and reading
/// its script from the bundle key of the ConfigMap. A bundle is a cluster-scoped object of
/// KubeSphere's own and gets no owner reference to the integration.
pub open spec fn spec_desired_jsbundle(
    cfg: RunnerConfigView,
    fi: FrontendIntegrationView,
    configmap_name: Seq<char>,
    bundle_key: Seq<char>,
    manifest_content: Seq<char>,
    manifest_hash: Seq<char>,
    job_name: Seq<char>,
) -> JSBundleView {
    JSBundleView {
        metadata: ObjectMetaView {
            labels: Some(spec_jsbundle_labels(cfg, fi, manifest_hash)),
            annotations: Some(spec_manifest_annotations(job_name, manifest_content, manifest_hash)),
            ..named_meta(cfg.jsbundle_name)
        },
        spec: JsBundleSpecView {
            raw: None,
            raw_from: Some(
                JsBundleRawFromSpecView {
                    config_map_key_ref: Some(
                        JsBundleNamespacedKeyRefView {
                            key: bundle_key,
                            name: configmap_name,
                            namespace: cfg.jsbundle_configmap_namespace,
                            optional: None,
                        },
                    ),
                    secret_key_ref: None,
                    url: None,
                },
            ),
        },
        status: None,
    }
}

pub fn desired_jsbundle(
    cfg: &RunnerConfig,
    fi: &FrontendIntegration,
    configmap_name: &str,
    bundle_key: &str,
    manifest_content: &str,
    manifest_hash: &str,
    job_name: &str,
) -> (b: JSBundle)
    ensures
        b.deep_view() == spec_desired_jsbundle(
            cfg.deep_view(),
            fi.deep_view(),
            configmap_name@,
            bundle_key@,
            manifest_content@,
            manifest_hash@,
            job_name@,
        ),
{
    let labels = vec![
        (String::from_str(LABEL_MANAGED_BY), String::from_str(MANAGED_BY_VALUE)),
        (String::from_str(LABEL_FI_NAME), cfg.fi_name.clone()),
        (String::from_str(LABEL_ENABLED), String::from_str(enabled_label_value(fi.spec.enabled()))),
        (String::from_str(LABEL_SPEC_HASH), hash_label_value(cfg.spec_hash.as_str())),
        (String::from_str(LABEL_MANIFEST_HASH), hash_label_value(manifest_hash)),
    ];
    assert(labels.deep_view() =~= spec_jsbundle_labels(cfg.deep_view(), fi.deep_view(), manifest_hash@));
    JSBundle {
        metadata: ObjectMeta {
            name: Some(cfg.jsbundle_name.clone()),
            generate_name: None,
            namespace: None,
            uid: None,
            generation: None,
            labels: Some(labels),
            annotations: Some(manifest_annotations(job_name, manifest_content, manifest_hash)),
            owner_references: None,
            creation_timestamp: None,
            deletion_timestamp: None,
        },
        spec: JsBundleSpec {
            raw: None,
            raw_from: Some(
                JsBundleRawFromSpec {
                    config_map_key_ref: Some(
                        JsBundleNamespacedKeyRef {
                            key: String::from_str(bundle_key),
                            name: String::from_str(configmap_name),
                            namespace: cfg.jsbundle_configmap_namespace.clone(),
                            optional: None,
                        },
                    ),
                    secret_key_ref: None,
                    url: None,
                },
            ),
        },
        status: None,
    }
}

/// The status of a freshly published bundle: `Available`, with its link.
pub open spec fn spec_published_jsbundle_status(jsbundle_name: Seq<char>, bundle_key: Seq<char>) -> JsBundleStatusView {
    JsBundleStatusView {
        state: Some("Available"@),
        link: Some(spec_bundle_link(jsbundle_name, bundle_key)),
        conditions: Seq::empty(),
    }
}

pub fn published_jsbundle_status(jsbundle_name: &str, bundle_key: &str) -> (st: JsBundleStatus)
    ensures
        st.deep_view() == spec_published_jsbundle_status(jsbundle_name@, bundle_key@),
{
    let st = JsBundleStatus {
        state: Some(String::from_str("Available")),
        link: Some(bundle_link(jsbundle_name, bundle_key)),
        conditions: Vec::new(),
    };
    assert(st.deep_view().conditions =~= Seq::empty());
    st
}

/// A bundle status as serialized: `state` and `link` when present, `conditions` when there
/// is one.
pub open spec fn spec_jsbundle_status_json(st: JsBundleStatusView) -> JsonView {
    JsonView::Object(
        opt_str_entry("state"@, st.state) + opt_str_entry("link"@, st.link) + if st.conditions.len() == 0 {
            Seq::empty()
        } else {
            seq![("conditions"@, JsonView::Array(st.conditions))]
        },
    )
}

/// The merge patch `{"status": ...}` that writes a bundle status.
pub open spec fn spec_jsbundle_status_patch(st: JsBundleStatusView) -> JsonView {
    JsonView::Object(seq![("status"@, spec_jsbundle_status_json(st))])
}

pub fn jsbundle_status_patch(status: &JsBundleStatus) -> (j: JsonValue)
    ensures
        j@ == spec_jsbundle_status_patch(status.deep_view()),
{
    let ghost sv = status.deep_view();
    let mut out = new_object();
    push_opt_str(&mut out, "state", &status.state);
    push_opt_str(&mut out, "link", &status.link);
    if status.conditions.len() > 0 {
        let mut items: Vec<JsonValue> = Vec::new();
        let mut i: usize = 0;
        while i < status.conditions.len()
            invariant
                0 <= i <= status.conditions@.len(),
                items@.len() == i,
                forall|k: int| 0 <= k < i ==> #[trigger] json_view(items@[k]) == json_view(status.conditions@[k]),
            decreases status.conditions@.len() - i,
        {
            items.push(clone_json(&status.conditions[i]));
            i += 1;
        }
        proof {
            lemma_array_view(items);
            assert(items_view(items@) =~= sv.conditions);
        }
        push_entry(&mut out, "conditions", JsonValue::Array(items));
    }
    assert(entries_view(out@) =~= opt_str_entry("state"@, sv.state) + opt_str_entry("link"@, sv.link) + if sv.conditions.len()
        == 0 {
        Seq::<(Seq<char>, JsonView)>::empty()
    } else {
        seq![("conditions"@, JsonView::Array(sv.conditions))]
    });
    let inner = finish_object(out);
    let mut top = new_object();
    push_entry(&mut top, "status", inner);
    assert(entries_view(top@) =~= seq![("status"@, inner@)]);
    finish_object(top)
}

/// The merge patch with which a failed runner writes its error into the integration's
/// status: `{"status": {"message": error, "last_error": error}}`.
pub open spec fn spec_runner_failure_patch(error: Seq<char>) -> JsonView {
    JsonView::Object(
        seq![
            (
                "status"@,
                JsonView::Object(seq![("message"@, JsonView::Str(error)), ("last_error"@, JsonView::Str(error))]),
            ),
        ],
    )
}

pub fn runner_failure_patch(error: &str) -> (j: JsonValue)
    ensures
        j@ == spec_runner_failure_patch(error@),
{
    let mut status = new_object();
    push_entry(&mut status, "message", JsonValue::Str(String::from_str(error)));
    push_entry(&mut status, "last_error", JsonValue::Str(String::from_str(error)));
    assert(entries_view(status@) =~= seq![("message"@, JsonView::Str(error@)), ("last_error"@, JsonView::Str(error@))]);
    let inner = finish_object(status);
    let mut top = new_object();
    push_entry(&mut top, "status", inner);
    assert(entries_view(top@) =~= seq![("status"@, inner@)]);
    finish_object(top)
}

// ---------------------------------------------------------------- stale check
/// What the runner does after a poll of the integration, once its build is done.
#[derive(Clone, Copy, Debug, PartialEq, Eq, Structural)]
pub enum StaleCheckStep {
    /// The status names the Job's hash: publish the build.
    Publish,
    /// The status names another hash: the build is stale, stop without publishing.
    Abandon,
    /// The status names no hash yet: poll again.
    Retry,
    /// The status named no hash within the grace period.
    TimedOut,
}

pub open spec fn spec_stale_check_step(fi: FrontendIntegrationView, spec_hash: Seq<char>, before_deadline: bool) -> StaleCheckStep {
    match spec_observed_hash(fi.status) {
        Some(h) => if h == spec_hash {
            StaleCheckStep::Publish
        } else {
            StaleCheckStep::Abandon
        },
        None => if before_deadline {
            StaleCheckStep::Retry
        } else {
            StaleCheckStep::TimedOut
        },
    }
}

pub fn stale_check_step(fi: &FrontendIntegration, spec_hash: &str, before_deadline: bool) -> (s: StaleCheckStep)
    ensures
        s == spec_stale_check_step(fi.deep_view(), spec_hash@, before_deadline),
{
    let observed: Option<&String> = match &fi.status {
        Some(st) => match &st.observed_spec_hash {
            Some(h) => Some(h),
            None => match &st.observed_manifest_hash {
                Some(h) => Some(h),
                None => None,
            },
        },
        None => None,
    };
    match observed {
        Some(h) => if *h == String::from_str(spec_hash) {
            StaleCheckStep::Publish
        } else {
            StaleCheckStep::Abandon
        },
        None => if before_deadline {
            StaleCheckStep::Retry
        } else {
            StaleCheckStep::TimedOut
        },
    }
}

} // verus!
