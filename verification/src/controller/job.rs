//! Build Jobs: what phase a Job is in, why it failed, and the Job that the controller creates.
use crate::api::{API_GROUP, API_VERSION};
use crate::decimal::{i64_to_decimal, spec_decimal, spec_int_decimal, u64_to_decimal};
use crate::labels::{
    hash_label_value, map_insert, spec_hash_label_value, string_map_insert, ANNO_OBSERVED_GENERATION,
    BUILD_KIND_VALUE, LABEL_BUILD_KIND, LABEL_FI_NAME, LABEL_MANAGED_BY, LABEL_SPEC_HASH,
    MANAGED_BY_VALUE,
};
use crate::resource::{
    name_any, spec_empty_meta, spec_fi_controller_owner_ref, spec_name_any, Container, ContainerView,
    EnvVar, EnvVarView, FrontendIntegration, FrontendIntegrationView, Job, JobConditionView, JobSpec,
    JobSpecView, JobStatus, JobStatusView, JobView, ObjectMeta, ObjectMetaView, PodSpec, PodSpecView,
    PodTemplateSpec, PodTemplateSpecView, StringMap,
};
use vstd::prelude::*;

verus! {

/// Settings of the controller process.
pub struct ControllerConfig {
    pub work_namespace: String,
    pub runner_image: String,
    pub runner_service_account: Option<String>,
    pub build_service_base_url: String,
    pub jsbundle_configmap_namespace: String,
    pub jsbundle_config_key: String,
    pub build_service_timeout_seconds: u64,
    pub stale_check_grace_seconds: u64,
    pub reconcile_requeue_seconds: u64,
    pub job_active_deadline_seconds: i64,
    pub job_ttl_seconds_after_finished: Option<i32>,
}

pub struct ControllerConfigView {
    pub work_namespace: Seq<char>,
    pub runner_image: Seq<char>,
    pub runner_service_account: Option<Seq<char>>,
    pub build_service_base_url: Seq<char>,
    pub jsbundle_configmap_namespace: Seq<char>,
    pub jsbundle_config_key: Seq<char>,
    pub build_service_timeout_seconds: u64,
    pub stale_check_grace_seconds: u64,
    pub reconcile_requeue_seconds: u64,
    pub job_active_deadline_seconds: i64,
    pub job_ttl_seconds_after_finished: Option<i32>,
}

impl DeepView for ControllerConfig {
    type V = ControllerConfigView;

    open spec fn deep_view(&self) -> ControllerConfigView {
        ControllerConfigView {
            work_namespace: self.work_namespace@,
            runner_image: self.runner_image@,
            runner_service_account: self.runner_service_account.deep_view(),
            build_service_base_url: self.build_service_base_url@,
            jsbundle_configmap_namespace: self.jsbundle_configmap_namespace@,
            jsbundle_config_key: self.jsbundle_config_key@,
            build_service_timeout_seconds: self.build_service_timeout_seconds,
            stale_check_grace_seconds: self.stale_check_grace_seconds,
            reconcile_requeue_seconds: self.reconcile_requeue_seconds,
            job_active_deadline_seconds: self.job_active_deadline_seconds,
            job_ttl_seconds_after_finished: self.job_ttl_seconds_after_finished,
        }
    }
}

/// What the controller makes of a Job's status.
#[derive(Clone, Copy, Debug, PartialEq, Eq, Structural)]
pub enum ObservedJobPhase {
    Pending,
    Running,
    Succeeded,
    Failed,
}

/// The phase given by the first condition with status `True` whose type is `Failed` or
/// `Complete`, if any.
pub open spec fn spec_condition_phase(conds: Seq<JobConditionView>) -> Option<ObservedJobPhase>
    decreases conds.len(),
{
    if conds.len() == 0 {
        None
    } else if conds[0].status == "True"@ && conds[0].type_ == "Failed"@ {
        Some(ObservedJobPhase::Failed)
    } else if conds[0].status == "True"@ && conds[0].type_ == "Complete"@ {
        Some(ObservedJobPhase::Succeeded)
    } else {
        spec_condition_phase(conds.drop_first())
    }
}

/// A count that is absent counts as zero.
pub open spec fn count(c: Option<i32>) -> int {
    match c {
        Some(n) => n as int,
        None => 0,
    }
}

/// The phase of a Job: no status is pending; failed pods, then succeeded pods, then active
/// pods decide; else the first decisive condition; else pending.
pub open spec fn spec_observed_job_phase(status: Option<JobStatusView>) -> ObservedJobPhase {
    match status {
        None => ObservedJobPhase::Pending,
        Some(st) => if count(st.failed) > 0 {
            ObservedJobPhase::Failed
        } else if count(st.succeeded) > 0 {
            ObservedJobPhase::Succeeded
        } else if count(st.active) > 0 {
            ObservedJobPhase::Running
        } else {
            match st.conditions {
                Some(conds) => match spec_condition_phase(conds) {
                    Some(p) => p,
                    None => ObservedJobPhase::Pending,
                },
                None => ObservedJobPhase::Pending,
            }
        },
    }
}

fn opt_count(c: Option<i32>) -> (n: i32)
    ensures
        n as int == count(c),
{
    match c {
        Some(n) => n,
        None => 0,
    }
}

#[verifier::loop_isolation(false)]
pub fn observed_job_phase(status: Option<&JobStatus>) -> (p: ObservedJobPhase)
    ensures
        p == spec_observed_job_phase(
            match status {
                Some(s) => Some(s.deep_view()),
                None => None,
            },
        ),
{
    let status = match status {
        Some(s) => s,
        None => {
            return ObservedJobPhase::Pending;
        },
    };
    if opt_count(status.failed) > 0 {
        return ObservedJobPhase::Failed;
    }
    if opt_count(status.succeeded) > 0 {
        return ObservedJobPhase::Succeeded;
    }
    if opt_count(status.active) > 0 {
        return ObservedJobPhase::Running;
    }
    if let Some(conditions) = &status.conditions {
        let ghost cv = conditions.deep_view();
        let mut i: usize = 0;
        assert(cv.subrange(0, cv.len() as int) =~= cv);
        while i < conditions.len()
            invariant
                cv == conditions.deep_view(),
                0 <= i <= conditions@.len(),
                spec_condition_phase(cv) == spec_condition_phase(cv.subrange(i as int, cv.len() as int)),
            decreases conditions@.len() - i,
        {
            let cond = &conditions[i];
            let ghost rest = cv.subrange(i as int, cv.len() as int);
            assert(rest[0] == cond.deep_view());
            assert(rest.drop_first() =~= cv.subrange(i + 1, cv.len() as int));
            if cond.status == String::from_str("True") {
                if cond.type_ == String::from_str("Failed") {
                    return ObservedJobPhase::Failed;
                }
                if cond.type_ == String::from_str("Complete") {
                    return ObservedJobPhase::Succeeded;
                }
            }
            i += 1;
        }
        assert(cv.subrange(cv.len() as int, cv.len() as int).len() == 0);
    } else {
    }
    ObservedJobPhase::Pending
}

/// The first condition with status `True` and type `Failed`.
pub open spec fn spec_first_failed_condition(conds: Seq<JobConditionView>) -> Option<JobConditionView>
    decreases conds.len(),
{
    if conds.len() == 0 {
        None
    } else if conds[0].status == "True"@ && conds[0].type_ == "Failed"@ {
        Some(conds[0])
    } else {
        spec_first_failed_condition(conds.drop_first())
    }
}

/// The failure message of a Job: the message, else the reason, of its first true `Failed`
/// condition.
pub open spec fn spec_extract_job_message(job: JobView) -> Option<Seq<char>> {
    match job.status {
        None => None,
        Some(st) => match st.conditions {
            None => None,
            Some(conds) => match spec_first_failed_condition(conds) {
                None => None,
                Some(c) => match c.message {
                    Some(m) => Some(m),
                    None => c.reason,
                },
            },
        },
    }
}

#[verifier::loop_isolation(false)]
pub fn extract_job_message(job: &Job) -> (m: Option<String>)
    ensures
        m.deep_view() == spec_extract_job_message(job.deep_view()),
{
    let status = match &job.status {
        Some(s) => s,
        None => {
            return None;
        },
    };
    if let Some(conditions) = &status.conditions {
        let ghost cv = conditions.deep_view();
        let mut i: usize = 0;
        assert(cv.subrange(0, cv.len() as int) =~= cv);
        while i < conditions.len()
            invariant
                cv == conditions.deep_view(),
                0 <= i <= conditions@.len(),
                spec_first_failed_condition(cv) == spec_first_failed_condition(
                    cv.subrange(i as int, cv.len() as int),
                ),
            decreases conditions@.len() - i,
        {
            let cond = &conditions[i];
            let ghost rest = cv.subrange(i as int, cv.len() as int);
            assert(rest[0] == cond.deep_view());
            assert(rest.drop_first() =~= cv.subrange(i + 1, cv.len() as int));
            if cond.status == String::from_str("True") && cond.type_ == String::from_str("Failed") {
                return match &cond.message {
                    Some(msg) => Some(msg.clone()),
                    None => match &cond.reason {
                        Some(r) => Some(r.clone()),
                        None => None,
                    },
                };
            }
            i += 1;
        }
        assert(cv.subrange(cv.len() as int, cv.len() as int).len() == 0);
    }
    None
}

/// The labels that identify the objects built for an integration and a spec hash.
pub open spec fn spec_labels_for(fi_name: Seq<char>, spec_hash: Seq<char>) -> Seq<(Seq<char>, Seq<char>)> {
    seq![
        (LABEL_MANAGED_BY@, MANAGED_BY_VALUE@),
        (LABEL_FI_NAME@, fi_name),
        (LABEL_SPEC_HASH@, spec_hash_label_value(spec_hash)),
    ]
}

pub fn labels_for(fi_name: &str, spec_hash: &str) -> (m: StringMap)
    ensures
        m.deep_view() == spec_labels_for(fi_name@, spec_hash@),
{
    let m = vec![
        (String::from_str(LABEL_MANAGED_BY), String::from_str(MANAGED_BY_VALUE)),
        (String::from_str(LABEL_FI_NAME), String::from_str(fi_name)),
        (String::from_str(LABEL_SPEC_HASH), hash_label_value(spec_hash)),
    ];
    assert(m.deep_view() =~= spec_labels_for(fi_name@, spec_hash@));
    m
}

/// An environment variable with a value.
pub open spec fn env(name: Seq<char>, value: Seq<char>) -> EnvVarView {
    EnvVarView { name, value: Some(value) }
}

fn env_var(name: &str, value: String) -> (e: EnvVar)
    ensures
        e.deep_view() == env(name@, value@),
{
    EnvVar { name: String::from_str(name), value: Some(value) }
}

/// The environment of the runner container.
pub open spec fn spec_runner_env(
    fi_name: Seq<char>,
    spec_hash: Seq<char>,
    jsbundle_name: Seq<char>,
    config: ControllerConfigView,
) -> Seq<EnvVarView> {
    seq![
        env("FI_NAME"@, fi_name),
        env("SPEC_HASH"@, spec_hash),
        env("JSBUNDLE_NAME"@, jsbundle_name),
        env("BUILD_SERVICE_BASE_URL"@, config.build_service_base_url),
        env("JSBUNDLE_CONFIGMAP_NAMESPACE"@, config.jsbundle_configmap_namespace),
        env("JSBUNDLE_CONFIG_KEY"@, config.jsbundle_config_key),
        env("BUILD_SERVICE_TIMEOUT_SECONDS"@, spec_decimal(config.build_service_timeout_seconds as nat)),
        env("STALE_CHECK_GRACE_SECONDS"@, spec_decimal(config.stale_check_grace_seconds as nat)),
    ]
}

/// The build Job for an integration: labelled with the integration and spec hash, owned by
/// the integration, running the runner image once (no retries) with the build settings in
/// its environment.
pub open spec fn spec_make_build_job(
    fi: FrontendIntegrationView,
    config: ControllerConfigView,
    job_name: Seq<char>,
    jsbundle_name: Seq<char>,
    spec_hash: Seq<char>,
) -> JobView {
    let fi_name = spec_name_any(fi.metadata);
    let labels = map_insert(spec_labels_for(fi_name, spec_hash), LABEL_BUILD_KIND@, BUILD_KIND_VALUE@);
    let annotations = match fi.metadata.generation {
        Some(g) => seq![(ANNO_OBSERVED_GENERATION@, spec_int_decimal(g as int))],
        None => seq![],
    };
    JobView {
        metadata: ObjectMetaView {
            name: Some(job_name),
            namespace: Some(config.work_namespace),
            labels: Some(labels),
            annotations: Some(annotations),
            owner_references: match spec_fi_controller_owner_ref(fi.metadata) {
                Some(o) => Some(seq![o]),
                None => None,
            },
            ..spec_empty_meta()
        },
        spec: Some(
            JobSpecView {
                active_deadline_seconds: Some(config.job_active_deadline_seconds),
                ttl_seconds_after_finished: config.job_ttl_seconds_after_finished,
                backoff_limit: Some(0),
                template: PodTemplateSpecView {
                    metadata: Some(
                        ObjectMetaView {
                            labels: Some(seq![("app.kubernetes.io/name"@, "frontend-forge-runner"@)]),
                            ..spec_empty_meta()
                        },
                    ),
                    spec: Some(
                        PodSpecView {
                            restart_policy: Some("Never"@),
                            service_account_name: config.runner_service_account,
                            containers: seq![
                                ContainerView {
                                    name: "runner"@,
                                    image: Some(config.runner_image),
                                    env: Some(spec_runner_env(fi_name, spec_hash, jsbundle_name, config)),
                                },
                            ],
                        },
                    ),
                },
            },
        ),
        status: None,
    }
}

pub fn make_build_job(
    fi: &FrontendIntegration,
    config: &ControllerConfig,
    job_name: &str,
    jsbundle_name: &str,
    spec_hash: &str,
) -> (job: Job)
    ensures
        job.deep_view() == spec_make_build_job(
            fi.deep_view(),
            config.deep_view(),
            job_name@,
            jsbundle_name@,
            spec_hash@,
        ),
{
    let ghost fv = fi.deep_view();
    let ghost cv = config.deep_view();
    let fi_name = name_any(&fi.metadata);
    let mut labels = labels_for(fi_name.as_str(), spec_hash);
    string_map_insert(&mut labels, String::from_str(LABEL_BUILD_KIND), String::from_str(BUILD_KIND_VALUE));
    let mut annotations: StringMap = Vec::new();
    if let Some(generation) = fi.metadata.generation {
        annotations.push((String::from_str(ANNO_OBSERVED_GENERATION), i64_to_decimal(generation)));
    }
    assert(annotations.deep_view() =~= match fv.metadata.generation {
        Some(g) => seq![(ANNO_OBSERVED_GENERATION@, spec_int_decimal(g as int))],
        None => Seq::<(Seq<char>, Seq<char>)>::empty(),
    });
    let env = vec![
        env_var("FI_NAME", fi_name.clone()),
        env_var("SPEC_HASH", String::from_str(spec_hash)),
        env_var("JSBUNDLE_NAME", String::from_str(jsbundle_name)),
        env_var("BUILD_SERVICE_BASE_URL", config.build_service_base_url.clone()),
        env_var("JSBUNDLE_CONFIGMAP_NAMESPACE", config.jsbundle_configmap_namespace.clone()),
        env_var("JSBUNDLE_CONFIG_KEY", config.jsbundle_config_key.clone()),
        env_var("BUILD_SERVICE_TIMEOUT_SECONDS", u64_to_decimal(config.build_service_timeout_seconds)),
        env_var("STALE_CHECK_GRACE_SECONDS", u64_to_decimal(config.stale_check_grace_seconds)),
    ];
    assert(env.deep_view() =~= spec_runner_env(fi_name@, spec_hash@, jsbundle_name@, cv));
    let container = Container {
        name: String::from_str("runner"),
        image: Some(config.runner_image.clone()),
        env: Some(env),
    };
    let containers = vec![container];
    let ghost conv = containers.deep_view();
    let pod_labels = vec![(String::from_str("app.kubernetes.io/name"), String::from_str("frontend-forge-runner"))];
    assert(pod_labels.deep_view() =~= seq![("app.kubernetes.io/name"@, "frontend-forge-runner"@)]);
    let mut pod_meta = ObjectMeta::empty();
    pod_meta.labels = Some(pod_labels);
    let owner_references = match fi.controller_owner_ref() {
        Some(o) => {
            let v = vec![o];
            assert(v.deep_view() =~= seq![o.deep_view()]);
            Some(v)
        },
        None => None,
    };
    let mut metadata = ObjectMeta::empty();
    metadata.name = Some(String::from_str(job_name));
    metadata.namespace = Some(config.work_namespace.clone());
    metadata.labels = Some(labels);
    metadata.annotations = Some(annotations);
    metadata.owner_references = owner_references;
    let job = Job {
        metadata,
        spec: Some(
            JobSpec {
                active_deadline_seconds: Some(config.job_active_deadline_seconds),
                ttl_seconds_after_finished: config.job_ttl_seconds_after_finished,
                backoff_limit: Some(0),
                template: PodTemplateSpec {
                    metadata: Some(pod_meta),
                    spec: Some(
                        PodSpec {
                            restart_policy: Some(String::from_str("Never")),
                            service_account_name: match &config.runner_service_account {
                                Some(s) => Some(s.clone()),
                                None => None,
                            },
                            containers,
                        },
                    ),
                },
            },
        ),
        status: None,
    };
    assert(conv =~= seq![
        ContainerView {
            name: "runner"@,
            image: Some(cv.runner_image),
            env: Some(spec_runner_env(fi_name@, spec_hash@, jsbundle_name@, cv)),
        },
    ]);
    job
}

} // verus!
