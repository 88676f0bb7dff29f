//! The settings of the controller and the runner, read from their environment: which
//! variables are required, what the others default to, and how numbers are read.
use crate::controller::job::{ControllerConfig, ControllerConfigView};
use crate::decimal::{parse_i32, parse_i64, parse_u64, spec_parse_i32, spec_parse_i64, spec_parse_u64};
use crate::resource::{map_get, string_map_get, StringMap};
use crate::runner::{RunnerConfig, RunnerConfigView};
use crate::text::concat_str;
use vstd::prelude::*;

verus! {

/// An environment: variable names and values.
pub open spec fn env_get(env: Seq<(Seq<char>, Seq<char>)>, key: Seq<char>) -> Option<Seq<char>> {
    map_get(env, key)
}

/// A variable's value, or `default` when it is not set.
pub open spec fn text_or(v: Option<Seq<char>>, default: Seq<char>) -> Seq<char> {
    match v {
        Some(t) => t,
        None => default,
    }
}

/// A variable read as a `u64`, or `default` when it is not set or not a number.
pub open spec fn u64_or(v: Option<Seq<char>>, default: u64) -> u64 {
    match v {
        Some(t) => match spec_parse_u64(t) {
            Some(n) => n,
            None => default,
        },
        None => default,
    }
}

pub open spec fn i64_or(v: Option<Seq<char>>, default: i64) -> i64 {
    match v {
        Some(t) => match spec_parse_i64(t) {
            Some(n) => n,
            None => default,
        },
        None => default,
    }
}

pub open spec fn i32_or(v: Option<Seq<char>>, default: i32) -> i32 {
    match v {
        Some(t) => match spec_parse_i32(t) {
            Some(n) => n,
            None => default,
        },
        None => default,
    }
}

fn lookup(env: &StringMap, key: &str) -> (r: Option<String>)
    ensures
        r.deep_view() == env_get(env.deep_view(), key@),
{
    match string_map_get(env, key) {
        Some(v) => Some(v.clone()),
        None => None,
    }
}

fn text_or_exec(env: &StringMap, key: &str, default: &str) -> (r: String)
    ensures
        r@ == text_or(env_get(env.deep_view(), key@), default@),
{
    match string_map_get(env, key) {
        Some(v) => v.clone(),
        None => String::from_str(default),
    }
}

fn u64_or_exec(env: &StringMap, key: &str, default: u64) -> (r: u64)
    ensures
        r == u64_or(env_get(env.deep_view(), key@), default),
{
    match string_map_get(env, key) {
        Some(v) => match parse_u64(v.as_str()) {
            Some(n) => n,
            None => default,
        },
        None => default,
    }
}

/// Default time to live of a finished build Job: one hour.
pub const DEFAULT_JOB_TTL_SECONDS_AFTER_FINISHED: i32 = 3600;

/// The controller's settings: every variable is optional, and a number that cannot be read
/// counts as not set.
pub open spec fn spec_controller_config(env: Seq<(Seq<char>, Seq<char>)>) -> ControllerConfigView {
    ControllerConfigView {
        work_namespace: text_or(env_get(env, "WORK_NAMESPACE"@), "extension-frontend-forge"@),
        runner_image: text_or(env_get(env, "RUNNER_IMAGE"@), "spike2044/frontend-forge-runner:latest"@),
        runner_service_account: env_get(env, "RUNNER_SERVICE_ACCOUNT"@),
        build_service_base_url: text_or(
            env_get(env, "BUILD_SERVICE_BASE_URL"@),
            "http://frontend-forge.extension-frontend-forge.svc"@,
        ),
        jsbundle_configmap_namespace: text_or(
            env_get(env, "JSBUNDLE_CONFIGMAP_NAMESPACE"@),
            "extension-frontend-forge"@,
        ),
        jsbundle_config_key: text_or(env_get(env, "JSBUNDLE_CONFIG_KEY"@), "index.js"@),
        build_service_timeout_seconds: u64_or(env_get(env, "BUILD_SERVICE_TIMEOUT_SECONDS"@), 600),
        stale_check_grace_seconds: u64_or(env_get(env, "STALE_CHECK_GRACE_SECONDS"@), 30),
        reconcile_requeue_seconds: u64_or(env_get(env, "RECONCILE_REQUEUE_SECONDS"@), 5),
        job_active_deadline_seconds: i64_or(env_get(env, "JOB_ACTIVE_DEADLINE_SECONDS"@), 300),
        job_ttl_seconds_after_finished: Some(
            i32_or(env_get(env, "JOB_TTL_SECONDS_AFTER_FINISHED"@), DEFAULT_JOB_TTL_SECONDS_AFTER_FINISHED),
        ),
    }
}

impl ControllerConfig {
    /// The controller's settings from its environment.
    pub fn from_env(env: &StringMap) -> (c: ControllerConfig)
        ensures
            c.deep_view() == spec_controller_config(env.deep_view()),
    {
        let active_deadline = match string_map_get(env, "JOB_ACTIVE_DEADLINE_SECONDS") {
            Some(v) => match parse_i64(v.as_str()) {
                Some(n) => n,
                None => 300,
            },
            None => 300,
        };
        let ttl = match string_map_get(env, "JOB_TTL_SECONDS_AFTER_FINISHED") {
            Some(v) => match parse_i32(v.as_str()) {
                Some(n) => n,
                None => DEFAULT_JOB_TTL_SECONDS_AFTER_FINISHED,
            },
            None => DEFAULT_JOB_TTL_SECONDS_AFTER_FINISHED,
        };
        ControllerConfig {
            work_namespace: text_or_exec(env, "WORK_NAMESPACE", "extension-frontend-forge"),
            runner_image: text_or_exec(env, "RUNNER_IMAGE", "spike2044/frontend-forge-runner:latest"),
            runner_service_account: lookup(env, "RUNNER_SERVICE_ACCOUNT"),
            build_service_base_url: text_or_exec(
                env,
                "BUILD_SERVICE_BASE_URL",
                "http://frontend-forge.extension-frontend-forge.svc",
            ),
            jsbundle_configmap_namespace: text_or_exec(env, "JSBUNDLE_CONFIGMAP_NAMESPACE", "extension-frontend-forge"),
            jsbundle_config_key: text_or_exec(env, "JSBUNDLE_CONFIG_KEY", "index.js"),
            build_service_timeout_seconds: u64_or_exec(env, "BUILD_SERVICE_TIMEOUT_SECONDS", 600),
            stale_check_grace_seconds: u64_or_exec(env, "STALE_CHECK_GRACE_SECONDS", 30),
            reconcile_requeue_seconds: u64_or_exec(env, "RECONCILE_REQUEUE_SECONDS", 5),
            job_active_deadline_seconds: active_deadline,
            job_ttl_seconds_after_finished: Some(ttl),
        }
    }
}

// ---------------------------------------------------------------- runner
/// Why the runner's environment cannot be used.
pub enum ConfigError {
    /// A required variable is not set.
    MissingEnv { key: String },
    /// A variable that must be a number is not one.
    InvalidEnv { key: String },
}

pub enum ConfigErrorView {
    MissingEnv { key: Seq<char> },
    InvalidEnv { key: Seq<char> },
}

impl DeepView for ConfigError {
    type V = ConfigErrorView;

    open spec fn deep_view(&self) -> ConfigErrorView {
        match self {
            ConfigError::MissingEnv { key } => ConfigErrorView::MissingEnv { key: key@ },
            ConfigError::InvalidEnv { key } => ConfigErrorView::InvalidEnv { key: key@ },
        }
    }
}

pub open spec fn spec_config_error_message(e: ConfigErrorView) -> Seq<char> {
    match e {
        ConfigErrorView::MissingEnv { key } => "missing env "@ + key,
        ConfigErrorView::InvalidEnv { key } => "invalid env "@ + key,
    }
}

impl ConfigError {
    /// The error's message.
    pub fn message(&self) -> (m: String)
        ensures
            m@ == spec_config_error_message(self.deep_view()),
    {
        match self {
            ConfigError::MissingEnv { key } => concat_str("missing env ", key.as_str()),
            ConfigError::InvalidEnv { key } => concat_str("invalid env ", key.as_str()),
        }
    }
}

/// A required variable.
pub open spec fn spec_required(env: Seq<(Seq<char>, Seq<char>)>, key: Seq<char>) -> Result<Seq<char>, ConfigErrorView> {
    match env_get(env, key) {
        Some(v) => Ok(v),
        None => Err(ConfigErrorView::MissingEnv { key }),
    }
}

/// A number variable: `default` when not set, an error when set but not a `u64`.
pub open spec fn spec_env_u64(env: Seq<(Seq<char>, Seq<char>)>, key: Seq<char>, default: u64) -> Result<
    u64,
    ConfigErrorView,
> {
    match env_get(env, key) {
        Some(t) => match spec_parse_u64(t) {
            Some(n) => Ok(n),
            None => Err(ConfigErrorView::InvalidEnv { key }),
        },
        None => Ok(default),
    }
}

/// The runner's settings. `FI_NAME`, the spec hash (`SPEC_HASH`, or the older
/// `MANIFEST_HASH`), `JSBUNDLE_NAME` and `BUILD_SERVICE_BASE_URL` are required; the first
/// missing or invalid variable, in that order and then the two timeouts, is reported.
pub open spec fn spec_runner_config(env: Seq<(Seq<char>, Seq<char>)>) -> Result<RunnerConfigView, ConfigErrorView> {
    match spec_required(env, "FI_NAME"@) {
        Err(e) => Err(e),
        Ok(fi_name) => match (match env_get(env, "SPEC_HASH"@) {
            Some(h) => Ok(h),
            None => spec_required(env, "MANIFEST_HASH"@),
        }) {
            Err(e) => Err(e),
            Ok(spec_hash) => match spec_required(env, "JSBUNDLE_NAME"@) {
                Err(e) => Err(e),
                Ok(jsbundle_name) => match spec_required(env, "BUILD_SERVICE_BASE_URL"@) {
                    Err(e) => Err(e),
                    Ok(build_service_base_url) => match spec_env_u64(env, "BUILD_SERVICE_TIMEOUT_SECONDS"@, 600) {
                        Err(e) => Err(e),
                        Ok(build_service_timeout_seconds) => match spec_env_u64(
                            env,
                            "STALE_CHECK_GRACE_SECONDS"@,
                            30,
                        ) {
                            Err(e) => Err(e),
                            Ok(stale_check_grace_seconds) => Ok(
                                RunnerConfigView {
                                    fi_name,
                                    spec_hash,
                                    jsbundle_name,
                                    jsbundle_configmap_namespace: text_or(
                                        env_get(env, "JSBUNDLE_CONFIGMAP_NAMESPACE"@),
                                        "extension-frontend-forge"@,
                                    ),
                                    jsbundle_config_key: text_or(env_get(env, "JSBUNDLE_CONFIG_KEY"@), "index.js"@),
                                    build_service_base_url,
                                    build_service_timeout_seconds,
                                    stale_check_grace_seconds,
                                },
                            ),
                        },
                    },
                },
            },
        },
    }
}

fn required(env: &StringMap, key: &str) -> (r: Result<String, ConfigError>)
    ensures
        match spec_required(env.deep_view(), key@) {
            Ok(v) => r matches Ok(x) && x@ == v,
            Err(e) => r matches Err(x) && x.deep_view() == e,
        },
{
    match string_map_get(env, key) {
        Some(v) => Ok(v.clone()),
        None => Err(ConfigError::MissingEnv { key: String::from_str(key) }),
    }
}

fn env_u64(env: &StringMap, key: &str, default: u64) -> (r: Result<u64, ConfigError>)
    ensures
        match spec_env_u64(env.deep_view(), key@, default) {
            Ok(v) => r matches Ok(x) && x == v,
            Err(e) => r matches Err(x) && x.deep_view() == e,
        },
{
    match string_map_get(env, key) {
        Some(v) => match parse_u64(v.as_str()) {
            Some(n) => Ok(n),
            None => Err(ConfigError::InvalidEnv { key: String::from_str(key) }),
        },
        None => Ok(default),
    }
}

impl RunnerConfig {
    /// The runner's settings from its environment.
    pub fn from_env(env: &StringMap) -> (r: Result<RunnerConfig, ConfigError>)
        ensures
            match spec_runner_config(env.deep_view()) {
                Ok(c) => r matches Ok(x) && x.deep_view() == c,
                Err(e) => r matches Err(x) && x.deep_view() == e,
            },
    {
        let fi_name = match required(env, "FI_NAME") {
            Ok(v) => v,
            Err(e) => return Err(e),
        };
        let spec_hash = match string_map_get(env, "SPEC_HASH") {
            Some(h) => h.clone(),
            None => match required(env, "MANIFEST_HASH") {
                Ok(v) => v,
                Err(e) => return Err(e),
            },
        };
        let jsbundle_name = match required(env, "JSBUNDLE_NAME") {
            Ok(v) => v,
            Err(e) => return Err(e),
        };
        let build_service_base_url = match required(env, "BUILD_SERVICE_BASE_URL") {
            Ok(v) => v,
            Err(e) => return Err(e),
        };
        let build_service_timeout_seconds = match env_u64(env, "BUILD_SERVICE_TIMEOUT_SECONDS", 600) {
            Ok(v) => v,
            Err(e) => return Err(e),
        };
        let stale_check_grace_seconds = match env_u64(env, "STALE_CHECK_GRACE_SECONDS", 30) {
            Ok(v) => v,
            Err(e) => return Err(e),
        };
        Ok(
            RunnerConfig {
                fi_name,
                spec_hash,
                jsbundle_name,
                jsbundle_configmap_namespace: text_or_exec(
                    env,
                    "JSBUNDLE_CONFIGMAP_NAMESPACE",
                    "extension-frontend-forge",
                ),
                jsbundle_config_key: text_or_exec(env, "JSBUNDLE_CONFIG_KEY", "index.js"),
                build_service_base_url,
                build_service_timeout_seconds,
                stale_check_grace_seconds,
            },
        )
    }
}

/// The name of the runner's Job: its pod's `HOSTNAME`, or `unknown-job`.
pub open spec fn spec_job_name_from_env(env: Seq<(Seq<char>, Seq<char>)>) -> Seq<char> {
    text_or(env_get(env, "HOSTNAME"@), "unknown-job"@)
}

pub fn job_name_from_env(env: &StringMap) -> (r: String)
    ensures
        r@ == spec_job_name_from_env(env.deep_view()),
{
    text_or_exec(env, "HOSTNAME", "unknown-job")
}

} // verus!
