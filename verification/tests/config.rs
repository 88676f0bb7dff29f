use frontend_forge::config::{job_name_from_env, ConfigError};
use frontend_forge::controller::job::ControllerConfig;
use frontend_forge::decimal::{parse_i32, parse_i64, parse_u64};
use frontend_forge::runner::RunnerConfig;

fn env(pairs: &[(&str, &str)]) -> Vec<(String, String)> {
    pairs.iter().map(|(k, v)| (k.to_string(), v.to_string())).collect()
}

#[test]
fn numbers_are_read_as_str_parse_reads_them() {
    for text in ["0", "42", "+7", "18446744073709551615", "", "+", "-1", " 1", "1x", "18446744073709551616"] {
        assert_eq!(parse_u64(text), text.parse::<u64>().ok(), "u64 {text:?}");
    }
    for text in ["0", "-0", "-9223372036854775808", "9223372036854775807", "9223372036854775808", "-9223372036854775809", "+5", "-", "--1"] {
        assert_eq!(parse_i64(text), text.parse::<i64>().ok(), "i64 {text:?}");
    }
    for text in ["-2147483648", "2147483647", "2147483648", "-2147483649", "3600", "1e3"] {
        assert_eq!(parse_i32(text), text.parse::<i32>().ok(), "i32 {text:?}");
    }
}

#[test]
fn controller_settings_default_when_unset_or_unreadable() {
    let c = ControllerConfig::from_env(&env(&[]));
    assert_eq!(c.work_namespace, "extension-frontend-forge");
    assert_eq!(c.runner_image, "spike2044/frontend-forge-runner:latest");
    assert!(c.runner_service_account.is_none());
    assert_eq!(c.build_service_base_url, "http://frontend-forge.extension-frontend-forge.svc");
    assert_eq!(c.jsbundle_config_key, "index.js");
    assert_eq!(c.build_service_timeout_seconds, 600);
    assert_eq!(c.stale_check_grace_seconds, 30);
    assert_eq!(c.reconcile_requeue_seconds, 5);
    assert_eq!(c.job_active_deadline_seconds, 300);
    assert_eq!(c.job_ttl_seconds_after_finished, Some(3600));

    let c = ControllerConfig::from_env(&env(&[
        ("WORK_NAMESPACE", "work"),
        ("RUNNER_SERVICE_ACCOUNT", "sa"),
        ("RECONCILE_REQUEUE_SECONDS", "soon"),
        ("JOB_ACTIVE_DEADLINE_SECONDS", "-1"),
        ("JOB_TTL_SECONDS_AFTER_FINISHED", "60"),
    ]));
    assert_eq!(c.work_namespace, "work");
    assert_eq!(c.runner_service_account.as_deref(), Some("sa"));
    assert_eq!(c.reconcile_requeue_seconds, 5);
    assert_eq!(c.job_active_deadline_seconds, -1);
    assert_eq!(c.job_ttl_seconds_after_finished, Some(60));
}

fn runner_env() -> Vec<(String, String)> {
    env(&[
        ("FI_NAME", "demo"),
        ("SPEC_HASH", "sha256:abc"),
        ("JSBUNDLE_NAME", "fi-demo"),
        ("BUILD_SERVICE_BASE_URL", "http://builder"),
    ])
}

#[test]
fn runner_settings_require_identity_and_service() {
    let cfg = RunnerConfig::from_env(&runner_env()).ok().unwrap();
    assert_eq!(cfg.fi_name, "demo");
    assert_eq!(cfg.spec_hash, "sha256:abc");
    assert_eq!(cfg.jsbundle_configmap_namespace, "extension-frontend-forge");
    assert_eq!(cfg.jsbundle_config_key, "index.js");
    assert_eq!(cfg.build_service_timeout_seconds, 600);
    assert_eq!(cfg.stale_check_grace_seconds, 30);

    let mut legacy = runner_env();
    legacy.retain(|(k, _)| k != "SPEC_HASH");
    legacy.push(("MANIFEST_HASH".to_string(), "sha256:old".to_string()));
    assert_eq!(RunnerConfig::from_env(&legacy).ok().unwrap().spec_hash, "sha256:old");

    let mut no_hash = runner_env();
    no_hash.retain(|(k, _)| k != "SPEC_HASH");
    match RunnerConfig::from_env(&no_hash) {
        Err(ConfigError::MissingEnv { key }) => assert_eq!(key, "MANIFEST_HASH"),
        _ => panic!("expected a missing variable"),
    }

    let mut no_name = runner_env();
    no_name.retain(|(k, _)| k != "FI_NAME");
    match RunnerConfig::from_env(&no_name) {
        Err(e) => assert_eq!(e.message(), "missing env FI_NAME"),
        Ok(_) => panic!("expected a missing variable"),
    }

    let mut bad = runner_env();
    bad.push(("STALE_CHECK_GRACE_SECONDS".to_string(), "-3".to_string()));
    match RunnerConfig::from_env(&bad) {
        Err(ConfigError::InvalidEnv { key }) => assert_eq!(key, "STALE_CHECK_GRACE_SECONDS"),
        _ => panic!("expected an invalid variable"),
    }
}

#[test]
fn job_name_comes_from_hostname() {
    assert_eq!(job_name_from_env(&env(&[("HOSTNAME", "fi-demo-abc-x1")])), "fi-demo-abc-x1");
    assert_eq!(job_name_from_env(&env(&[])), "unknown-job");
}
