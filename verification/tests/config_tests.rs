use commit_bridge::config::{
    AuthConfig, Config, ConfigViolation, DatabaseConfig, Duration, EngineConfig, GitConfig,
    GitHubApiConfig, LogLevel, ServerConfig, TelemetryConfig, dotenv_status_line,
};
use commit_bridge::domain::{AcceptHeader, ApiVersion, NonEmptyString};

fn create_test_config() -> Config {
    Config {
        server: ServerConfig {
            address: "127.0.0.1:0".to_string(),
            user_agent: NonEmptyString::new("test-agent".to_string()).unwrap(),
            in_request_timeout: Duration::from_secs(1),
            out_request_timeout: Duration::from_secs(1),
        },
        database: DatabaseConfig {
            url: "sqlite::memory:".to_string(),
            timeout: Duration::from_secs(1),
            polling_db_buffer_size: 1,
            polling_db_error_cooldown: Duration::from_secs(1),
            subscriptions_list_limit: 50,
            subscriptions_list_limit_cap: 100,
        },
        github_api: GitHubApiConfig {
            base_url: "http://localhost/".to_string(),
            version: ApiVersion::new("2026-03-10".to_string()).unwrap(),
            accept_header: AcceptHeader::new("application/vnd.github+json".to_string()).unwrap(),
        },
        engine: EngineConfig {
            polling_sleep: Duration::from_secs(1),
            trigger_queue_polling_interval: Duration::from_millis(100),
            trigger_retry_max_attempts: 3,
            trigger_retry_backoff_base: Duration::from_millis(100),
            stuck_task_threshold: Duration::from_secs(2 * 60),
        },
        auth: AuthConfig {
            clock_drift_buffer: Duration::from_secs(1),
            token_validity: Duration::from_secs(1),
            api_key: None,
            allow_unauthenticated: false,
            client_id: NonEmptyString::new("test-client-id".to_string()).unwrap(),
            pem_path: "test-pem-path".to_string(),
        },
        git: GitConfig {
            repo_path: "test-git-repo".to_string(),
        },
        telemetry: TelemetryConfig {
            mark_client_errors_as_error: false,
        },
    }
}

#[test]
fn test_config_validation_auth_enabled_no_key_fails() {
    let mut config = create_test_config();
    config.auth.allow_unauthenticated = false;
    config.auth.api_key = None;

    assert!(config.validate().is_err());
}

#[test]
fn test_config_validation_auth_enabled_with_key_success() {
    let mut config = create_test_config();
    config.auth.allow_unauthenticated = false;
    config.auth.api_key = Some(NonEmptyString::new("secret".to_string()).unwrap());
    config.auth.token_validity = Duration::from_secs(10); // Ensure token_validity > clock_drift_buffer

    assert!(config.validate().is_ok());
}

#[test]
fn test_config_validation_server_timeouts_zero_fails() {
    let mut config = create_test_config();
    config.server.in_request_timeout = Duration::zero();

    assert!(config.validate().is_err());
}

#[test]
fn test_config_validation_engine_threshold_low_fails() {
    let mut config = create_test_config();
    config.engine.stuck_task_threshold = Duration::from_secs(1);
    config.engine.trigger_queue_polling_interval = Duration::from_secs(2);

    assert!(config.validate().is_err());
}

#[test]
fn test_config_validation_auth_token_validity_too_short_fails() {
    let mut config = create_test_config();
    config.auth.token_validity = Duration::from_secs(1);
    config.auth.clock_drift_buffer = Duration::from_secs(5);

    assert!(config.validate().is_err());
}

#[test]
fn validation_reports_every_broken_rule_in_order() {
    let mut config = create_test_config();
    config.server.in_request_timeout = Duration::zero();
    config.server.out_request_timeout = Duration::zero();
    config.database.polling_db_buffer_size = 0;
    config.engine.trigger_retry_max_attempts = 0;
    let errors = config.validate().unwrap_err();
    assert_eq!(
        errors,
        vec![
            ConfigViolation::InRequestTimeoutNotPositive,
            ConfigViolation::OutRequestTimeoutNotPositive,
            ConfigViolation::PollingDbBufferSizeBelowMin,
            ConfigViolation::TriggerRetryMaxAttemptsBelowMin,
            ConfigViolation::ApiKeyRequiredWhenAuthEnabled,
        ]
    );
}

#[test]
fn cross_field_rule_skipped_when_a_field_rule_fails() {
    let mut config = create_test_config();
    config.auth.allow_unauthenticated = true;
    config.auth.token_validity = Duration::from_secs(10);
    config.database.subscriptions_list_limit = 0;
    config.database.subscriptions_list_limit_cap = 0;
    let errors = config.validate().unwrap_err();
    assert_eq!(
        errors,
        vec![
            ConfigViolation::SubscriptionsListLimitBelowMin,
            ConfigViolation::SubscriptionsListLimitCapBelowMin,
        ]
    );
}

#[test]
fn limit_above_cap_is_refused() {
    let mut config = create_test_config();
    config.auth.allow_unauthenticated = true;
    config.auth.token_validity = Duration::from_secs(10);
    config.database.subscriptions_list_limit = 200;
    let errors = config.validate().unwrap_err();
    assert_eq!(errors, vec![ConfigViolation::LimitExceedsCap]);
    assert_eq!(errors[0].code(), "limit_exceeds_cap");
}

#[test]
fn token_validity_must_strictly_exceed_drift() {
    let mut config = create_test_config();
    config.auth.allow_unauthenticated = true;
    config.auth.token_validity = Duration::from_secs(1);
    config.auth.clock_drift_buffer = Duration::from_millis(1000);
    assert_eq!(
        config.validate().unwrap_err(),
        vec![ConfigViolation::TokenValidityTooShortForDriftBuffer]
    );
    config.auth.token_validity = Duration::from_millis(1001);
    assert!(config.validate().is_ok());
}

#[test]
fn duration_conversions() {
    assert_eq!(Duration::from_secs(2).as_nanos(), 2_000_000_000);
    assert_eq!(Duration::from_millis(1500).as_secs(), 1);
    assert_eq!(Duration::from_secs_nanos(3, 5).as_nanos(), 3_000_000_005);
    assert!(Duration::zero().is_zero());
    assert!(Duration::from_millis(100).le(&Duration::from_secs(1)));
    assert!(!Duration::from_secs(2).le(&Duration::from_secs(1)));
}

#[test]
fn dotenv_status_is_logged_only_when_a_file_was_loaded() {
    assert_eq!(dotenv_status_line(false, true), None);
    assert_eq!(dotenv_status_line(false, false), None);
    let debug = dotenv_status_line(true, true).unwrap();
    assert_eq!(debug.level, LogLevel::Info);
    assert_eq!(debug.message, "Successfully loaded local `.env` file.");
    let release = dotenv_status_line(true, false).unwrap();
    assert_eq!(release.level, LogLevel::Warn);
    assert_eq!(
        release.message,
        "Successfully loaded local `.env` file. If this is a production build, environment variables should be set prior to execution."
    );
}

#[test]
fn violation_codes_name_the_failed_validation() {
    assert_eq!(ConfigViolation::InRequestTimeoutNotPositive.code(), "duration_must_be_positive");
    assert_eq!(ConfigViolation::PollingDbBufferSizeBelowMin.code(), "range");
    assert_eq!(ConfigViolation::LimitExceedsCap.code(), "limit_exceeds_cap");
    assert_eq!(ConfigViolation::StuckTaskThresholdTooLow.code(), "stuck_task_threshold_too_low");
    assert_eq!(
        ConfigViolation::ApiKeyRequiredWhenAuthEnabled.code(),
        "api_key_required_when_auth_enabled"
    );
    assert_eq!(
        ConfigViolation::TokenValidityTooShortForDriftBuffer.code(),
        "token_validity_too_short_for_drift_buffer"
    );
}
