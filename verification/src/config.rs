//! Server configuration and the rules that a loaded configuration must meet.

use vstd::prelude::*;

use crate::domain::{AcceptHeader, ApiVersion, NonEmptyString};

verus! {

/// The largest number of nanoseconds a duration holds: that of `u64::MAX`
/// whole seconds plus a fraction below one second.
pub open spec fn max_duration_nanos() -> nat {
    ((u64::MAX as nat + 1) * 1_000_000_000 - 1) as nat
}

/// A span of time, counted in nanoseconds.
#[derive(Debug, Clone, Copy, PartialEq, Eq)]
pub struct Duration {
    nanos: u128,
}

impl View for Duration {
    type V = nat;

    closed spec fn view(&self) -> nat {
        self.nanos as nat
    }
}

impl Duration {
    #[verifier::type_invariant]
    spec fn inv(self) -> bool {
        self.nanos <= max_duration_nanos()
    }

    /// The empty span.
    pub fn zero() -> (d: Duration)
        ensures
            d@ == 0,
    {
        Duration { nanos: 0 }
    }

    /// A span of whole seconds.
    pub fn from_secs(secs: u64) -> (d: Duration)
        ensures
            d@ == secs * 1_000_000_000,
    {
        Duration { nanos: secs as u128 * 1_000_000_000 }
    }

    /// A span of milliseconds.
    pub fn from_millis(millis: u64) -> (d: Duration)
        ensures
            d@ == millis * 1_000_000,
    {
        Duration { nanos: millis as u128 * 1_000_000 }
    }

    /// A span of whole seconds and a fraction of a second in nanoseconds.
    pub fn from_secs_nanos(secs: u64, subsec_nanos: u32) -> (d: Duration)
        requires
            subsec_nanos < 1_000_000_000,
        ensures
            d@ == secs * 1_000_000_000 + subsec_nanos,
    {
        Duration { nanos: secs as u128 * 1_000_000_000 + subsec_nanos as u128 }
    }

    /// The number of nanoseconds.
    pub fn as_nanos(&self) -> (n: u128)
        ensures
            n == self@,
    {
        self.nanos
    }

    /// The number of whole seconds.
    pub fn as_secs(&self) -> (s: u64)
        ensures
            s == self@ / 1_000_000_000,
    {
        proof {
            use_type_invariant(self);
        }
        (self.nanos / 1_000_000_000) as u64
    }

    /// Whether the span is empty.
    pub fn is_zero(&self) -> (z: bool)
        ensures
            z == (self@ == 0),
    {
        self.nanos == 0
    }

    /// Whether this span is at most as long as `other`.
    pub fn le(&self, other: &Duration) -> (r: bool)
        ensures
            r == (self@ <= other@),
    {
        self.nanos <= other.nanos
    }
}

/// Configuration for the HTTP server.
#[derive(Debug, Clone)]
pub struct ServerConfig {
    /// The bind address for the server.
    pub address: String,
    /// The User-Agent string for HTTP requests.
    pub user_agent: NonEmptyString,
    /// Timeout duration for incoming HTTP requests.
    pub in_request_timeout: Duration,
    /// Timeout duration for outgoing HTTP requests.
    pub out_request_timeout: Duration,
}

/// Configuration for the database connection.
#[derive(Debug, Clone)]
pub struct DatabaseConfig {
    /// The connection URL for the database.
    pub url: String,
    /// The database connection timeout duration.
    pub timeout: Duration,
    /// The maximum size of the polling database buffer.
    pub polling_db_buffer_size: usize,
    /// The cooldown duration for polling database errors.
    pub polling_db_error_cooldown: Duration,
    /// The default limit for subscriptions list pagination.
    pub subscriptions_list_limit: usize,
    /// The maximum allowed limit for subscriptions list pagination.
    pub subscriptions_list_limit_cap: usize,
}

/// Configuration for GitHub API interactions.
#[derive(Debug, Clone)]
pub struct GitHubApiConfig {
    /// The base URL for the GitHub API, as the URL parser writes it.
    pub base_url: String,
    /// The specific GitHub API version to use.
    pub version: ApiVersion,
    /// The value of the Accept header.
    pub accept_header: AcceptHeader,
}

/// Configuration for internal engine processes.
#[derive(Debug, Clone)]
pub struct EngineConfig {
    /// Duration to sleep between polling cycles.
    pub polling_sleep: Duration,
    /// The interval for polling the trigger queue.
    pub trigger_queue_polling_interval: Duration,
    /// The maximum number of trigger retry attempts.
    pub trigger_retry_max_attempts: u32,
    /// The base duration for retry backoff.
    pub trigger_retry_backoff_base: Duration,
    /// The duration before a task is considered stuck.
    pub stuck_task_threshold: Duration,
}

/// Configuration for authentication mechanisms.
#[derive(Debug, Clone)]
pub struct AuthConfig {
    /// Buffer time allowed for clock drift.
    pub clock_drift_buffer: Duration,
    /// Duration for which an authentication token is valid.
    pub token_validity: Duration,
    /// Optional API key; when set, the `X-API-KEY` header must match it.
    pub api_key: Option<NonEmptyString>,
    /// Allow unauthenticated access to the API.
    pub allow_unauthenticated: bool,
    /// GitHub App's Client ID.
    pub client_id: NonEmptyString,
    /// Path to the GitHub App's private key.
    pub pem_path: String,
}

/// Configuration of the local git repository used for fetching.
#[derive(Debug, Clone)]
pub struct GitConfig {
    /// Path to the local repository.
    pub repo_path: String,
}

/// Configuration of the exported traces.
#[derive(Debug, Clone)]
pub struct TelemetryConfig {
    /// Whether client errors (4xx) are marked as errors in traces.
    pub mark_client_errors_as_error: bool,
}

/// Holds all application-wide configuration settings.
#[derive(Debug, Clone)]
pub struct Config {
    /// Server-related configuration settings.
    pub server: ServerConfig,
    /// Database-related configuration settings.
    pub database: DatabaseConfig,
    /// GitHub API communication configuration settings.
    pub github_api: GitHubApiConfig,
    /// Asynchronous engine configuration settings.
    pub engine: EngineConfig,
    /// Authentication configuration settings.
    pub auth: AuthConfig,
    /// Local git repository settings.
    pub git: GitConfig,
    /// Telemetry settings.
    pub telemetry: TelemetryConfig,
}

/// A rule of the configuration that a value breaks.
#[derive(Debug, Clone, Copy, PartialEq, Eq)]
pub enum ConfigViolation {
    /// `server.in_request_timeout` is zero.
    InRequestTimeoutNotPositive,
    /// `server.out_request_timeout` is zero.
    OutRequestTimeoutNotPositive,
    /// `database.polling_db_buffer_size` is below 1.
    PollingDbBufferSizeBelowMin,
    /// `database.subscriptions_list_limit` is below 1.
    SubscriptionsListLimitBelowMin,
    /// `database.subscriptions_list_limit_cap` is below 1.
    SubscriptionsListLimitCapBelowMin,
    /// The default page size exceeds the cap.
    LimitExceedsCap,
    /// `engine.trigger_retry_max_attempts` is below 1.
    TriggerRetryMaxAttemptsBelowMin,
    /// The stuck-task threshold is not above the trigger queue interval.
    StuckTaskThresholdTooLow,
    /// Authentication is enabled but no API key is set.
    ApiKeyRequiredWhenAuthEnabled,
    /// The token validity does not exceed the clock drift buffer.
    TokenValidityTooShortForDriftBuffer,
}

/// The error code of a broken rule: the name of the validation that
/// failed.
pub open spec fn violation_code(v: ConfigViolation) -> Seq<char> {
    match v {
        ConfigViolation::InRequestTimeoutNotPositive => "duration_must_be_positive"@,
        ConfigViolation::OutRequestTimeoutNotPositive => "duration_must_be_positive"@,
        ConfigViolation::PollingDbBufferSizeBelowMin => "range"@,
        ConfigViolation::SubscriptionsListLimitBelowMin => "range"@,
        ConfigViolation::SubscriptionsListLimitCapBelowMin => "range"@,
        ConfigViolation::LimitExceedsCap => "limit_exceeds_cap"@,
        ConfigViolation::TriggerRetryMaxAttemptsBelowMin => "range"@,
        ConfigViolation::StuckTaskThresholdTooLow => "stuck_task_threshold_too_low"@,
        ConfigViolation::ApiKeyRequiredWhenAuthEnabled => "api_key_required_when_auth_enabled"@,
        ConfigViolation::TokenValidityTooShortForDriftBuffer => "token_validity_too_short_for_drift_buffer"@,
    }
}

impl ConfigViolation {
    /// The error code of the rule.
    pub fn code(&self) -> (c: &'static str)
        ensures
            c@ == violation_code(*self),
    {
        match self {
            ConfigViolation::InRequestTimeoutNotPositive => "duration_must_be_positive",
            ConfigViolation::OutRequestTimeoutNotPositive => "duration_must_be_positive",
            ConfigViolation::PollingDbBufferSizeBelowMin => "range",
            ConfigViolation::SubscriptionsListLimitBelowMin => "range",
            ConfigViolation::SubscriptionsListLimitCapBelowMin => "range",
            ConfigViolation::LimitExceedsCap => "limit_exceeds_cap",
            ConfigViolation::TriggerRetryMaxAttemptsBelowMin => "range",
            ConfigViolation::StuckTaskThresholdTooLow => "stuck_task_threshold_too_low",
            ConfigViolation::ApiKeyRequiredWhenAuthEnabled => "api_key_required_when_auth_enabled",
            ConfigViolation::TokenValidityTooShortForDriftBuffer => "token_validity_too_short_for_drift_buffer",
        }
    }
}

/// `v` as a one-element list when `broken`, else the empty list.
pub open spec fn flag(broken: bool, v: ConfigViolation) -> Seq<ConfigViolation> {
    if broken {
        seq![v]
    } else {
        Seq::empty()
    }
}

/// The field rules of the server settings: both timeouts are positive.
pub open spec fn server_violations(s: ServerConfig) -> Seq<ConfigViolation> {
    flag(s.in_request_timeout@ == 0, ConfigViolation::InRequestTimeoutNotPositive) + flag(
        s.out_request_timeout@ == 0,
        ConfigViolation::OutRequestTimeoutNotPositive,
    )
}

/// The field rules of the database settings: each size is at least 1.
pub open spec fn database_field_violations(d: DatabaseConfig) -> Seq<ConfigViolation> {
    flag(d.polling_db_buffer_size < 1, ConfigViolation::PollingDbBufferSizeBelowMin) + flag(
        d.subscriptions_list_limit < 1,
        ConfigViolation::SubscriptionsListLimitBelowMin,
    ) + flag(d.subscriptions_list_limit_cap < 1, ConfigViolation::SubscriptionsListLimitCapBelowMin)
}

/// The rules of the database settings: the field rules, and, when they
/// hold, the default page size does not exceed the cap.
pub open spec fn database_violations(d: DatabaseConfig) -> Seq<ConfigViolation> {
    if database_field_violations(d).len() > 0 {
        database_field_violations(d)
    } else {
        flag(d.subscriptions_list_limit > d.subscriptions_list_limit_cap, ConfigViolation::LimitExceedsCap)
    }
}

/// The rules of the engine settings: at least one attempt, and, when that
/// holds, the stuck-task threshold is above the trigger queue interval.
pub open spec fn engine_violations(e: EngineConfig) -> Seq<ConfigViolation> {
    if e.trigger_retry_max_attempts < 1 {
        seq![ConfigViolation::TriggerRetryMaxAttemptsBelowMin]
    } else {
        flag(
            e.stuck_task_threshold@ <= e.trigger_queue_polling_interval@,
            ConfigViolation::StuckTaskThresholdTooLow,
        )
    }
}

/// The rule of the auth settings, with its first broken part: an API key
/// is required unless unauthenticated access is allowed, then the token
/// validity must exceed the clock drift buffer.
pub open spec fn auth_violations(a: AuthConfig) -> Seq<ConfigViolation> {
    if !a.allow_unauthenticated && a.api_key is None {
        seq![ConfigViolation::ApiKeyRequiredWhenAuthEnabled]
    } else {
        flag(
            a.token_validity@ <= a.clock_drift_buffer@,
            ConfigViolation::TokenValidityTooShortForDriftBuffer,
        )
    }
}

/// Every rule that `c` breaks, section by section.
pub open spec fn config_violations(c: Config) -> Seq<ConfigViolation> {
    server_violations(c.server) + database_violations(c.database) + engine_violations(c.engine)
        + auth_violations(c.auth)
}

/// A configuration passes validation exactly when it has positive
/// timeouts, page sizes of at least one with the default within the cap,
/// at least one trigger attempt, stuck tasks recovered only after a full
/// queue interval, an API key whenever authentication is on, and tokens
/// that outlive the clock drift buffer.
pub proof fn lemma_valid_config_characterized(c: Config)
    ensures
        config_violations(c).len() == 0 <==> {
            &&& c.server.in_request_timeout@ > 0
            &&& c.server.out_request_timeout@ > 0
            &&& c.database.polling_db_buffer_size >= 1
            &&& 1 <= c.database.subscriptions_list_limit <= c.database.subscriptions_list_limit_cap
            &&& c.engine.trigger_retry_max_attempts >= 1
            &&& c.engine.stuck_task_threshold@ > c.engine.trigger_queue_polling_interval@
            &&& (!c.auth.allow_unauthenticated ==> c.auth.api_key is Some)
            &&& c.auth.token_validity@ > c.auth.clock_drift_buffer@
        },
{
    let s = server_violations(c.server);
    let d = database_violations(c.database);
    let e = engine_violations(c.engine);
    let a = auth_violations(c.auth);
    assert((s + d + e + a).len() == s.len() + d.len() + e.len() + a.len());
}

/// The line that reports the outcome of loading the `.env` file.
pub open spec fn dotenv_loaded_message(debug_build: bool) -> Seq<char> {
    if debug_build {
        "Successfully loaded local `.env` file."@
    } else {
        "Successfully loaded local `.env` file. If this is a production build, environment variables should be set prior to execution."@
    }
}

/// The severity of a log line.
#[derive(Debug, Clone, Copy, PartialEq, Eq)]
pub enum LogLevel {
    /// Information.
    Info,
    /// Warning.
    Warn,
}

/// A line to log: its severity and its text.
#[derive(Debug, Clone, Copy, PartialEq, Eq)]
pub struct LogLine {
    /// The severity.
    pub level: LogLevel,
    /// The text.
    pub message: &'static str,
}

/// What to log about the `.env` file: nothing when none was loaded; when
/// one was, an information in a debug build and, in a release build, a
/// warning that production settings belong in the environment beforehand.
pub fn dotenv_status_line(loaded: bool, debug_build: bool) -> (l: Option<LogLine>)
    ensures
        l is None <==> !loaded,
        l matches Some(line) ==> line.level == (if debug_build {
            LogLevel::Info
        } else {
            LogLevel::Warn
        }) && line.message@ == dotenv_loaded_message(debug_build),
{
    if !loaded {
        return None;
    }
    if debug_build {
        Some(LogLine { level: LogLevel::Info, message: "Successfully loaded local `.env` file." })
    } else {
        Some(
            LogLine {
                level: LogLevel::Warn,
                message: "Successfully loaded local `.env` file. If this is a production build, environment variables should be set prior to execution.",
            },
        )
    }
}

/// Validates that a duration is positive.
fn validate_duration_positive(duration: &Duration, v: ConfigViolation) -> (r: Result<(), ConfigViolation>)
    ensures
        r == (if duration@ == 0 { Err(v) } else { Ok::<(), ConfigViolation>(()) }),
{
    if duration.is_zero() {
        return Err(v);
    }
    Ok(())
}

/// Validates that the default pagination limit does not exceed the cap.
fn validate_pagination_limits(config: &DatabaseConfig) -> (r: Result<(), ConfigViolation>)
    ensures
        r == (if config.subscriptions_list_limit > config.subscriptions_list_limit_cap {
            Err(ConfigViolation::LimitExceedsCap)
        } else {
            Ok::<(), ConfigViolation>(())
        }),
{
    if config.subscriptions_list_limit > config.subscriptions_list_limit_cap {
        return Err(ConfigViolation::LimitExceedsCap);
    }
    Ok(())
}

/// Validates that the stuck task threshold is greater than the polling interval.
fn validate_engine_config(config: &EngineConfig) -> (r: Result<(), ConfigViolation>)
    ensures
        r == (if config.stuck_task_threshold@ <= config.trigger_queue_polling_interval@ {
            Err(ConfigViolation::StuckTaskThresholdTooLow)
        } else {
            Ok::<(), ConfigViolation>(())
        }),
{
    if config.stuck_task_threshold.le(&config.trigger_queue_polling_interval) {
        return Err(ConfigViolation::StuckTaskThresholdTooLow);
    }
    Ok(())
}

/// Validates that an API key is provided if unauthenticated access is
/// disabled, and that token validity exceeds the clock drift buffer.
fn validate_auth_config(config: &AuthConfig) -> (r: Result<(), ConfigViolation>)
    ensures
        r is Ok <==> auth_violations(*config).len() == 0,
        r matches Err(v) ==> auth_violations(*config) == seq![v],
{
    if !config.allow_unauthenticated && config.api_key.is_none() {
        return Err(ConfigViolation::ApiKeyRequiredWhenAuthEnabled);
    }
    if config.token_validity.le(&config.clock_drift_buffer) {
        return Err(ConfigViolation::TokenValidityTooShortForDriftBuffer);
    }
    Ok(())
}

/// Appends `v` to `out` when `check` failed.
fn record(out: &mut Vec<ConfigViolation>, check: Result<(), ConfigViolation>)
    ensures
        final(out)@ == old(out)@ + match check {
            Ok(_) => Seq::<ConfigViolation>::empty(),
            Err(v) => seq![v],
        },
{
    match check {
        Ok(_) => {
            assert(old(out)@ + Seq::<ConfigViolation>::empty() =~= old(out)@);
        },
        Err(v) => {
            out.push(v);
        },
    }
}

impl Config {
    /// Checks every rule of the configuration, collecting all that are
    /// broken. A section's cross-field rule is only checked once that
    /// section's field rules hold.
    pub fn validate(&self) -> (r: Result<(), Vec<ConfigViolation>>)
        ensures
            r is Ok <==> config_violations(*self).len() == 0,
            r matches Err(v) ==> v@ == config_violations(*self),
    {
        let mut out: Vec<ConfigViolation> = Vec::new();
        record(
            &mut out,
            validate_duration_positive(
                &self.server.in_request_timeout,
                ConfigViolation::InRequestTimeoutNotPositive,
            ),
        );
        record(
            &mut out,
            validate_duration_positive(
                &self.server.out_request_timeout,
                ConfigViolation::OutRequestTimeoutNotPositive,
            ),
        );
        assert(out@ =~= server_violations(self.server));
        let before_db = out.len();
        let ghost s0 = out@;
        if self.database.polling_db_buffer_size < 1 {
            out.push(ConfigViolation::PollingDbBufferSizeBelowMin);
        }
        if self.database.subscriptions_list_limit < 1 {
            out.push(ConfigViolation::SubscriptionsListLimitBelowMin);
        }
        if self.database.subscriptions_list_limit_cap < 1 {
            out.push(ConfigViolation::SubscriptionsListLimitCapBelowMin);
        }
        assert(out@ =~= s0 + database_field_violations(self.database));
        if out.len() == before_db {
            record(&mut out, validate_pagination_limits(&self.database));
        }
        assert(out@ =~= s0 + database_violations(self.database));
        let ghost s1 = out@;
        if self.engine.trigger_retry_max_attempts < 1 {
            out.push(ConfigViolation::TriggerRetryMaxAttemptsBelowMin);
        } else {
            record(&mut out, validate_engine_config(&self.engine));
        }
        assert(out@ =~= s1 + engine_violations(self.engine));
        let ghost s2 = out@;
        record(&mut out, validate_auth_config(&self.auth));
        assert(out@ =~= s2 + auth_violations(self.auth));
        assert(out@ =~= config_violations(*self));
        if out.len() == 0 {
            Ok(())
        } else {
            Err(out)
        }
    }
}

} // verus!
