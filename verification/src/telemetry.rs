//! The decisions behind telemetry set-up, taken on the values of the
//! standard OpenTelemetry environment variables.

use vstd::prelude::*;
use vstd::string::*;

verus! {

/// The code of `c` with ASCII upper-case letters made lower-case.
pub open spec fn ascii_lower_code(c: char) -> u32 {
    if 65 <= (c as u32) <= 90 {
        (c as u32 + 32) as u32
    } else {
        c as u32
    }
}

/// `a` and `b` are equal up to ASCII case (`str::eq_ignore_ascii_case`).
pub open spec fn eq_ignore_ascii_case(a: Seq<char>, b: Seq<char>) -> bool {
    a.len() == b.len() && forall|i: int| 0 <= i < a.len() ==> #[trigger] ascii_lower_code(a[i])
        == ascii_lower_code(b[i])
}

/// A variable value that switches a flag on: `true` in any ASCII case, or `1`.
pub open spec fn truthy(value: Seq<char>) -> bool {
    eq_ignore_ascii_case(value, "true"@) || value == "1"@
}

fn lower_code(c: char) -> (r: u32)
    ensures
        r == ascii_lower_code(c),
{
    let code = c as u32;
    if 65 <= code && code <= 90 {
        code + 32
    } else {
        code
    }
}

/// Whether two texts are equal up to ASCII case.
pub fn equal_ignoring_ascii_case(a: &str, b: &str) -> (r: bool)
    ensures
        r == eq_ignore_ascii_case(a@, b@),
{
    let n = a.unicode_len();
    if n != b.unicode_len() {
        return false;
    }
    let mut i: usize = 0;
    while i < n
        invariant
            n == a@.len(),
            n == b@.len(),
            i <= n,
            forall|j: int| 0 <= j < i ==> #[trigger] ascii_lower_code(a@[j]) == ascii_lower_code(
                b@[j],
            ),
        decreases n - i,
    {
        if lower_code(a.get_char(i)) != lower_code(b.get_char(i)) {
            return false;
        }
        i = i + 1;
    }
    true
}

/// Whether a variable's value switches a flag on.
pub fn is_truthy(value: &str) -> (r: bool)
    ensures
        r == truthy(value@),
{
    equal_ignoring_ascii_case(value, "true") || crate::text::same_text(value, "1")
}

/// Whether an OTLP endpoint has been configured: the traces endpoint or
/// the general endpoint variable is set to a non-empty value.
pub fn otlp_endpoint_is_configured(traces_endpoint: Option<&str>, endpoint: Option<&str>) -> (r:
    bool)
    ensures
        r == ((traces_endpoint is Some && traces_endpoint->0@.len() > 0) || (endpoint is Some
            && endpoint->0@.len() > 0)),
{
    let traces = match traces_endpoint {
        Some(v) => !v.is_empty(),
        None => false,
    };
    let general = match endpoint {
        Some(v) => !v.is_empty(),
        None => false,
    };
    traces || general
}

/// Reason why OpenTelemetry initialization was skipped or failed.
#[derive(Debug, Clone, PartialEq, Eq)]
pub enum TelemetryDisabledReason {
    /// The SDK was disabled via `OTEL_SDK_DISABLED`.
    SdkDisabled,
    /// The exporter was disabled via `OTEL_TRACES_EXPORTER=none`.
    ExporterNone,
    /// No OTLP endpoint was configured.
    EndpointNotConfigured,
    /// The OTLP span exporter failed to build.
    ExporterBuildFailed(String),
}

/// Whether traces are exported, given `OTEL_SDK_DISABLED`,
/// `OTEL_TRACES_EXPORTER` (each `None` when unset or not Unicode) and
/// whether an endpoint is configured; the first reason against wins.
pub fn tracing_export_enabled(
    sdk_disabled: Option<&str>,
    traces_exporter: Option<&str>,
    endpoint_configured: bool,
) -> (r: Result<(), TelemetryDisabledReason>)
    ensures
        r == (if sdk_disabled is Some && truthy(sdk_disabled->0@) {
            Err(TelemetryDisabledReason::SdkDisabled)
        } else if traces_exporter is Some && traces_exporter->0@ == "none"@ {
            Err(TelemetryDisabledReason::ExporterNone)
        } else if !endpoint_configured {
            Err(TelemetryDisabledReason::EndpointNotConfigured)
        } else {
            Ok::<(), TelemetryDisabledReason>(())
        }),
{
    if let Some(v) = sdk_disabled {
        if is_truthy(v) {
            return Err(TelemetryDisabledReason::SdkDisabled);
        }
    }
    if let Some(v) = traces_exporter {
        if crate::text::same_text(v, "none") {
            return Err(TelemetryDisabledReason::ExporterNone);
        }
    }
    if !endpoint_configured {
        return Err(TelemetryDisabledReason::EndpointNotConfigured);
    }
    Ok(())
}

impl TelemetryDisabledReason {
    /// The text the reason displays.
    pub fn to_display_string(&self) -> (s: String)
        ensures
            s@ == match self {
                TelemetryDisabledReason::SdkDisabled => "OpenTelemetry disabled via OTEL_SDK_DISABLED."@,
                TelemetryDisabledReason::ExporterNone => "OpenTelemetry disabled via OTEL_TRACES_EXPORTER=none."@,
                TelemetryDisabledReason::EndpointNotConfigured => "OTLP endpoint not configured, telemetry disabled. Set OTEL_EXPORTER_OTLP_ENDPOINT to enable."@,
                TelemetryDisabledReason::ExporterBuildFailed(m) => "Failed to build OTLP span exporter, telemetry disabled: "@ + m@,
            },
    {
        match self {
            TelemetryDisabledReason::SdkDisabled => String::from_str(
                "OpenTelemetry disabled via OTEL_SDK_DISABLED.",
            ),
            TelemetryDisabledReason::ExporterNone => String::from_str(
                "OpenTelemetry disabled via OTEL_TRACES_EXPORTER=none.",
            ),
            TelemetryDisabledReason::EndpointNotConfigured => String::from_str(
                "OTLP endpoint not configured, telemetry disabled. Set OTEL_EXPORTER_OTLP_ENDPOINT to enable.",
            ),
            TelemetryDisabledReason::ExporterBuildFailed(m) => String::from_str(
                "Failed to build OTLP span exporter, telemetry disabled: ",
            ).concat(m.as_str()),
        }
    }
}

} // verus!
