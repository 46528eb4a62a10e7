//! Decisions of the logging setup: which console format, whether logs, traces and metrics
//! are exported, under which service name and version, and how a shutdown is reported.

use vstd::prelude::*;

use crate::settings::{LogFormat, Settings, UNKNOWN};

verus! {

/// The log filter used where `RUST_LOG` gives none: `info` and above.
pub const DEFAULT_LOG_FILTER: &'static str = "info";

/// The service name reported where none is configured.
pub open spec fn default_service_name() -> Seq<char> {
    "multi-arch-container-rust"@
}

/// The service name: the configured one, or [`default_service_name`].
pub fn service_name(configured: Option<String>) -> (r: String)
    ensures
        r@ == (match configured {
            Some(name) => name@,
            None => default_service_name(),
        }),
{
    match configured {
        Some(name) => name,
        None => "multi-arch-container-rust".to_owned(),
    }
}

/// The service version: the git tag, or `unknown` where the tag is the [`UNKNOWN`]
/// placeholder.
pub open spec fn service_version_of(git_tag: Seq<char>) -> Seq<char> {
    if git_tag == UNKNOWN@ {
        "unknown"@
    } else {
        git_tag
    }
}

/// Every git tag other than the [`UNKNOWN`] placeholder is reported as the service version
/// as it is (e.g. `latest-dev`, `1.0.0-beta.1`); the placeholder is reported as `unknown`.
pub proof fn service_version_is_the_tag(git_tag: Seq<char>)
    ensures
        git_tag != UNKNOWN@ ==> service_version_of(git_tag) == git_tag,
        git_tag == UNKNOWN@ ==> service_version_of(git_tag) == "unknown"@,
{
}

/// Without a configured name the service is reported as `multi-arch-container-rust`.
pub proof fn default_service_name_value()
    ensures
        default_service_name() == "multi-arch-container-rust"@,
{
}

/// The service version reported for a git tag.
pub fn service_version(git_tag: &str) -> (r: String)
    ensures
        r@ == service_version_of(git_tag@),
{
    let tag = git_tag.to_owned();
    let placeholder = UNKNOWN.to_owned();
    if tag == placeholder {
        "unknown".to_owned()
    } else {
        tag
    }
}

/// How logs, traces and metrics are exported over OTLP.
pub struct OtlpExport {
    /// The `service.name` of the exported resource.
    pub service_name: String,
    /// The `service.version` of the exported resource.
    pub service_version: String,
}

/// What the logging setup installs.
pub struct TelemetryPlan {
    /// The format of the console output.
    pub console: LogFormat,
    /// The OTLP export, where an endpoint is configured.
    pub export: Option<OtlpExport>,
}

/// Decides the logging setup: the console writes in the configured format; only where an
/// OTLP endpoint is configured are logs, traces and metrics exported too, under the
/// configured service name (or the default) and the version given by the git tag.
pub fn plan(
    settings: &Settings,
    otlp_endpoint_configured: bool,
    configured_service_name: Option<String>,
) -> (r: TelemetryPlan)
    ensures
        r.console == settings.app.log_format,
        r.export is Some <==> otlp_endpoint_configured,
        r.export matches Some(x) ==> {
            &&& x.service_name@ == (match configured_service_name {
                Some(name) => name@,
                None => default_service_name(),
            })
            &&& x.service_version@ == service_version_of(settings.git_tag@)
        },
{
    let export = if otlp_endpoint_configured {
        Some(
            OtlpExport {
                service_name: service_name(configured_service_name),
                service_version: service_version(settings.git_tag.as_str()),
            },
        )
    } else {
        None
    };
    TelemetryPlan { console: settings.app.log_format, export }
}

/// The outcome of shutting down the log, metric and trace providers, in that order, after
/// every one of them was asked to stop: the first failure, or success.
pub fn first_failure<E>(logger: Result<(), E>, meter: Result<(), E>, tracer: Result<(), E>) -> (r:
    Result<(), E>)
    ensures
        r == (if logger is Err {
            logger
        } else if meter is Err {
            meter
        } else {
            tracer
        }),
{
    match logger {
        Err(e) => Err(e),
        Ok(()) => match meter {
            Err(e) => Err(e),
            Ok(()) => tracer,
        },
    }
}

} // verus!
