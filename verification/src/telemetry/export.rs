//! Where a process sends its traces: the decisions that are taken when
//! telemetry is set up, from the configuration and the environment.

use crate::text::decimal;
use crate::text::push_decimal;
use crate::text::str_eq;
use crate::text::str_starts_with;
use crate::text::trim_prefixes;
use crate::text::without_prefixes;
use vstd::prelude::*;
use vstd::string::*;

verus! {

/// The scheme of a target that is a file.
pub const FILE_SCHEME: &'static str = "file://";

/// The target that sends traces to the standard output.
pub const STDOUT_TARGET: &'static str = "stdout";

/// The name under which traces are sent where none is configured.
pub const DEFAULT_SERVICE_NAME: &'static str = "codex-cli";

/// The directory below the installation's home that holds trace files.
pub const TRACES_SUBDIR: &'static str = "traces";

/// What is configured for telemetry, each from the configuration or, where
/// that says nothing, from the environment.
#[derive(Debug, Clone, PartialEq, Eq, Default)]
pub struct OtelSettings {
    /// Where traces go. `None` where neither names a target.
    pub target: Option<String>,
    /// `http`, or anything else for gRPC.
    pub protocol: Option<String>,
    pub service_name: Option<String>,
}

/// Where traces go.
#[derive(Debug, Clone, PartialEq, Eq)]
pub enum Exporter {
    /// To the file at `path`, a span a line.
    File { path: String },
    /// To the standard output.
    Stdout,
    /// To a collector at `endpoint`, over HTTP.
    OtlpHttp { endpoint: String },
    /// To a collector at `endpoint`, over gRPC.
    OtlpGrpc { endpoint: String },
}

/// View of an [`Exporter`].
pub enum ExporterView {
    File { path: Seq<char> },
    Stdout,
    OtlpHttp { endpoint: Seq<char> },
    OtlpGrpc { endpoint: Seq<char> },
}

impl View for Exporter {
    type V = ExporterView;

    open spec fn view(&self) -> ExporterView {
        match self {
            Exporter::File { path } => ExporterView::File { path: path@ },
            Exporter::Stdout => ExporterView::Stdout,
            Exporter::OtlpHttp { endpoint } => ExporterView::OtlpHttp { endpoint: endpoint@ },
            Exporter::OtlpGrpc { endpoint } => ExporterView::OtlpGrpc { endpoint: endpoint@ },
        }
    }
}

/// What setting telemetry up is to do.
#[derive(Debug, Clone, PartialEq, Eq)]
pub struct TelemetryPlan {
    pub exporter: Exporter,
    pub service_name: String,
    /// Whether to tell the user where the trace file is: it is told of a
    /// file that nobody chose.
    pub announce: bool,
}

/// View of a [`TelemetryPlan`].
pub struct TelemetryPlanView {
    pub exporter: ExporterView,
    pub service_name: Seq<char>,
    pub announce: bool,
}

impl View for TelemetryPlan {
    type V = TelemetryPlanView;

    open spec fn view(&self) -> TelemetryPlanView {
        TelemetryPlanView {
            exporter: self.exporter@,
            service_name: self.service_name@,
            announce: self.announce,
        }
    }
}

impl DeepView for TelemetryPlan {
    type V = TelemetryPlanView;

    open spec fn deep_view(&self) -> TelemetryPlanView {
        self@
    }
}

/// One setting: the configured value, and the environment's only where
/// none is configured.
pub open spec fn preferred(configured: Option<Seq<char>>, environment: Option<Seq<char>>) -> Option<
    Seq<char>,
> {
    match configured {
        Some(value) => Some(value),
        None => environment,
    }
}

/// One setting: the configured value, and the environment's only where
/// none is configured.
pub fn prefer(configured: Option<String>, environment: Option<String>) -> (value: Option<String>)
    ensures
        value.deep_view() == preferred(configured.deep_view(), environment.deep_view()),
{
    match configured {
        Some(value) => Some(value),
        None => environment,
    }
}

/// The exporter for a target: a file for a target with the file scheme,
/// the standard output for `stdout`, and a collector for anything else,
/// over HTTP exactly where the protocol is `http`.
pub open spec fn exporter_for(target: Seq<char>, protocol: Option<Seq<char>>) -> ExporterView {
    if FILE_SCHEME@.is_prefix_of(target) {
        ExporterView::File { path: without_prefixes(target, FILE_SCHEME@) }
    } else if target == STDOUT_TARGET@ {
        ExporterView::Stdout
    } else if protocol == Some("http"@) {
        ExporterView::OtlpHttp { endpoint: target }
    } else {
        ExporterView::OtlpGrpc { endpoint: target }
    }
}

/// What setting telemetry up is to do: nothing where there is no target,
/// neither a chosen one nor the default trace file.
pub open spec fn planned(
    target: Option<Seq<char>>,
    protocol: Option<Seq<char>>,
    service_name: Option<Seq<char>>,
    default_target: Option<Seq<char>>,
) -> Option<TelemetryPlanView> {
    let chosen = match target {
        Some(t) => Some(t),
        None => default_target,
    };
    match chosen {
        Some(t) => Some(
            TelemetryPlanView {
                exporter: exporter_for(t, protocol),
                service_name: match service_name {
                    Some(name) => name,
                    None => DEFAULT_SERVICE_NAME@,
                },
                announce: FILE_SCHEME@.is_prefix_of(t) && target is None,
            },
        ),
        None => None,
    }
}

/// The exporter for a target.
pub fn exporter_from(target: &str, protocol: &Option<String>) -> (exporter: Exporter)
    ensures
        exporter@ == exporter_for(target@, protocol.deep_view()),
{
    if str_starts_with(target, FILE_SCHEME) {
        proof {
            reveal_strlit("file://");
        }
        Exporter::File { path: trim_prefixes(target, FILE_SCHEME) }
    } else if str_eq(target, STDOUT_TARGET) {
        Exporter::Stdout
    } else {
        let http = match protocol {
            Some(p) => str_eq(p.as_str(), "http"),
            None => false,
        };
        if http {
            Exporter::OtlpHttp { endpoint: target.to_string() }
        } else {
            Exporter::OtlpGrpc { endpoint: target.to_string() }
        }
    }
}

impl OtelSettings {
    /// The settings that count: each is the configured one, and the
    /// environment's only where the configuration says nothing.
    pub fn resolve(configured: OtelSettings, environment: OtelSettings) -> (settings: OtelSettings)
        ensures
            settings.target.deep_view() == preferred(
                configured.target.deep_view(),
                environment.target.deep_view(),
            ),
            settings.protocol.deep_view() == preferred(
                configured.protocol.deep_view(),
                environment.protocol.deep_view(),
            ),
            settings.service_name.deep_view() == preferred(
                configured.service_name.deep_view(),
                environment.service_name.deep_view(),
            ),
    {
        OtelSettings {
            target: prefer(configured.target, environment.target),
            protocol: prefer(configured.protocol, environment.protocol),
            service_name: prefer(configured.service_name, environment.service_name),
        }
    }

    /// What setting telemetry up is to do, from what is configured and
    /// what the environment holds: the configuration goes first, then the
    /// environment, then the default trace file and the default name.
    pub fn plan_from(configured: OtelSettings, environment: OtelSettings, default_target: Option<String>) -> (plan:
        Option<TelemetryPlan>)
        ensures
            plan.deep_view() == planned(
                preferred(configured.target.deep_view(), environment.target.deep_view()),
                preferred(configured.protocol.deep_view(), environment.protocol.deep_view()),
                preferred(configured.service_name.deep_view(), environment.service_name.deep_view()),
                default_target.deep_view(),
            ),
    {
        OtelSettings::resolve(configured, environment).plan(default_target)
    }

    /// Whether the default trace file is needed: no target was chosen.
    pub fn needs_default_target(&self) -> (yes: bool)
        ensures
            yes == self.target is None,
    {
        self.target.is_none()
    }

    /// What setting telemetry up is to do. `default_target` is the default
    /// trace file, where one could be made; it counts only where no target
    /// was chosen.
    pub fn plan(&self, default_target: Option<String>) -> (plan: Option<TelemetryPlan>)
        ensures
            plan.deep_view() == planned(
                self.target.deep_view(),
                self.protocol.deep_view(),
                self.service_name.deep_view(),
                default_target.deep_view(),
            ),
    {
        let explicit = self.target.is_some();
        let chosen = match &self.target {
            Some(t) => Some(t.clone()),
            None => default_target,
        };
        match chosen {
            Some(target) => {
                let service_name = match &self.service_name {
                    Some(name) => name.clone(),
                    None => DEFAULT_SERVICE_NAME.to_string(),
                };
                let announce = str_starts_with(target.as_str(), FILE_SCHEME) && !explicit;
                Some(
                    TelemetryPlan {
                        exporter: exporter_from(target.as_str(), &self.protocol),
                        service_name,
                        announce,
                    },
                )
            },
            None => None,
        }
    }
}

/// The name of the default trace file of the process `pid` that started
/// `timestamp` seconds into the epoch.
pub open spec fn trace_file_name(timestamp: u64, pid: u32) -> Seq<char> {
    "codex-"@ + decimal(timestamp as nat) + "-"@ + decimal(pid as nat) + ".log"@
}

/// The name of the default trace file.
pub fn default_trace_file_name(timestamp: u64, pid: u32) -> (name: String)
    ensures
        name@ == trace_file_name(timestamp, pid),
{
    let mut name = "codex-".to_string();
    push_decimal(&mut name, timestamp);
    name.append("-");
    push_decimal(&mut name, pid as u64);
    name.append(".log");
    name
}

/// The target that names the file at `path`.
pub fn file_target(path: &str) -> (target: String)
    ensures
        target@ == FILE_SCHEME@ + path@,
{
    let mut target = FILE_SCHEME.to_string();
    target.append(path);
    target
}

} // verus!
