//! Telemetry configuration: which propagators, trace exporter and metrics
//! exporter a configuration selects, given the exporters this build of the
//! service supports, and what the Prometheus endpoint answers.
use vstd::prelude::*;

verus! {

/// The optional exporters a build of the service carries.
#[derive(Clone, Copy, Debug, PartialEq, Eq, Structural)]
pub struct Features {
    pub jaeger: bool,
    pub zipkin: bool,
    pub otlp: bool,
    pub prometheus: bool,
}

/// A context propagation format named in the configuration.
#[derive(Clone, Copy, Debug, PartialEq, Eq, Structural)]
pub enum Propagator {
    TraceContext,
    Baggage,
    Jaeger,
    B3,
    B3Multi,
}

/// A propagator to install.
#[derive(Clone, Copy, Debug, PartialEq, Eq, Structural)]
pub enum PropagatorKind {
    /// W3C Trace Context.
    TraceContext,
    /// W3C Baggage.
    Baggage,
    /// Jaeger's `uber-trace-id` header.
    Jaeger,
    /// Zipkin's B3, single header.
    B3SingleHeader,
    /// Zipkin's B3, one header per field.
    B3MultipleHeader,
}

/// A configuration this build cannot honour, with the reason.
#[derive(Debug)]
pub struct TelemetryError {
    pub message: String,
}

/// The name a propagator is given in messages.
pub open spec fn propagator_name(p: Propagator) -> Seq<char> {
    match p {
        Propagator::TraceContext => "TraceContext"@,
        Propagator::Baggage => "Baggage"@,
        Propagator::Jaeger => "Jaeger"@,
        Propagator::B3 => "B3"@,
        Propagator::B3Multi => "B3Multi"@,
    }
}

/// The propagator that `p` selects, when this build supports it.
pub open spec fn propagator_choice(p: Propagator, features: Features) -> Option<PropagatorKind> {
    match p {
        Propagator::TraceContext => Some(PropagatorKind::TraceContext),
        Propagator::Baggage => Some(PropagatorKind::Baggage),
        Propagator::Jaeger => if features.jaeger {
            Some(PropagatorKind::Jaeger)
        } else {
            None
        },
        Propagator::B3 => if features.zipkin {
            Some(PropagatorKind::B3SingleHeader)
        } else {
            None
        },
        Propagator::B3Multi => if features.zipkin {
            Some(PropagatorKind::B3MultipleHeader)
        } else {
            None
        },
    }
}

/// The message for a propagator this build does not support.
pub open spec fn unsupported_propagator_text(p: Propagator) -> Seq<char> {
    "The service was compiled without support for the "@ + propagator_name(p)
        + " propagator, but config uses it."@
}

fn name_of(p: Propagator) -> (r: &'static str)
    ensures
        r@ == propagator_name(p),
{
    match p {
        Propagator::TraceContext => "TraceContext",
        Propagator::Baggage => "Baggage",
        Propagator::Jaeger => "Jaeger",
        Propagator::B3 => "B3",
        Propagator::B3Multi => "B3Multi",
    }
}

fn error_text(message: &str) -> (e: TelemetryError)
    ensures
        e.message@ == message@,
{
    TelemetryError { message: String::from_str(message) }
}

/// Which build feature each propagator needs: the W3C formats need none,
/// Jaeger's needs the Jaeger feature alone, and both B3 formats need the
/// Zipkin feature alone. Each selects the propagator of its own format.
pub proof fn law_propagator_features(p: Propagator, f: Features)
    ensures
        p is TraceContext ==> propagator_choice(p, f) == Some(PropagatorKind::TraceContext),
        p is Baggage ==> propagator_choice(p, f) == Some(PropagatorKind::Baggage),
        p is Jaeger ==> (propagator_choice(p, f) is Some <==> f.jaeger),
        p is Jaeger && f.jaeger ==> propagator_choice(p, f) == Some(PropagatorKind::Jaeger),
        (p is B3 || p is B3Multi) ==> (propagator_choice(p, f) is Some <==> f.zipkin),
        p is B3 && f.zipkin ==> propagator_choice(p, f) == Some(PropagatorKind::B3SingleHeader),
        p is B3Multi && f.zipkin ==> propagator_choice(p, f) == Some(PropagatorKind::B3MultipleHeader),
{
}

/// The features a propagator does not need do not change its selection:
/// Jaeger's does not depend on the Zipkin, OTLP or Prometheus features, B3
/// does not depend on the Jaeger, OTLP or Prometheus features, and the W3C
/// formats depend on no feature.
pub proof fn law_propagator_feature_independence(p: Propagator, f: Features, g: Features)
    ensures
        p is Jaeger && f.jaeger == g.jaeger ==> propagator_choice(p, f) == propagator_choice(p, g),
        (p is B3 || p is B3Multi) && f.zipkin == g.zipkin ==> propagator_choice(p, f) == propagator_choice(p, g),
        (p is TraceContext || p is Baggage) ==> propagator_choice(p, f) == propagator_choice(p, g),
{
}

/// Every selected propagator is installed for a format that was named: two
/// different names never select the same propagator.
pub proof fn law_propagator_injective(p: Propagator, q: Propagator, f: Features)
    ensures
        propagator_choice(p, f) is Some && propagator_choice(p, f) == propagator_choice(q, f) ==> p == q,
{
}

/// Selects the propagator that `p` names; fails when this build lacks it.
pub fn match_propagator(p: Propagator, features: Features) -> (r: Result<PropagatorKind, TelemetryError>)
    ensures
        r is Ok <==> propagator_choice(p, features) is Some,
        r matches Ok(k) ==> propagator_choice(p, features) == Some(k),
        r matches Err(e) ==> e.message@ == unsupported_propagator_text(p),
        p is TraceContext ==> r == Ok::<PropagatorKind, TelemetryError>(PropagatorKind::TraceContext),
        p is Baggage ==> r == Ok::<PropagatorKind, TelemetryError>(PropagatorKind::Baggage),
        p is Jaeger ==> (r is Ok <==> features.jaeger) && (r is Ok ==> r == Ok::<
            PropagatorKind,
            TelemetryError,
        >(PropagatorKind::Jaeger)),
        p is B3 ==> (r is Ok <==> features.zipkin) && (r is Ok ==> r == Ok::<
            PropagatorKind,
            TelemetryError,
        >(PropagatorKind::B3SingleHeader)),
        p is B3Multi ==> (r is Ok <==> features.zipkin) && (r is Ok ==> r == Ok::<
            PropagatorKind,
            TelemetryError,
        >(PropagatorKind::B3MultipleHeader)),
{
    let chosen = match p {
        Propagator::TraceContext => Some(PropagatorKind::TraceContext),
        Propagator::Baggage => Some(PropagatorKind::Baggage),
        Propagator::Jaeger => if features.jaeger {
            Some(PropagatorKind::Jaeger)
        } else {
            None
        },
        Propagator::B3 => if features.zipkin {
            Some(PropagatorKind::B3SingleHeader)
        } else {
            None
        },
        Propagator::B3Multi => if features.zipkin {
            Some(PropagatorKind::B3MultipleHeader)
        } else {
            None
        },
    };
    match chosen {
        Some(k) => Ok(k),
        None => {
            let mut m = String::from_str("The service was compiled without support for the ");
            m.append(name_of(p));
            m.append(" propagator, but config uses it.");
            Err(TelemetryError { message: m })
        },
    }
}

/// Selects the propagators, in order, that the configuration names; fails
/// at the first one this build lacks.
pub fn propagator(propagators: &Vec<Propagator>, features: Features) -> (r: Result<
    Vec<PropagatorKind>,
    TelemetryError,
>)
    ensures
        r is Ok <==> forall|i: int| 0 <= i < propagators@.len() ==> #[trigger] propagator_choice(
            propagators@[i],
            features,
        ) is Some,
        r matches Ok(ks) ==> ks@.len() == propagators@.len() && forall|i: int| 0 <= i < ks@.len()
            ==> propagator_choice(propagators@[i], features) == Some(#[trigger] ks@[i]),
        r matches Err(e) ==> exists|i: int| 0 <= i < propagators@.len() && (forall|j: int| 0 <= j < i
            ==> #[trigger] propagator_choice(propagators@[j], features) is Some) && propagator_choice(
            #[trigger] propagators@[i],
            features,
        ) is None && e.message@ == unsupported_propagator_text(propagators@[i]),
{
    let n = propagators.len();
    let mut out: Vec<PropagatorKind> = Vec::new();
    let mut i: usize = 0;
    while i < n
        invariant
            n == propagators@.len(),
            i <= n,
            out@.len() == i,
            forall|k: int| 0 <= k < i ==> propagator_choice(propagators@[k], features) == Some(
                #[trigger] out@[k],
            ),
        decreases n - i,
    {
        match match_propagator(propagators[i], features) {
            Ok(k) => out.push(k),
            Err(e) => {
                assert forall|j: int| 0 <= j < i implies #[trigger] propagator_choice(
                    propagators@[j],
                    features,
                ) is Some by {
                    assert(propagator_choice(propagators@[j], features) == Some(out@[j]));
                }
                return Err(e);
            },
        }
        i = i + 1;
    }
    assert forall|k: int| 0 <= k < n implies #[trigger] propagator_choice(propagators@[k], features)
        is Some by {
        assert(propagator_choice(propagators@[k], features) == Some(out@[k]));
    }
    Ok(out)
}

/// The trace exporter named in the configuration (`Disabled` is the
/// configuration's `none`).
#[derive(Debug)]
#[allow(inconsistent_fields)]
pub enum TracingExporterConfig {
    Disabled,
    Stdout,
    Otlp { endpoint: Option<String> },
    JaegerUdpThriftCompact { agent_host: String, agent_port: u16 },
    JaegerHttpThriftBinary { endpoint: String, username: Option<String>, password: Option<String> },
    Zipkin { collector_endpoint: Option<String> },
}

/// The trace exporter to install.
#[derive(Debug)]
#[allow(inconsistent_fields)]
pub enum TracerPlan {
    Stdout,
    Otlp { endpoint: Option<String> },
    JaegerAgent { host: String, port: u16 },
    JaegerCollector { endpoint: String, username: Option<String>, password: Option<String> },
    Zipkin { collector_endpoint: Option<String> },
}

/// The message when traces go to OTLP and this build lacks OTLP.
pub open spec fn no_otlp_traces_text() -> Seq<char> {
    "The service was compiled without OTLP exporter support, but config exports traces via OTLP."@
}

/// The message when traces go to Jaeger, or to Zipkin, and this build lacks
/// that exporter (the build reports both as Jaeger).
pub open spec fn no_jaeger_traces_text() -> Seq<char> {
    "The service was compiled without Jaeger exporter support, but config exports traces via Jaeger."@
}

/// Whether this build carries the trace exporter `config` names.
pub open spec fn tracing_supported(config: TracingExporterConfig, features: Features) -> bool {
    match config {
        TracingExporterConfig::Otlp { .. } => features.otlp,
        TracingExporterConfig::JaegerUdpThriftCompact { .. } => features.jaeger,
        TracingExporterConfig::JaegerHttpThriftBinary { .. } => features.jaeger,
        TracingExporterConfig::Zipkin { .. } => features.zipkin,
        _ => true,
    }
}

/// The message when this build lacks the trace exporter `config` names.
pub open spec fn tracing_unsupported_text(config: TracingExporterConfig) -> Seq<char> {
    match config {
        TracingExporterConfig::Otlp { .. } => no_otlp_traces_text(),
        _ => no_jaeger_traces_text(),
    }
}

/// `plan` is the trace exporter `config` names, with its settings.
pub open spec fn plans_tracer(config: TracingExporterConfig, plan: Option<TracerPlan>) -> bool {
    match config {
        TracingExporterConfig::Disabled => plan is None,
        TracingExporterConfig::Stdout => plan matches Some(TracerPlan::Stdout),
        TracingExporterConfig::Otlp { endpoint } => plan matches Some(TracerPlan::Otlp { endpoint: e })
            && e == endpoint,
        TracingExporterConfig::JaegerUdpThriftCompact { agent_host, agent_port } => plan matches Some(
            TracerPlan::JaegerAgent { host, port },
        ) && host == agent_host && port == agent_port,
        TracingExporterConfig::JaegerHttpThriftBinary { endpoint, username, password } => plan matches Some(
            TracerPlan::JaegerCollector { endpoint: e, username: u, password: p },
        ) && e == endpoint && u == username && p == password,
        TracingExporterConfig::Zipkin { collector_endpoint } => plan matches Some(
            TracerPlan::Zipkin { collector_endpoint: c },
        ) && c == collector_endpoint,
    }
}

/// A trace exporter plan carries the configured settings unchanged: the
/// OTLP endpoint, the Jaeger agent's host and port, the Jaeger collector's
/// endpoint and credentials, and the Zipkin collector endpoint.
pub proof fn law_tracer_plan_keeps_settings(config: TracingExporterConfig, plan: Option<TracerPlan>)
    requires
        plans_tracer(config, plan),
    ensures
        config matches TracingExporterConfig::Otlp { endpoint } ==> (plan matches Some(
            TracerPlan::Otlp { endpoint: e },
        ) && e == endpoint),
        config matches TracingExporterConfig::JaegerUdpThriftCompact { agent_host, agent_port } ==> (plan
            matches Some(TracerPlan::JaegerAgent { host, port }) && host == agent_host && port == agent_port),
        config matches TracingExporterConfig::JaegerHttpThriftBinary { endpoint, username, password }
            ==> (plan matches Some(TracerPlan::JaegerCollector { endpoint: e, username: u, password: w })
            && e == endpoint && u == username && w == password),
        config matches TracingExporterConfig::Zipkin { collector_endpoint } ==> (plan matches Some(
            TracerPlan::Zipkin { collector_endpoint: c },
        ) && c == collector_endpoint),
        config is Disabled <==> plan is None,
{
}

/// Two configurations that name OTLP with different endpoints never share
/// a plan: the endpoint reaches the exporter.
pub proof fn law_tracer_otlp_endpoint_distinguishes(
    a: Option<String>,
    b: Option<String>,
    plan: Option<TracerPlan>,
)
    requires
        plans_tracer(TracingExporterConfig::Otlp { endpoint: a }, plan),
        plans_tracer(TracingExporterConfig::Otlp { endpoint: b }, plan),
    ensures
        a == b,
{
}

/// Selects the trace exporter: none, standard output, or an exporter that
/// this build must carry.
pub fn tracer(config: TracingExporterConfig, features: Features) -> (r: Result<
    Option<TracerPlan>,
    TelemetryError,
>)
    ensures
        r is Ok <==> tracing_supported(config, features),
        r matches Ok(p) ==> plans_tracer(config, p),
        r matches Err(e) ==> e.message@ == tracing_unsupported_text(config),
        config is Disabled ==> (r matches Ok(p) && p is None),
        config is Stdout ==> (r matches Ok(Some(p)) && p is Stdout),
        config matches TracingExporterConfig::Otlp { endpoint } ==> {
            &&& r is Ok <==> features.otlp
            &&& r is Ok ==> (r matches Ok(Some(TracerPlan::Otlp { endpoint: e })) && e == endpoint)
        },
        config matches TracingExporterConfig::JaegerUdpThriftCompact { agent_host, agent_port } ==> {
            &&& r is Ok <==> features.jaeger
            &&& r is Ok ==> (r matches Ok(Some(TracerPlan::JaegerAgent { host, port })) && host
                == agent_host && port == agent_port)
        },
        config matches TracingExporterConfig::JaegerHttpThriftBinary { endpoint, username, password }
            ==> {
            &&& r is Ok <==> features.jaeger
            &&& r is Ok ==> (r matches Ok(
                Some(TracerPlan::JaegerCollector { endpoint: e, username: u, password: w }),
            ) && e == endpoint && u == username && w == password)
        },
        config matches TracingExporterConfig::Zipkin { collector_endpoint } ==> {
            &&& r is Ok <==> features.zipkin
            &&& r is Ok ==> (r matches Ok(Some(TracerPlan::Zipkin { collector_endpoint: c })) && c
                == collector_endpoint)
        },
{
    match config {
        TracingExporterConfig::Disabled => Ok(None),
        TracingExporterConfig::Stdout => Ok(Some(TracerPlan::Stdout)),
        TracingExporterConfig::Otlp { endpoint } => {
            if features.otlp {
                Ok(Some(TracerPlan::Otlp { endpoint }))
            } else {
                Err(error_text("The service was compiled without OTLP exporter support, but config exports traces via OTLP."))
            }
        },
        TracingExporterConfig::JaegerUdpThriftCompact { agent_host, agent_port } => {
            if features.jaeger {
                Ok(Some(TracerPlan::JaegerAgent { host: agent_host, port: agent_port }))
            } else {
                Err(error_text("The service was compiled without Jaeger exporter support, but config exports traces via Jaeger."))
            }
        },
        TracingExporterConfig::JaegerHttpThriftBinary { endpoint, username, password } => {
            if features.jaeger {
                Ok(Some(TracerPlan::JaegerCollector { endpoint, username, password }))
            } else {
                Err(error_text("The service was compiled without Jaeger exporter support, but config exports traces via Jaeger."))
            }
        },
        TracingExporterConfig::Zipkin { collector_endpoint } => {
            if features.zipkin {
                Ok(Some(TracerPlan::Zipkin { collector_endpoint }))
            } else {
                Err(error_text("The service was compiled without Jaeger exporter support, but config exports traces via Jaeger."))
            }
        },
    }
}

/// The metrics exporter named in the configuration (`Disabled` is the
/// configuration's `none`).
#[derive(Debug)]
pub enum MetricsExporterConfig {
    Disabled,
    Stdout,
    Otlp { endpoint: Option<String> },
    Prometheus,
}

/// The metrics exporter to install.
#[derive(Debug)]
pub enum MeterPlan {
    Stdout,
    Otlp { endpoint: Option<String> },
    Prometheus,
}

/// The message when metrics go to OTLP and this build lacks OTLP.
pub open spec fn no_otlp_metrics_text() -> Seq<char> {
    "The service was compiled without OTLP exporter support, but config exports metrics via OTLP."@
}

/// The message when metrics go to Prometheus and this build lacks it.
pub open spec fn no_prometheus_metrics_text() -> Seq<char> {
    "The service was compiled without Prometheus exporter support, but config exports metrics via Prometheus."@
}

/// Whether this build carries the metrics exporter `config` names.
pub open spec fn metrics_supported(config: MetricsExporterConfig, features: Features) -> bool {
    match config {
        MetricsExporterConfig::Otlp { .. } => features.otlp,
        MetricsExporterConfig::Prometheus => features.prometheus,
        _ => true,
    }
}

/// The message when this build lacks the metrics exporter `config` names.
pub open spec fn metrics_unsupported_text(config: MetricsExporterConfig) -> Seq<char> {
    match config {
        MetricsExporterConfig::Otlp { .. } => no_otlp_metrics_text(),
        _ => no_prometheus_metrics_text(),
    }
}

/// `plan` is the metrics exporter `config` names, with its settings.
pub open spec fn plans_meter(config: MetricsExporterConfig, plan: Option<MeterPlan>) -> bool {
    match config {
        MetricsExporterConfig::Disabled => plan is None,
        MetricsExporterConfig::Stdout => plan matches Some(MeterPlan::Stdout),
        MetricsExporterConfig::Otlp { endpoint } => plan matches Some(MeterPlan::Otlp { endpoint: e })
            && e == endpoint,
        MetricsExporterConfig::Prometheus => plan matches Some(MeterPlan::Prometheus),
    }
}

/// A metrics exporter plan carries the configured OTLP endpoint unchanged,
/// and is absent exactly when metrics are disabled.
pub proof fn law_meter_plan_keeps_settings(config: MetricsExporterConfig, plan: Option<MeterPlan>)
    requires
        plans_meter(config, plan),
    ensures
        config matches MetricsExporterConfig::Otlp { endpoint } ==> (plan matches Some(
            MeterPlan::Otlp { endpoint: e },
        ) && e == endpoint),
        config is Prometheus ==> (plan matches Some(p) && p is Prometheus),
        config is Disabled <==> plan is None,
{
}

/// Two configurations that name OTLP with different endpoints never share
/// a metrics plan.
pub proof fn law_meter_otlp_endpoint_distinguishes(
    a: Option<String>,
    b: Option<String>,
    plan: Option<MeterPlan>,
)
    requires
        plans_meter(MetricsExporterConfig::Otlp { endpoint: a }, plan),
        plans_meter(MetricsExporterConfig::Otlp { endpoint: b }, plan),
    ensures
        a == b,
{
}

/// Selects the metrics exporter: none, standard output, or an exporter
/// that this build must carry.
pub fn meter(config: MetricsExporterConfig, features: Features) -> (r: Result<
    Option<MeterPlan>,
    TelemetryError,
>)
    ensures
        r is Ok <==> metrics_supported(config, features),
        r matches Ok(p) ==> plans_meter(config, p),
        r matches Err(e) ==> e.message@ == metrics_unsupported_text(config),
        config is Disabled ==> (r matches Ok(p) && p is None),
        config is Stdout ==> (r matches Ok(Some(p)) && p is Stdout),
        config matches MetricsExporterConfig::Otlp { endpoint } ==> {
            &&& r is Ok <==> features.otlp
            &&& r is Ok ==> (r matches Ok(Some(MeterPlan::Otlp { endpoint: e })) && e == endpoint)
        },
        config is Prometheus ==> {
            &&& r is Ok <==> features.prometheus
            &&& r is Ok ==> (r matches Ok(Some(p)) && p is Prometheus)
        },
{
    match config {
        MetricsExporterConfig::Disabled => Ok(None),
        MetricsExporterConfig::Stdout => Ok(Some(MeterPlan::Stdout)),
        MetricsExporterConfig::Otlp { endpoint } => {
            if features.otlp {
                Ok(Some(MeterPlan::Otlp { endpoint }))
            } else {
                Err(error_text("The service was compiled without OTLP exporter support, but config exports metrics via OTLP."))
            }
        },
        MetricsExporterConfig::Prometheus => {
            if features.prometheus {
                Ok(Some(MeterPlan::Prometheus))
            } else {
                Err(error_text("The service was compiled without Prometheus exporter support, but config exports metrics via Prometheus."))
            }
        },
    }
}

/// What the Prometheus endpoint answers.
#[derive(Debug)]
pub enum PrometheusReply {
    /// Status 200 with the exporter's metrics, in the encoder's format.
    Metrics,
    /// An error status, as plain text.
    Error { status: u16, content_type: String, body: String },
}

/// The answer the Prometheus service gives every request: the metrics when this build carries
/// the exporter and the configuration set it up; otherwise status 500 with
/// a plain-text reason.
pub fn prometheus_service(compiled: bool, exporter_set_up: bool) -> (r: PrometheusReply)
    ensures
        (compiled && exporter_set_up) <==> r is Metrics,
        !compiled ==> (r matches PrometheusReply::Error { status, content_type, body } && status == 500
            && content_type@ == "text/plain"@ && body@
            == "Prometheus exporter was not enabled at compilation time"@),
        compiled && !exporter_set_up ==> (r matches PrometheusReply::Error { status, content_type, body }
            && status == 500 && content_type@ == "text/plain"@ && body@
            == "Prometheus exporter was not enabled in config"@),
{
    if !compiled {
        PrometheusReply::Error {
            status: 500,
            content_type: String::from_str("text/plain"),
            body: String::from_str("Prometheus exporter was not enabled at compilation time"),
        }
    } else if exporter_set_up {
        PrometheusReply::Metrics
    } else {
        PrometheusReply::Error {
            status: 500,
            content_type: String::from_str("text/plain"),
            body: String::from_str("Prometheus exporter was not enabled in config"),
        }
    }
}

/// The telemetry section of the configuration.
#[derive(Debug)]
pub struct TelemetryConfig {
    pub propagators: Vec<Propagator>,
    pub tracing: TracingExporterConfig,
    pub metrics: MetricsExporterConfig,
}

/// What to install: the propagators, in order, and the trace and metrics
/// exporters, when any.
#[derive(Debug)]
pub struct TelemetryPlan {
    pub propagators: Vec<PropagatorKind>,
    pub tracer: Option<TracerPlan>,
    pub meter: Option<MeterPlan>,
}

/// Why telemetry could not be set up, by the step that failed; a failed
/// trace exporter is reported as "Failed to configure traces exporter", a
/// failed metrics exporter as "Failed to configure metrics exporter".
#[derive(Debug)]
pub enum SetupError {
    Propagator(TelemetryError),
    Tracer(TelemetryError),
    Meter(TelemetryError),
}

/// Plans the telemetry setup: the propagators first, then the trace
/// exporter, then the metrics exporter; the first step that fails decides
/// the error.
pub fn setup(config: TelemetryConfig, features: Features) -> (r: Result<TelemetryPlan, SetupError>)
    ensures
        ({
            let props_ok = forall|i: int| 0 <= i < config.propagators@.len() ==> #[trigger] propagator_choice(
                config.propagators@[i],
                features,
            ) is Some;
            &&& (r matches Err(SetupError::Propagator(_))) <==> !props_ok
            &&& (r matches Err(SetupError::Tracer(e))) <==> props_ok && !tracing_supported(config.tracing, features)
            &&& (r matches Err(SetupError::Meter(_))) <==> props_ok && tracing_supported(config.tracing, features)
                && !metrics_supported(config.metrics, features)
        }),
        r matches Err(SetupError::Tracer(e)) ==> e.message@ == tracing_unsupported_text(config.tracing),
        r matches Err(SetupError::Meter(e)) ==> e.message@ == metrics_unsupported_text(config.metrics),
        r matches Ok(p) ==> {
            &&& p.propagators@.len() == config.propagators@.len()
            &&& forall|i: int| 0 <= i < p.propagators@.len() ==> propagator_choice(config.propagators@[i], features)
                == Some(#[trigger] p.propagators@[i])
            &&& plans_tracer(config.tracing, p.tracer)
            &&& plans_meter(config.metrics, p.meter)
        },
{
    let TelemetryConfig { propagators, tracing, metrics } = config;
    let kinds = match propagator(&propagators, features) {
        Ok(k) => k,
        Err(e) => return Err(SetupError::Propagator(e)),
    };
    let tracer = match tracer(tracing, features) {
        Ok(t) => t,
        Err(e) => return Err(SetupError::Tracer(e)),
    };
    let meter = match meter(metrics, features) {
        Ok(m) => m,
        Err(e) => return Err(SetupError::Meter(e)),
    };
    Ok(TelemetryPlan { propagators: kinds, tracer, meter })
}

} // verus!
