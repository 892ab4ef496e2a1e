use mas_core::telemetry::{
    match_propagator, meter, prometheus_service, propagator, setup, tracer, Features, MeterPlan,
    MetricsExporterConfig, PrometheusReply, Propagator, PropagatorKind, SetupError,
    TelemetryConfig, TracerPlan, TracingExporterConfig,
};

const ALL: Features = Features { jaeger: true, zipkin: true, otlp: true, prometheus: true };
const NONE: Features = Features { jaeger: false, zipkin: false, otlp: false, prometheus: false };

#[test]
fn propagators_in_order() {
    let ps = vec![Propagator::Baggage, Propagator::TraceContext, Propagator::B3Multi, Propagator::B3, Propagator::Jaeger];
    assert_eq!(
        propagator(&ps, ALL).unwrap(),
        vec![
            PropagatorKind::Baggage,
            PropagatorKind::TraceContext,
            PropagatorKind::B3MultipleHeader,
            PropagatorKind::B3SingleHeader,
            PropagatorKind::Jaeger
        ]
    );
    let e = propagator(&ps, NONE).err().unwrap();
    assert_eq!(
        e.message,
        "The service was compiled without support for the B3Multi propagator, but config uses it."
    );
    assert!(match_propagator(Propagator::TraceContext, NONE).is_ok());
    assert_eq!(
        match_propagator(Propagator::Jaeger, NONE).err().unwrap().message,
        "The service was compiled without support for the Jaeger propagator, but config uses it."
    );
}

#[test]
fn trace_exporters() {
    assert!(tracer(TracingExporterConfig::Disabled, NONE).unwrap().is_none());
    assert!(matches!(tracer(TracingExporterConfig::Stdout, NONE), Ok(Some(TracerPlan::Stdout))));
    let e = tracer(TracingExporterConfig::Otlp { endpoint: None }, NONE).err().unwrap();
    assert_eq!(e.message, "The service was compiled without OTLP exporter support, but config exports traces via OTLP.");
    let e = tracer(TracingExporterConfig::Zipkin { collector_endpoint: None }, NONE).err().unwrap();
    assert_eq!(e.message, "The service was compiled without Jaeger exporter support, but config exports traces via Jaeger.");
    match tracer(
        TracingExporterConfig::JaegerUdpThriftCompact { agent_host: "localhost".to_owned(), agent_port: 6831 },
        ALL,
    ) {
        Ok(Some(TracerPlan::JaegerAgent { host, port })) => {
            assert_eq!(host, "localhost");
            assert_eq!(port, 6831);
        }
        _ => panic!("expected a Jaeger agent"),
    }
    match tracer(
        TracingExporterConfig::JaegerHttpThriftBinary {
            endpoint: "http://jaeger/api".to_owned(),
            username: Some("u".to_owned()),
            password: None,
        },
        ALL,
    ) {
        Ok(Some(TracerPlan::JaegerCollector { endpoint, username, password })) => {
            assert_eq!(endpoint, "http://jaeger/api");
            assert_eq!(username.as_deref(), Some("u"));
            assert_eq!(password, None);
        }
        _ => panic!("expected a Jaeger collector"),
    }
}

#[test]
fn metrics_exporters() {
    assert!(meter(MetricsExporterConfig::Disabled, NONE).unwrap().is_none());
    assert!(matches!(meter(MetricsExporterConfig::Stdout, NONE), Ok(Some(MeterPlan::Stdout))));
    assert!(matches!(meter(MetricsExporterConfig::Prometheus, ALL), Ok(Some(MeterPlan::Prometheus))));
    let e = meter(MetricsExporterConfig::Prometheus, NONE).err().unwrap();
    assert_eq!(
        e.message,
        "The service was compiled without Prometheus exporter support, but config exports metrics via Prometheus."
    );
    let e = meter(MetricsExporterConfig::Otlp { endpoint: None }, NONE).err().unwrap();
    assert_eq!(e.message, "The service was compiled without OTLP exporter support, but config exports metrics via OTLP.");
}

#[test]
fn setup_fails_at_the_first_step() {
    let config = TelemetryConfig {
        propagators: vec![Propagator::TraceContext],
        tracing: TracingExporterConfig::Otlp { endpoint: Some("http://otel".to_owned()) },
        metrics: MetricsExporterConfig::Prometheus,
    };
    assert!(matches!(setup(config, NONE), Err(SetupError::Tracer(_))));
    let config = TelemetryConfig {
        propagators: vec![Propagator::B3],
        tracing: TracingExporterConfig::Otlp { endpoint: None },
        metrics: MetricsExporterConfig::Prometheus,
    };
    assert!(matches!(setup(config, NONE), Err(SetupError::Propagator(_))));
    let config = TelemetryConfig {
        propagators: vec![],
        tracing: TracingExporterConfig::Stdout,
        metrics: MetricsExporterConfig::Prometheus,
    };
    assert!(matches!(setup(config, NONE), Err(SetupError::Meter(_))));
    let config = TelemetryConfig {
        propagators: vec![Propagator::TraceContext, Propagator::Baggage],
        tracing: TracingExporterConfig::Disabled,
        metrics: MetricsExporterConfig::Stdout,
    };
    let plan = setup(config, NONE).unwrap();
    assert_eq!(plan.propagators, vec![PropagatorKind::TraceContext, PropagatorKind::Baggage]);
    assert!(plan.tracer.is_none());
    assert!(matches!(plan.meter, Some(MeterPlan::Stdout)));
}

#[test]
fn prometheus_replies() {
    assert!(matches!(prometheus_service(true, true), PrometheusReply::Metrics));
    match prometheus_service(false, true) {
        PrometheusReply::Error { status, content_type, body } => {
            assert_eq!(status, 500);
            assert_eq!(content_type, "text/plain");
            assert_eq!(body, "Prometheus exporter was not enabled at compilation time");
        }
        _ => panic!("expected an error"),
    }
    match prometheus_service(true, false) {
        PrometheusReply::Error { status, body, .. } => {
            assert_eq!(status, 500);
            assert_eq!(body, "Prometheus exporter was not enabled in config");
        }
        _ => panic!("expected an error"),
    }
}
