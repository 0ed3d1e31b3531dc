use opentelemetry_proto::tonic::collector::logs::v1::logs_service_server;
use opentelemetry_proto::tonic::collector::metrics::v1::metrics_service_server;
use opentelemetry_proto::tonic::collector::trace::v1::trace_service_server;
use otelapis::signal::dispatch_failure_message;
use otelapis::signal::Signal;
use tonic::server::NamedService;

#[test]
fn labels_are_the_three_signal_words() {
    assert_eq!(Signal::Logs.label(), "Logs");
    assert_eq!(Signal::Metrics.label(), "Metrics");
    assert_eq!(Signal::Trace.label(), "Trace");
}

#[test]
fn service_names_are_the_canonical_ones() {
    assert_eq!(
        Signal::Logs.service_name(),
        "opentelemetry.proto.collector.logs.v1.LogsService"
    );
    assert_eq!(
        Signal::Metrics.service_name(),
        "opentelemetry.proto.collector.metrics.v1.MetricsService"
    );
    assert_eq!(
        Signal::Trace.service_name(),
        "opentelemetry.proto.collector.trace.v1.TraceService"
    );
}

#[test]
fn service_names_match_the_generated_servers() {
    assert_eq!(Signal::Logs.service_name(), logs_service_server::SERVICE_NAME);
    assert_eq!(
        Signal::Metrics.service_name(),
        metrics_service_server::SERVICE_NAME
    );
    assert_eq!(Signal::Trace.service_name(), trace_service_server::SERVICE_NAME);
    assert_eq!(
        Signal::Logs.service_name(),
        <logs_service_server::LogsServiceServer<()> as NamedService>::NAME
    );
    assert_eq!(
        Signal::Metrics.service_name(),
        <metrics_service_server::MetricsServiceServer<()> as NamedService>::NAME
    );
    assert_eq!(
        Signal::Trace.service_name(),
        <trace_service_server::TraceServiceServer<()> as NamedService>::NAME
    );
}

#[test]
fn service_names_differ_between_signals() {
    assert_ne!(Signal::Logs.service_name(), Signal::Metrics.service_name());
    assert_ne!(Signal::Logs.service_name(), Signal::Trace.service_name());
    assert_ne!(Signal::Metrics.service_name(), Signal::Trace.service_name());
}

#[test]
fn failure_message_of_logs_is_exact() {
    assert_eq!(
        dispatch_failure_message(Signal::Logs, "sending into a closed channel"),
        "Logs gRPC forwarder channel sender failed to dispatch sending into a closed channel"
    );
}

#[test]
fn failure_message_of_metrics_is_exact() {
    assert_eq!(
        dispatch_failure_message(Signal::Metrics, "sending into a closed channel"),
        "Metrics gRPC forwarder channel sender failed to dispatch sending into a closed channel"
    );
}

#[test]
fn failure_message_of_trace_is_exact() {
    assert_eq!(
        dispatch_failure_message(Signal::Trace, "sending into a closed channel"),
        "Trace gRPC forwarder channel sender failed to dispatch sending into a closed channel"
    );
}

#[test]
fn failure_message_keeps_an_empty_reason() {
    assert_eq!(
        dispatch_failure_message(Signal::Logs, ""),
        "Logs gRPC forwarder channel sender failed to dispatch "
    );
}

#[test]
fn failure_message_does_not_shorten_a_long_reason() {
    let reason = "x".repeat(100_000);
    let message = dispatch_failure_message(Signal::Trace, &reason);
    assert_eq!(
        message.len(),
        "Trace gRPC forwarder channel sender failed to dispatch ".len() + 100_000
    );
    assert!(message.starts_with("Trace gRPC forwarder channel sender failed to dispatch "));
    assert!(message.ends_with(&reason));
}

#[test]
fn failure_message_keeps_a_reason_that_is_not_ascii() {
    assert_eq!(
        dispatch_failure_message(Signal::Metrics, "geschlossen: \u{fc}berf\u{fc}llt"),
        "Metrics gRPC forwarder channel sender failed to dispatch geschlossen: \u{fc}berf\u{fc}llt"
    );
}

#[test]
fn signals_compare_by_kind() {
    assert_eq!(Signal::Logs, Signal::Logs);
    assert_ne!(Signal::Logs, Signal::Metrics);
    assert_ne!(Signal::Metrics, Signal::Trace);
    let copy = Signal::Trace;
    assert_eq!(copy, Signal::Trace);
}
