use opentelemetry_proto::tonic::collector::logs::v1::ExportLogsPartialSuccess;
use opentelemetry_proto::tonic::collector::logs::v1::ExportLogsServiceRequest;
use opentelemetry_proto::tonic::collector::logs::v1::ExportLogsServiceResponse;
use opentelemetry_proto::tonic::collector::metrics::v1::ExportMetricsServiceRequest;
use opentelemetry_proto::tonic::collector::metrics::v1::ExportMetricsServiceResponse;
use opentelemetry_proto::tonic::collector::trace::v1::ExportTraceServiceRequest;
use opentelemetry_proto::tonic::collector::trace::v1::ExportTraceServiceResponse;
use opentelemetry_proto::tonic::logs::v1::ResourceLogs;
use opentelemetry_proto::tonic::metrics::v1::ResourceMetrics;
use opentelemetry_proto::tonic::trace::v1::ResourceSpans;
use otelapis::logs::OnLogsFn;
use otelapis::logs::OtelLogsRequest;
use otelapis::logs::OtelLogsResponse;
use otelapis::logs::OtelLogsService;
use otelapis::metrics::OnMetricsFn;
use otelapis::metrics::OtelMetricsRequest;
use otelapis::metrics::OtelMetricsResponse;
use otelapis::metrics::OtelMetricsService;
use otelapis::trace::OnTraceFn;
use otelapis::trace::OtelTraceRequest;
use otelapis::trace::OtelTraceResponse;
use otelapis::trace::OtelTraceService;
use std::sync::atomic::AtomicUsize;
use std::sync::atomic::Ordering;
use std::sync::Arc;
use tonic::Code;
use tonic::Status;

fn logs_batch(marks: &[&str]) -> ExportLogsServiceRequest {
    ExportLogsServiceRequest {
        resource_logs: marks
            .iter()
            .map(|mark| ResourceLogs {
                resource: None,
                scope_logs: Vec::new(),
                schema_url: mark.to_string(),
            })
            .collect(),
    }
}

fn metrics_batch(marks: &[&str]) -> ExportMetricsServiceRequest {
    ExportMetricsServiceRequest {
        resource_metrics: marks
            .iter()
            .map(|mark| ResourceMetrics {
                resource: None,
                scope_metrics: Vec::new(),
                schema_url: mark.to_string(),
            })
            .collect(),
    }
}

fn trace_batch(marks: &[&str]) -> ExportTraceServiceRequest {
    ExportTraceServiceRequest {
        resource_spans: marks
            .iter()
            .map(|mark| ResourceSpans {
                resource: None,
                scope_spans: Vec::new(),
                schema_url: mark.to_string(),
            })
            .collect(),
    }
}

fn logs_always_ok(_request: OtelLogsRequest) -> Result<OtelLogsResponse, Status> {
    Ok(tonic::Response::new(ExportLogsServiceResponse::default()))
}

fn metrics_always_ok(_request: OtelMetricsRequest) -> Result<OtelMetricsResponse, Status> {
    Ok(tonic::Response::new(ExportMetricsServiceResponse::default()))
}

fn trace_always_ok(_request: OtelTraceRequest) -> Result<OtelTraceResponse, Status> {
    Ok(tonic::Response::new(ExportTraceServiceResponse::default()))
}

fn logs_always_fails(_request: OtelLogsRequest) -> Result<OtelLogsResponse, Status> {
    Err(Status::permission_denied("logs are not welcome"))
}

fn metrics_always_fails(_request: OtelMetricsRequest) -> Result<OtelMetricsResponse, Status> {
    Err(Status::unavailable("metrics are not welcome"))
}

fn trace_always_fails(_request: OtelTraceRequest) -> Result<OtelTraceResponse, Status> {
    Err(Status::invalid_argument("traces are not welcome"))
}

#[test]
fn logs_callback_returns_the_acknowledgement_of_its_handler() {
    let service = OtelLogsService::with_handler(logs_always_ok);
    let payloads = [logs_batch(&[]), logs_batch(&["a"]), logs_batch(&["a", "b", "c"])];
    for payload in payloads {
        let answer = service.export(tonic::Request::new(payload));
        let response = answer.expect("the handler never fails");
        assert_eq!(response.into_inner(), ExportLogsServiceResponse::default());
    }
}

#[test]
fn metrics_callback_returns_the_acknowledgement_of_its_handler() {
    let service = OtelMetricsService::with_handler(metrics_always_ok);
    let payloads = [metrics_batch(&[]), metrics_batch(&["a"]), metrics_batch(&["a", "b"])];
    for payload in payloads {
        let answer = service.export(tonic::Request::new(payload));
        let response = answer.expect("the handler never fails");
        assert_eq!(response.into_inner(), ExportMetricsServiceResponse::default());
    }
}

#[test]
fn trace_callback_returns_the_acknowledgement_of_its_handler() {
    let service = OtelTraceService::with_handler(trace_always_ok);
    let payloads = [trace_batch(&[]), trace_batch(&["a"]), trace_batch(&["a", "b"])];
    for payload in payloads {
        let answer = service.export(tonic::Request::new(payload));
        let response = answer.expect("the handler never fails");
        assert_eq!(response.into_inner(), ExportTraceServiceResponse::default());
    }
}

#[test]
fn logs_callback_returns_the_error_of_its_handler() {
    let service = OtelLogsService::with_handler(logs_always_fails);
    for payload in [logs_batch(&[]), logs_batch(&["a", "b"])] {
        let status = service
            .export(tonic::Request::new(payload))
            .expect_err("the handler always fails");
        assert_eq!(status.code(), Code::PermissionDenied);
        assert_eq!(status.message(), "logs are not welcome");
    }
}

#[test]
fn metrics_callback_returns_the_error_of_its_handler() {
    let service = OtelMetricsService::with_handler(metrics_always_fails);
    for payload in [metrics_batch(&[]), metrics_batch(&["a", "b"])] {
        let status = service
            .export(tonic::Request::new(payload))
            .expect_err("the handler always fails");
        assert_eq!(status.code(), Code::Unavailable);
        assert_eq!(status.message(), "metrics are not welcome");
    }
}

#[test]
fn trace_callback_returns_the_error_of_its_handler() {
    let service = OtelTraceService::with_handler(trace_always_fails);
    for payload in [trace_batch(&[]), trace_batch(&["a", "b"])] {
        let status = service
            .export(tonic::Request::new(payload))
            .expect_err("the handler always fails");
        assert_eq!(status.code(), Code::InvalidArgument);
        assert_eq!(status.message(), "traces are not welcome");
    }
}

#[test]
fn callback_hands_the_request_over_untouched() {
    let service = OtelLogsService::with_handler(|request: OtelLogsRequest| {
        let caller = request
            .metadata()
            .get("caller")
            .map(|value| value.to_str().unwrap_or("").to_string())
            .unwrap_or_default();
        let records = request.into_inner().resource_logs.len();
        Ok(tonic::Response::new(ExportLogsServiceResponse {
            partial_success: Some(ExportLogsPartialSuccess {
                rejected_log_records: records as i64,
                error_message: caller,
            }),
        }))
    });
    let mut request = tonic::Request::new(logs_batch(&["a", "b", "c"]));
    request
        .metadata_mut()
        .insert("caller", "unit-test".parse().unwrap());
    let response = service.export(request).expect("the handler never fails");
    assert_eq!(
        response.into_inner(),
        ExportLogsServiceResponse {
            partial_success: Some(ExportLogsPartialSuccess {
                rejected_log_records: 3,
                error_message: "unit-test".to_string(),
            }),
        }
    );
}

#[test]
fn callback_hands_the_answer_back_untouched() {
    let service = OtelTraceService::with_handler(|_request: OtelTraceRequest| {
        let mut response = tonic::Response::new(ExportTraceServiceResponse::default());
        response
            .metadata_mut()
            .insert("seen-by", "handler".parse().unwrap());
        Ok(response)
    });
    let response = service
        .export(tonic::Request::new(trace_batch(&["a"])))
        .expect("the handler never fails");
    assert_eq!(
        response.metadata().get("seen-by").map(|v| v.to_str().unwrap()),
        Some("handler")
    );
}

#[test]
fn callback_calls_its_handler_once_per_export() {
    let calls = Arc::new(AtomicUsize::new(0));
    let seen = calls.clone();
    let service = OtelMetricsService::with_handler(move |_request: OtelMetricsRequest| {
        seen.fetch_add(1, Ordering::SeqCst);
        Ok(tonic::Response::new(ExportMetricsServiceResponse::default()))
    });
    for round in 1..=5usize {
        let answer = service.export(tonic::Request::new(metrics_batch(&["a"])));
        assert!(answer.is_ok());
        assert_eq!(calls.load(Ordering::SeqCst), round);
    }
}

#[test]
fn callback_answers_follow_the_handler_call_by_call() {
    let service = OtelLogsService::with_handler(|request: OtelLogsRequest| {
        if request.get_ref().resource_logs.is_empty() {
            Err(Status::invalid_argument("empty batch"))
        } else {
            Ok(tonic::Response::new(ExportLogsServiceResponse::default()))
        }
    });
    assert!(service.export(tonic::Request::new(logs_batch(&["a"]))).is_ok());
    let status = service
        .export(tonic::Request::new(logs_batch(&[])))
        .expect_err("an empty batch is refused by this handler");
    assert_eq!(status.code(), Code::InvalidArgument);
    assert_eq!(status.message(), "empty batch");
    assert!(service.export(tonic::Request::new(logs_batch(&["b"]))).is_ok());
}

#[test]
fn make_service_takes_a_boxed_logs_handler() {
    let handler: Box<OnLogsFn> = Box::new(logs_always_ok);
    let service = otelapis::logs::make_service(handler);
    let answer = service.export(tonic::Request::new(logs_batch(&["a"])));
    assert_eq!(
        answer.expect("the handler never fails").into_inner(),
        ExportLogsServiceResponse::default()
    );
}

#[test]
fn make_service_takes_a_boxed_metrics_handler() {
    let handler: Box<OnMetricsFn> = Box::new(metrics_always_fails);
    let service = otelapis::metrics::make_service(handler);
    let status = service
        .export(tonic::Request::new(metrics_batch(&["a"])))
        .expect_err("the handler always fails");
    assert_eq!(status.code(), Code::Unavailable);
    assert_eq!(status.message(), "metrics are not welcome");
}

#[test]
fn make_service_takes_a_boxed_trace_handler() {
    let handler: Box<OnTraceFn> = Box::new(trace_always_ok);
    let service = otelapis::trace::make_service(handler);
    let answer = service.export(tonic::Request::new(trace_batch(&["a"])));
    assert_eq!(
        answer.expect("the handler never fails").into_inner(),
        ExportTraceServiceResponse::default()
    );
}

#[test]
fn callback_service_answers_calls_that_run_side_by_side() {
    let service = OtelLogsService::with_handler(logs_always_ok);
    let shared = &service;
    let calls = (0..8).map(|_| {
        futures::future::lazy(move |_| {
            shared
                .export(tonic::Request::new(logs_batch(&["a"])))
                .is_ok()
        })
    });
    let answers = futures::executor::block_on(futures::future::join_all(calls));
    assert_eq!(answers, vec![true; 8]);
}
