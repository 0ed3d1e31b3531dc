//! What the crate takes from the gRPC transport and from the generated
//! collector messages.
//!
//! Nothing in this file is proved. The types are declared so that they can be
//! named; each function makes one call and is believed to do what its
//! contract says.

use opentelemetry_proto::tonic::collector::logs::v1::ExportLogsPartialSuccess;
use opentelemetry_proto::tonic::collector::logs::v1::ExportLogsServiceRequest;
use opentelemetry_proto::tonic::collector::logs::v1::ExportLogsServiceResponse;
use opentelemetry_proto::tonic::collector::metrics::v1::ExportMetricsPartialSuccess;
use opentelemetry_proto::tonic::collector::metrics::v1::ExportMetricsServiceRequest;
use opentelemetry_proto::tonic::collector::metrics::v1::ExportMetricsServiceResponse;
use opentelemetry_proto::tonic::collector::trace::v1::ExportTracePartialSuccess;
use opentelemetry_proto::tonic::collector::trace::v1::ExportTraceServiceRequest;
use opentelemetry_proto::tonic::collector::trace::v1::ExportTraceServiceResponse;
use vstd::prelude::*;

verus! {

/// `tonic::Request`: a message together with the metadata of the call that
/// brought it.
#[verifier::external_type_specification]
#[verifier::external_body]
#[verifier::reject_recursive_types(T)]
pub struct ExRequest<T>(tonic::Request<T>);

/// `tonic::Response`: a message together with the metadata of the answer.
#[verifier::external_type_specification]
#[verifier::external_body]
#[verifier::reject_recursive_types(T)]
pub struct ExResponse<T>(tonic::Response<T>);

/// `tonic::Status`: the failure of a call, as the transport reports it to the
/// remote caller.
#[verifier::external_type_specification]
#[verifier::external_body]
pub struct ExStatus(tonic::Status);

/// `ExportLogsServiceRequest` of `opentelemetry_proto`: the batch of log
/// records that one export call carries.
#[verifier::external_type_specification]
#[verifier::external_body]
pub struct ExLogsRequest(ExportLogsServiceRequest);

/// `ExportMetricsServiceRequest` of `opentelemetry_proto`: the batch of metric
/// data that one export call carries.
#[verifier::external_type_specification]
#[verifier::external_body]
pub struct ExMetricsRequest(ExportMetricsServiceRequest);

/// `ExportTraceServiceRequest` of `opentelemetry_proto`: the batch of spans
/// that one export call carries.
#[verifier::external_type_specification]
#[verifier::external_body]
pub struct ExTraceRequest(ExportTraceServiceRequest);

/// `ExportLogsServiceResponse` of `opentelemetry_proto`: the acknowledgement
/// of a logs export. It is declared with its one public field, which reports
/// records that were turned away, so that the empty acknowledgement can be
/// written out.
#[verifier::external_type_specification]
pub struct ExLogsResponse(ExportLogsServiceResponse);

/// `ExportLogsPartialSuccess` of `opentelemetry_proto`: the part of a logs
/// acknowledgement that reports rejected records.
#[verifier::external_type_specification]
#[verifier::external_body]
pub struct ExLogsPartialSuccess(ExportLogsPartialSuccess);

/// `ExportMetricsServiceResponse` of `opentelemetry_proto`: the
/// acknowledgement of a metrics export. It is declared with its one public
/// field, which reports data points that were turned away, so that the empty
/// acknowledgement can be written out.
#[verifier::external_type_specification]
pub struct ExMetricsResponse(ExportMetricsServiceResponse);

/// `ExportMetricsPartialSuccess` of `opentelemetry_proto`: the part of a
/// metrics acknowledgement that reports rejected data points.
#[verifier::external_type_specification]
#[verifier::external_body]
pub struct ExMetricsPartialSuccess(ExportMetricsPartialSuccess);

/// `ExportTraceServiceResponse` of `opentelemetry_proto`: the acknowledgement
/// of a trace export. It is declared with its one public field, which reports
/// spans that were turned away, so that the empty acknowledgement can be
/// written out.
#[verifier::external_type_specification]
pub struct ExTraceResponse(ExportTraceServiceResponse);

/// `ExportTracePartialSuccess` of `opentelemetry_proto`: the part of a trace
/// acknowledgement that reports rejected spans.
#[verifier::external_type_specification]
#[verifier::external_body]
pub struct ExTracePartialSuccess(ExportTracePartialSuccess);

/// What `tonic::Request::into_inner` gives for a logs request: the message
/// that the request carries.
pub uninterp spec fn logs_request_message(
    request: tonic::Request<ExportLogsServiceRequest>,
) -> ExportLogsServiceRequest;

/// What `tonic::Request::into_inner` gives for a metrics request: the message
/// that the request carries.
pub uninterp spec fn metrics_request_message(
    request: tonic::Request<ExportMetricsServiceRequest>,
) -> ExportMetricsServiceRequest;

/// What `tonic::Request::into_inner` gives for a trace request: the message
/// that the request carries.
pub uninterp spec fn trace_request_message(
    request: tonic::Request<ExportTraceServiceRequest>,
) -> ExportTraceServiceRequest;

/// What `tonic::Response::new` gives for a logs acknowledgement: the response
/// that carries `message` and nothing else.
pub uninterp spec fn logs_response(
    message: ExportLogsServiceResponse,
) -> tonic::Response<ExportLogsServiceResponse>;

/// What `tonic::Response::new` gives for a metrics acknowledgement: the response
/// that carries `message` and nothing else.
pub uninterp spec fn metrics_response(
    message: ExportMetricsServiceResponse,
) -> tonic::Response<ExportMetricsServiceResponse>;

/// What `tonic::Response::new` gives for a trace acknowledgement: the response
/// that carries `message` and nothing else.
pub uninterp spec fn trace_response(
    message: ExportTraceServiceResponse,
) -> tonic::Response<ExportTraceServiceResponse>;

/// What `tonic::Status::internal` gives for a message: the status with the
/// code `Internal` and that message.
pub uninterp spec fn internal_status(message: Seq<char>) -> tonic::Status;

/// `tonic::Request::into_inner` on a logs request: gives the message and
/// drops the metadata and the extensions.
#[verifier::external_body]
pub(crate) fn logs_request_into_inner(request: tonic::Request<ExportLogsServiceRequest>) -> (message:
    ExportLogsServiceRequest)
    ensures
        message == logs_request_message(request),
{
    request.into_inner()
}

/// `tonic::Request::into_inner` on a metrics request: gives the message and
/// drops the metadata and the extensions.
#[verifier::external_body]
pub(crate) fn metrics_request_into_inner(
    request: tonic::Request<ExportMetricsServiceRequest>,
) -> (message: ExportMetricsServiceRequest)
    ensures
        message == metrics_request_message(request),
{
    request.into_inner()
}

/// `tonic::Request::into_inner` on a trace request: gives the message and
/// drops the metadata and the extensions.
#[verifier::external_body]
pub(crate) fn trace_request_into_inner(
    request: tonic::Request<ExportTraceServiceRequest>,
) -> (message: ExportTraceServiceRequest)
    ensures
        message == trace_request_message(request),
{
    request.into_inner()
}

/// `tonic::Response::new` on a logs acknowledgement: wraps the message with
/// empty metadata and no extensions.
#[verifier::external_body]
pub(crate) fn logs_response_new(message: ExportLogsServiceResponse) -> (response: tonic::Response<
    ExportLogsServiceResponse,
>)
    ensures
        response == logs_response(message),
{
    tonic::Response::new(message)
}

/// `tonic::Response::new` on a metrics acknowledgement: wraps the message
/// with empty metadata and no extensions.
#[verifier::external_body]
pub(crate) fn metrics_response_new(message: ExportMetricsServiceResponse) -> (response:
    tonic::Response<ExportMetricsServiceResponse>)
    ensures
        response == metrics_response(message),
{
    tonic::Response::new(message)
}

/// `tonic::Response::new` on a trace acknowledgement: wraps the message with
/// empty metadata and no extensions.
#[verifier::external_body]
pub(crate) fn trace_response_new(message: ExportTraceServiceResponse) -> (response:
    tonic::Response<ExportTraceServiceResponse>)
    ensures
        response == trace_response(message),
{
    tonic::Response::new(message)
}

/// `tonic::Status::internal`: builds the status with the code `Internal` and
/// the given message, without details, metadata or source.
#[verifier::external_body]
pub(crate) fn status_internal(message: String) -> (status: tonic::Status)
    ensures
        status == internal_status(message@),
{
    tonic::Status::internal(message)
}

} // verus!
