//! The metrics collector service: a callback adapter and a forwarder.

use crate::forward::delivery_error;
use crate::forward::reply_of;
use crate::signal::Signal;
use crate::transport::metrics_request_into_inner;
use crate::transport::metrics_request_message;
use crate::transport::metrics_response;
use crate::transport::metrics_response_new;
use async_channel::Receiver;
use async_channel::SendError;
use async_channel::Sender;
use opentelemetry_proto::tonic::collector::metrics::v1::ExportMetricsServiceRequest;
use opentelemetry_proto::tonic::collector::metrics::v1::ExportMetricsServiceResponse;
use tonic::Status;
use vstd::prelude::*;

verus! {

/// A metrics export call as the transport hands it in.
pub type OtelMetricsRequest = tonic::Request<ExportMetricsServiceRequest>;

/// The answer to a metrics export call as the transport takes it.
pub type OtelMetricsResponse = tonic::Response<ExportMetricsServiceResponse>;

/// A handler of metrics export calls that can be shared between tasks.
pub type OnMetricsFn =
    dyn Fn(OtelMetricsRequest) -> Result<OtelMetricsResponse, Status> + Send + Sync + 'static;

/// The producer side of a queue of metrics requests.
pub type OtelMetricsSender = Sender<ExportMetricsServiceRequest>;

/// The consumer side of a queue of metrics requests.
pub type OtelMetricsReceiver = Receiver<ExportMetricsServiceRequest>;

/// The empty acknowledgement of a metrics export: nothing was turned away.
pub open spec fn acknowledgement() -> OtelMetricsResponse {
    metrics_response(ExportMetricsServiceResponse { partial_success: None })
}

/// Builds the empty acknowledgement of a metrics export, afresh for each call.
pub fn acknowledge() -> (response: OtelMetricsResponse)
    ensures
        response == acknowledgement(),
{
    metrics_response_new(ExportMetricsServiceResponse { partial_success: None })
}

/// A metrics service that answers each export call with what a handler returns.
pub struct OtelMetricsService<F>
where
    F: Fn(OtelMetricsRequest) -> Result<OtelMetricsResponse, Status> + Send + Sync + 'static,
{
    on_metrics: F,
}

impl<F> OtelMetricsService<F>
where
    F: Fn(OtelMetricsRequest) -> Result<OtelMetricsResponse, Status> + Send + Sync + 'static,
{
    /// The handler accepts every request: the transport hands in whatever a
    /// client sent.
    #[verifier::type_invariant]
    spec fn handler_is_total(self) -> bool {
        forall|request: OtelMetricsRequest| call_requires(self.on_metrics, (request,))
    }

    /// The handler that the service was made with.
    pub closed spec fn handler(self) -> F {
        self.on_metrics
    }

    /// Whether `answer` is something that the handler may return for
    /// `request`.
    pub open spec fn answers(
        self,
        request: OtelMetricsRequest,
        answer: Result<OtelMetricsResponse, Status>,
    ) -> bool {
        call_ensures(self.handler(), (request,), answer)
    }

    /// Creates a metrics service with the given handler.
    pub fn with_handler(handler: F) -> (service: Self)
        requires
            forall|request: OtelMetricsRequest| call_requires(handler, (request,)),
        ensures
            service.handler() == handler,
    {
        OtelMetricsService { on_metrics: handler }
    }

    /// Answers an export call: hands the request to the handler, untouched,
    /// and returns what the handler returns, untouched.
    pub fn export(&self, request: OtelMetricsRequest) -> (answer: Result<OtelMetricsResponse, Status>)
        ensures
            self.answers(request, answer),
    {
        proof {
            use_type_invariant(self);
        }
        (self.on_metrics)(request)
    }

    /// Under a handler that returns the same acknowledgement for every
    /// request, every export call returns that acknowledgement.
    pub proof fn lemma_export_repeats_acknowledgement(
        self,
        request: OtelMetricsRequest,
        answer: Result<OtelMetricsResponse, Status>,
        response: OtelMetricsResponse,
    )
        requires
            forall|any: OtelMetricsRequest, given: Result<OtelMetricsResponse, Status>|
                call_ensures(self.handler(), (any,), given) ==> given == Ok::<
                    OtelMetricsResponse,
                    Status,
                >(response),
            self.answers(request, answer),
        ensures
            answer == Ok::<OtelMetricsResponse, Status>(response),
    {
    }

    /// Under a handler that returns the same error for every request, every
    /// export call returns that error.
    pub proof fn lemma_export_repeats_error(
        self,
        request: OtelMetricsRequest,
        answer: Result<OtelMetricsResponse, Status>,
        error: Status,
    )
        requires
            forall|any: OtelMetricsRequest, given: Result<OtelMetricsResponse, Status>|
                call_ensures(self.handler(), (any,), given) ==> given == Err::<
                    OtelMetricsResponse,
                    Status,
                >(error),
            self.answers(request, answer),
        ensures
            answer == Err::<OtelMetricsResponse, Status>(error),
    {
    }
}

/// Creates the service that answers metrics export calls with `handler`.
pub fn make_service<F>(handler: F) -> (service: OtelMetricsService<F>)
    where
        F: Fn(OtelMetricsRequest) -> Result<OtelMetricsResponse, Status> + Send + Sync + 'static,
    requires
        forall|request: OtelMetricsRequest| call_requires(handler, (request,)),
    ensures
        service.handler() == handler,
{
    OtelMetricsService::with_handler(handler)
}

/// A metrics service that puts each request on a queue of metrics requests.
///
/// One export call takes three steps. `outgoing` gives the item for the
/// queue. The caller sends that item through `sender` and awaits the queue.
/// `reply` turns what the queue said into the answer.
pub struct OtelMetricsServiceForwarder {
    channel: Sender<ExportMetricsServiceRequest>,
}

impl OtelMetricsServiceForwarder {
    /// The producer handle that the forwarder was made with.
    pub closed spec fn queue(self) -> Sender<ExportMetricsServiceRequest> {
        self.channel
    }

    /// The item that an export call offers to the queue: the message of the
    /// request.
    pub open spec fn outgoing_of(request: OtelMetricsRequest) -> ExportMetricsServiceRequest {
        metrics_request_message(request)
    }

    /// Creates a metrics forwarder that feeds the queue behind `channel`.
    pub fn with_sender(channel: Sender<ExportMetricsServiceRequest>) -> (forwarder: Self)
        ensures
            forwarder.queue() == channel,
    {
        OtelMetricsServiceForwarder { channel }
    }

    /// The producer handle through which the items are to be sent.
    pub fn sender(&self) -> (channel: &Sender<ExportMetricsServiceRequest>)
        ensures
            *channel == self.queue(),
    {
        &self.channel
    }

    /// Gives the one item that this export call has to put on the queue.
    pub fn outgoing(&self, request: OtelMetricsRequest) -> (item: ExportMetricsServiceRequest)
        ensures
            item == Self::outgoing_of(request),
    {
        metrics_request_into_inner(request)
    }

    /// Answers the export call once the queue has taken its item or handed
    /// it back. The answer does not wait for a consumer to read the item.
    pub fn reply(&self, outcome: Result<(), SendError<ExportMetricsServiceRequest>>) -> (answer: Result<
        OtelMetricsResponse,
        Status,
    >)
        ensures
            answer == reply_of(Signal::Metrics, acknowledgement(), outcome),
    {
        match outcome {
            Ok(_) => Ok(acknowledge()),
            Err(error) => Err(delivery_error(Signal::Metrics, &error)),
        }
    }
}

/// Creates the service that forwards metrics export calls to the queue behind
/// `sender`.
pub fn make_forwarder(sender: OtelMetricsSender) -> (forwarder: OtelMetricsServiceForwarder)
    ensures
        forwarder.queue() == sender,
{
    OtelMetricsServiceForwarder::with_sender(sender)
}

} // verus!
