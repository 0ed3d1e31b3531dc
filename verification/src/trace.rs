//! The trace collector service: a callback adapter and a forwarder.

use crate::forward::delivery_error;
use crate::forward::reply_of;
use crate::signal::Signal;
use crate::transport::trace_request_into_inner;
use crate::transport::trace_request_message;
use crate::transport::trace_response;
use crate::transport::trace_response_new;
use async_channel::Receiver;
use async_channel::SendError;
use async_channel::Sender;
use opentelemetry_proto::tonic::collector::trace::v1::ExportTraceServiceRequest;
use opentelemetry_proto::tonic::collector::trace::v1::ExportTraceServiceResponse;
use tonic::Status;
use vstd::prelude::*;

verus! {

/// A trace export call as the transport hands it in.
pub type OtelTraceRequest = tonic::Request<ExportTraceServiceRequest>;

/// The answer to a trace export call as the transport takes it.
pub type OtelTraceResponse = tonic::Response<ExportTraceServiceResponse>;

/// A handler of trace export calls that can be shared between tasks.
pub type OnTraceFn =
    dyn Fn(OtelTraceRequest) -> Result<OtelTraceResponse, Status> + Send + Sync + 'static;

/// The producer side of a queue of trace requests.
pub type OtelTraceSender = Sender<ExportTraceServiceRequest>;

/// The consumer side of a queue of trace requests.
pub type OtelTraceReceiver = Receiver<ExportTraceServiceRequest>;

/// The empty acknowledgement of a trace export: nothing was turned away.
pub open spec fn acknowledgement() -> OtelTraceResponse {
    trace_response(ExportTraceServiceResponse { partial_success: None })
}

/// Builds the empty acknowledgement of a trace export, afresh for each call.
pub fn acknowledge() -> (response: OtelTraceResponse)
    ensures
        response == acknowledgement(),
{
    trace_response_new(ExportTraceServiceResponse { partial_success: None })
}

/// A trace service that answers each export call with what a handler returns.
pub struct OtelTraceService<F>
where
    F: Fn(OtelTraceRequest) -> Result<OtelTraceResponse, Status> + Send + Sync + 'static,
{
    on_trace: F,
}

impl<F> OtelTraceService<F>
where
    F: Fn(OtelTraceRequest) -> Result<OtelTraceResponse, Status> + Send + Sync + 'static,
{
    /// The handler accepts every request: the transport hands in whatever a
    /// client sent.
    #[verifier::type_invariant]
    spec fn handler_is_total(self) -> bool {
        forall|request: OtelTraceRequest| call_requires(self.on_trace, (request,))
    }

    /// The handler that the service was made with.
    pub closed spec fn handler(self) -> F {
        self.on_trace
    }

    /// Whether `answer` is something that the handler may return for
    /// `request`.
    pub open spec fn answers(
        self,
        request: OtelTraceRequest,
        answer: Result<OtelTraceResponse, Status>,
    ) -> bool {
        call_ensures(self.handler(), (request,), answer)
    }

    /// Creates a trace service with the given handler.
    pub fn with_handler(handler: F) -> (service: Self)
        requires
            forall|request: OtelTraceRequest| call_requires(handler, (request,)),
        ensures
            service.handler() == handler,
    {
        OtelTraceService { on_trace: handler }
    }

    /// Answers an export call: hands the request to the handler, untouched,
    /// and returns what the handler returns, untouched.
    pub fn export(&self, request: OtelTraceRequest) -> (answer: Result<OtelTraceResponse, Status>)
        ensures
            self.answers(request, answer),
    {
        proof {
            use_type_invariant(self);
        }
        (self.on_trace)(request)
    }

    /// Under a handler that returns the same acknowledgement for every
    /// request, every export call returns that acknowledgement.
    pub proof fn lemma_export_repeats_acknowledgement(
        self,
        request: OtelTraceRequest,
        answer: Result<OtelTraceResponse, Status>,
        response: OtelTraceResponse,
    )
        requires
            forall|any: OtelTraceRequest, given: Result<OtelTraceResponse, Status>|
                call_ensures(self.handler(), (any,), given) ==> given == Ok::<
                    OtelTraceResponse,
                    Status,
                >(response),
            self.answers(request, answer),
        ensures
            answer == Ok::<OtelTraceResponse, Status>(response),
    {
    }

    /// Under a handler that returns the same error for every request, every
    /// export call returns that error.
    pub proof fn lemma_export_repeats_error(
        self,
        request: OtelTraceRequest,
        answer: Result<OtelTraceResponse, Status>,
        error: Status,
    )
        requires
            forall|any: OtelTraceRequest, given: Result<OtelTraceResponse, Status>|
                call_ensures(self.handler(), (any,), given) ==> given == Err::<
                    OtelTraceResponse,
                    Status,
                >(error),
            self.answers(request, answer),
        ensures
            answer == Err::<OtelTraceResponse, Status>(error),
    {
    }
}

/// Creates the service that answers trace export calls with `handler`.
pub fn make_service<F>(handler: F) -> (service: OtelTraceService<F>)
    where
        F: Fn(OtelTraceRequest) -> Result<OtelTraceResponse, Status> + Send + Sync + 'static,
    requires
        forall|request: OtelTraceRequest| call_requires(handler, (request,)),
    ensures
        service.handler() == handler,
{
    OtelTraceService::with_handler(handler)
}

/// A trace service that puts each request on a queue of trace requests.
///
/// One export call takes three steps. `outgoing` gives the item for the
/// queue. The caller sends that item through `sender` and awaits the queue.
/// `reply` turns what the queue said into the answer.
pub struct OtelTraceServiceForwarder {
    channel: Sender<ExportTraceServiceRequest>,
}

impl OtelTraceServiceForwarder {
    /// The producer handle that the forwarder was made with.
    pub closed spec fn queue(self) -> Sender<ExportTraceServiceRequest> {
        self.channel
    }

    /// The item that an export call offers to the queue: the message of the
    /// request.
    pub open spec fn outgoing_of(request: OtelTraceRequest) -> ExportTraceServiceRequest {
        trace_request_message(request)
    }

    /// Creates a trace forwarder that feeds the queue behind `channel`.
    pub fn with_sender(channel: Sender<ExportTraceServiceRequest>) -> (forwarder: Self)
        ensures
            forwarder.queue() == channel,
    {
        OtelTraceServiceForwarder { channel }
    }

    /// The producer handle through which the items are to be sent.
    pub fn sender(&self) -> (channel: &Sender<ExportTraceServiceRequest>)
        ensures
            *channel == self.queue(),
    {
        &self.channel
    }

    /// Gives the one item that this export call has to put on the queue.
    pub fn outgoing(&self, request: OtelTraceRequest) -> (item: ExportTraceServiceRequest)
        ensures
            item == Self::outgoing_of(request),
    {
        trace_request_into_inner(request)
    }

    /// Answers the export call once the queue has taken its item or handed
    /// it back. The answer does not wait for a consumer to read the item.
    pub fn reply(&self, outcome: Result<(), SendError<ExportTraceServiceRequest>>) -> (answer: Result<
        OtelTraceResponse,
        Status,
    >)
        ensures
            answer == reply_of(Signal::Trace, acknowledgement(), outcome),
    {
        match outcome {
            Ok(_) => Ok(acknowledge()),
            Err(error) => Err(delivery_error(Signal::Trace, &error)),
        }
    }
}

/// Creates the service that forwards trace export calls to the queue behind
/// `sender`.
pub fn make_forwarder(sender: OtelTraceSender) -> (forwarder: OtelTraceServiceForwarder)
    ensures
        forwarder.queue() == sender,
{
    OtelTraceServiceForwarder::with_sender(sender)
}

} // verus!
