//! The logs collector service: a callback adapter and a forwarder.

use crate::forward::delivery_error;
use crate::forward::reply_of;
use crate::signal::Signal;
use crate::transport::logs_request_into_inner;
use crate::transport::logs_request_message;
use crate::transport::logs_response;
use crate::transport::logs_response_new;
use async_channel::Receiver;
use async_channel::SendError;
use async_channel::Sender;
use opentelemetry_proto::tonic::collector::logs::v1::ExportLogsServiceRequest;
use opentelemetry_proto::tonic::collector::logs::v1::ExportLogsServiceResponse;
use tonic::Status;
use vstd::prelude::*;

verus! {

/// A logs export call as the transport hands it in.
pub type OtelLogsRequest = tonic::Request<ExportLogsServiceRequest>;

/// The answer to a logs export call as the transport takes it.
pub type OtelLogsResponse = tonic::Response<ExportLogsServiceResponse>;

/// A handler of logs export calls that can be shared between tasks.
pub type OnLogsFn =
    dyn Fn(OtelLogsRequest) -> Result<OtelLogsResponse, Status> + Send + Sync + 'static;

/// The producer side of a queue of logs requests.
pub type OtelLogsSender = Sender<ExportLogsServiceRequest>;

/// The consumer side of a queue of logs requests.
pub type OtelLogsReceiver = Receiver<ExportLogsServiceRequest>;

/// The empty acknowledgement of a logs export: nothing was turned away.
pub open spec fn acknowledgement() -> OtelLogsResponse {
    logs_response(ExportLogsServiceResponse { partial_success: None })
}

/// Builds the empty acknowledgement of a logs export, afresh for each call.
pub fn acknowledge() -> (response: OtelLogsResponse)
    ensures
        response == acknowledgement(),
{
    logs_response_new(ExportLogsServiceResponse { partial_success: None })
}

/// A logs service that answers each export call with what a handler returns.
pub struct OtelLogsService<F>
where
    F: Fn(OtelLogsRequest) -> Result<OtelLogsResponse, Status> + Send + Sync + 'static,
{
    on_logs: F,
}

impl<F> OtelLogsService<F>
where
    F: Fn(OtelLogsRequest) -> Result<OtelLogsResponse, Status> + Send + Sync + 'static,
{
    /// The handler accepts every request: the transport hands in whatever a
    /// client sent.
    #[verifier::type_invariant]
    spec fn handler_is_total(self) -> bool {
        forall|request: OtelLogsRequest| call_requires(self.on_logs, (request,))
    }

    /// The handler that the service was made with.
    pub closed spec fn handler(self) -> F {
        self.on_logs
    }

    /// Whether `answer` is something that the handler may return for
    /// `request`.
    pub open spec fn answers(
        self,
        request: OtelLogsRequest,
        answer: Result<OtelLogsResponse, Status>,
    ) -> bool {
        call_ensures(self.handler(), (request,), answer)
    }

    /// Creates a logs service with the given handler.
    pub fn with_handler(handler: F) -> (service: Self)
        requires
            forall|request: OtelLogsRequest| call_requires(handler, (request,)),
        ensures
            service.handler() == handler,
    {
        OtelLogsService { on_logs: handler }
    }

    /// Answers an export call: hands the request to the handler, untouched,
    /// and returns what the handler returns, untouched.
    pub fn export(&self, request: OtelLogsRequest) -> (answer: Result<OtelLogsResponse, Status>)
        ensures
            self.answers(request, answer),
    {
        proof {
            use_type_invariant(self);
        }
        (self.on_logs)(request)
    }

    /// Under a handler that returns the same acknowledgement for every
    /// request, every export call returns that acknowledgement.
    pub proof fn lemma_export_repeats_acknowledgement(
        self,
        request: OtelLogsRequest,
        answer: Result<OtelLogsResponse, Status>,
        response: OtelLogsResponse,
    )
        requires
            forall|any: OtelLogsRequest, given: Result<OtelLogsResponse, Status>|
                call_ensures(self.handler(), (any,), given) ==> given == Ok::<
                    OtelLogsResponse,
                    Status,
                >(response),
            self.answers(request, answer),
        ensures
            answer == Ok::<OtelLogsResponse, Status>(response),
    {
    }

    /// Under a handler that returns the same error for every request, every
    /// export call returns that error.
    pub proof fn lemma_export_repeats_error(
        self,
        request: OtelLogsRequest,
        answer: Result<OtelLogsResponse, Status>,
        error: Status,
    )
        requires
            forall|any: OtelLogsRequest, given: Result<OtelLogsResponse, Status>|
                call_ensures(self.handler(), (any,), given) ==> given == Err::<
                    OtelLogsResponse,
                    Status,
                >(error),
            self.answers(request, answer),
        ensures
            answer == Err::<OtelLogsResponse, Status>(error),
    {
    }
}

/// Creates the service that answers logs export calls with `handler`.
pub fn make_service<F>(handler: F) -> (service: OtelLogsService<F>)
    where
        F: Fn(OtelLogsRequest) -> Result<OtelLogsResponse, Status> + Send + Sync + 'static,
    requires
        forall|request: OtelLogsRequest| call_requires(handler, (request,)),
    ensures
        service.handler() == handler,
{
    OtelLogsService::with_handler(handler)
}

/// A logs service that puts each request on a queue of logs requests.
///
/// One export call takes three steps. `outgoing` gives the item for the
/// queue. The caller sends that item through `sender` and awaits the queue.
/// `reply` turns what the queue said into the answer.
pub struct OtelLogsServiceForwarder {
    channel: Sender<ExportLogsServiceRequest>,
}

impl OtelLogsServiceForwarder {
    /// The producer handle that the forwarder was made with.
    pub closed spec fn queue(self) -> Sender<ExportLogsServiceRequest> {
        self.channel
    }

    /// The item that an export call offers to the queue: the message of the
    /// request.
    pub open spec fn outgoing_of(request: OtelLogsRequest) -> ExportLogsServiceRequest {
        logs_request_message(request)
    }

    /// Creates a logs forwarder that feeds the queue behind `channel`.
    pub fn with_sender(channel: Sender<ExportLogsServiceRequest>) -> (forwarder: Self)
        ensures
            forwarder.queue() == channel,
    {
        OtelLogsServiceForwarder { channel }
    }

    /// The producer handle through which the items are to be sent.
    pub fn sender(&self) -> (channel: &Sender<ExportLogsServiceRequest>)
        ensures
            *channel == self.queue(),
    {
        &self.channel
    }

    /// Gives the one item that this export call has to put on the queue.
    pub fn outgoing(&self, request: OtelLogsRequest) -> (item: ExportLogsServiceRequest)
        ensures
            item == Self::outgoing_of(request),
    {
        logs_request_into_inner(request)
    }

    /// Answers the export call once the queue has taken its item or handed
    /// it back. The answer does not wait for a consumer to read the item.
    pub fn reply(&self, outcome: Result<(), SendError<ExportLogsServiceRequest>>) -> (answer: Result<
        OtelLogsResponse,
        Status,
    >)
        ensures
            answer == reply_of(Signal::Logs, acknowledgement(), outcome),
    {
        match outcome {
            Ok(_) => Ok(acknowledge()),
            Err(error) => Err(delivery_error(Signal::Logs, &error)),
        }
    }
}

/// Creates the service that forwards logs export calls to the queue behind
/// `sender`.
pub fn make_forwarder(sender: OtelLogsSender) -> (forwarder: OtelLogsServiceForwarder)
    ensures
        forwarder.queue() == sender,
{
    OtelLogsServiceForwarder::with_sender(sender)
}

} // verus!
