//! The three collector services on one queue.
//!
//! Each forwarder of this module tags the message of a request with its
//! signal before it offers it to the queue, so that one consumer can read the
//! logs, metrics and trace requests of a collector from a single queue and
//! tell them apart.

use crate::forward::delivery_error;
use crate::forward::reply_of;
use crate::logs::OtelLogsRequest;
use crate::logs::OtelLogsResponse;
use crate::metrics::OtelMetricsRequest;
use crate::metrics::OtelMetricsResponse;
use crate::queue::sender_clone;
use crate::signal::Signal;
use crate::trace::OtelTraceRequest;
use crate::trace::OtelTraceResponse;
use crate::transport::logs_request_into_inner;
use crate::transport::logs_request_message;
use crate::transport::metrics_request_into_inner;
use crate::transport::metrics_request_message;
use crate::transport::trace_request_into_inner;
use crate::transport::trace_request_message;
use async_channel::Receiver;
use async_channel::SendError;
use async_channel::Sender;
use opentelemetry_proto::tonic::collector::logs::v1::ExportLogsServiceRequest;
use opentelemetry_proto::tonic::collector::metrics::v1::ExportMetricsServiceRequest;
use opentelemetry_proto::tonic::collector::trace::v1::ExportTraceServiceRequest;
use tonic::Status;
use vstd::prelude::*;

verus! {

/// The message of an export call, tagged with the signal that it belongs to.
pub enum OpenTelemetryEvents {
    /// A logs export request
    Logs(ExportLogsServiceRequest),
    /// A metrics export request
    Metrics(ExportMetricsServiceRequest),
    /// A trace export request
    Trace(ExportTraceServiceRequest),
}

impl OpenTelemetryEvents {
    /// The signal that the event belongs to.
    pub open spec fn signal(self) -> Signal {
        match self {
            OpenTelemetryEvents::Logs(_) => Signal::Logs,
            OpenTelemetryEvents::Metrics(_) => Signal::Metrics,
            OpenTelemetryEvents::Trace(_) => Signal::Trace,
        }
    }
}

/// The producer side of a queue of tagged events.
pub type OpenTelemetrySender = Sender<OpenTelemetryEvents>;

/// The consumer side of a queue of tagged events.
pub type OpenTelemetryReceiver = Receiver<OpenTelemetryEvents>;

/// A logs service that puts each request, tagged as logs, on a queue of
/// events.
///
/// One export call takes three steps. `outgoing` gives the item for the
/// queue. The caller sends that item through `sender` and awaits the queue.
/// `reply` turns what the queue said into the answer.
pub struct LogsServiceForwarder {
    channel: Sender<OpenTelemetryEvents>,
}

impl LogsServiceForwarder {
    /// The producer handle that the forwarder was made with.
    pub closed spec fn queue(self) -> Sender<OpenTelemetryEvents> {
        self.channel
    }

    /// The item that an export call offers to the queue: the message of the
    /// request, tagged as logs.
    pub open spec fn outgoing_of(request: OtelLogsRequest) -> OpenTelemetryEvents {
        OpenTelemetryEvents::Logs(logs_request_message(request))
    }

    /// Creates a logs forwarder that feeds the queue behind `channel`.
    pub fn with_sender(channel: Sender<OpenTelemetryEvents>) -> (forwarder: Self)
        ensures
            forwarder.queue() == channel,
    {
        LogsServiceForwarder { channel }
    }

    /// The producer handle through which the items are to be sent.
    pub fn sender(&self) -> (channel: &Sender<OpenTelemetryEvents>)
        ensures
            *channel == self.queue(),
    {
        &self.channel
    }

    /// Gives the one item that this export call has to put on the queue.
    pub fn outgoing(&self, request: OtelLogsRequest) -> (item: OpenTelemetryEvents)
        ensures
            item == Self::outgoing_of(request),
    {
        OpenTelemetryEvents::Logs(logs_request_into_inner(request))
    }

    /// Answers the export call once the queue has taken its item or handed
    /// it back. The answer does not wait for a consumer to read the item.
    pub fn reply(&self, outcome: Result<(), SendError<OpenTelemetryEvents>>) -> (answer: Result<
        OtelLogsResponse,
        Status,
    >)
        ensures
            answer == reply_of(Signal::Logs, crate::logs::acknowledgement(), outcome),
    {
        match outcome {
            Ok(_) => Ok(crate::logs::acknowledge()),
            Err(error) => Err(delivery_error(Signal::Logs, &error)),
        }
    }
}

/// A metrics service that puts each request, tagged as metrics, on a queue of
/// events.
///
/// One export call takes three steps. `outgoing` gives the item for the
/// queue. The caller sends that item through `sender` and awaits the queue.
/// `reply` turns what the queue said into the answer.
pub struct MetricsServiceForwarder {
    channel: Sender<OpenTelemetryEvents>,
}

impl MetricsServiceForwarder {
    /// The producer handle that the forwarder was made with.
    pub closed spec fn queue(self) -> Sender<OpenTelemetryEvents> {
        self.channel
    }

    /// The item that an export call offers to the queue: the message of the
    /// request, tagged as metrics.
    pub open spec fn outgoing_of(request: OtelMetricsRequest) -> OpenTelemetryEvents {
        OpenTelemetryEvents::Metrics(metrics_request_message(request))
    }

    /// Creates a metrics forwarder that feeds the queue behind `channel`.
    pub fn with_sender(channel: Sender<OpenTelemetryEvents>) -> (forwarder: Self)
        ensures
            forwarder.queue() == channel,
    {
        MetricsServiceForwarder { channel }
    }

    /// The producer handle through which the items are to be sent.
    pub fn sender(&self) -> (channel: &Sender<OpenTelemetryEvents>)
        ensures
            *channel == self.queue(),
    {
        &self.channel
    }

    /// Gives the one item that this export call has to put on the queue.
    pub fn outgoing(&self, request: OtelMetricsRequest) -> (item: OpenTelemetryEvents)
        ensures
            item == Self::outgoing_of(request),
    {
        OpenTelemetryEvents::Metrics(metrics_request_into_inner(request))
    }

    /// Answers the export call once the queue has taken its item or handed
    /// it back. The answer does not wait for a consumer to read the item.
    pub fn reply(&self, outcome: Result<(), SendError<OpenTelemetryEvents>>) -> (answer: Result<
        OtelMetricsResponse,
        Status,
    >)
        ensures
            answer == reply_of(Signal::Metrics, crate::metrics::acknowledgement(), outcome),
    {
        match outcome {
            Ok(_) => Ok(crate::metrics::acknowledge()),
            Err(error) => Err(delivery_error(Signal::Metrics, &error)),
        }
    }
}

/// A trace service that puts each request, tagged as trace, on a queue of
/// events.
///
/// One export call takes three steps. `outgoing` gives the item for the
/// queue. The caller sends that item through `sender` and awaits the queue.
/// `reply` turns what the queue said into the answer.
pub struct TraceServiceForwarder {
    channel: Sender<OpenTelemetryEvents>,
}

impl TraceServiceForwarder {
    /// The producer handle that the forwarder was made with.
    pub closed spec fn queue(self) -> Sender<OpenTelemetryEvents> {
        self.channel
    }

    /// The item that an export call offers to the queue: the message of the
    /// request, tagged as trace.
    pub open spec fn outgoing_of(request: OtelTraceRequest) -> OpenTelemetryEvents {
        OpenTelemetryEvents::Trace(trace_request_message(request))
    }

    /// Creates a trace forwarder that feeds the queue behind `channel`.
    pub fn with_sender(channel: Sender<OpenTelemetryEvents>) -> (forwarder: Self)
        ensures
            forwarder.queue() == channel,
    {
        TraceServiceForwarder { channel }
    }

    /// The producer handle through which the items are to be sent.
    pub fn sender(&self) -> (channel: &Sender<OpenTelemetryEvents>)
        ensures
            *channel == self.queue(),
    {
        &self.channel
    }

    /// Gives the one item that this export call has to put on the queue.
    pub fn outgoing(&self, request: OtelTraceRequest) -> (item: OpenTelemetryEvents)
        ensures
            item == Self::outgoing_of(request),
    {
        OpenTelemetryEvents::Trace(trace_request_into_inner(request))
    }

    /// Answers the export call once the queue has taken its item or handed
    /// it back. The answer does not wait for a consumer to read the item.
    pub fn reply(&self, outcome: Result<(), SendError<OpenTelemetryEvents>>) -> (answer: Result<
        OtelTraceResponse,
        Status,
    >)
        ensures
            answer == reply_of(Signal::Trace, crate::trace::acknowledgement(), outcome),
    {
        match outcome {
            Ok(_) => Ok(crate::trace::acknowledge()),
            Err(error) => Err(delivery_error(Signal::Trace, &error)),
        }
    }
}

/// The three forwarders of one collector. All of them feed the same queue.
pub struct Forwarders {
    pub trace: TraceServiceForwarder,
    pub logs: LogsServiceForwarder,
    pub metrics: MetricsServiceForwarder,
}

/// Creates the three forwarders of a collector that feeds the queue behind
/// `sender`: one per signal, each with a handle of its own to that queue.
pub fn forwarders(sender: Sender<OpenTelemetryEvents>) -> (all: Forwarders)
    ensures
        all.trace.queue() == sender,
        all.logs.queue() == sender,
        all.metrics.queue() == sender,
{
    let trace = TraceServiceForwarder::with_sender(sender_clone(&sender));
    let logs = LogsServiceForwarder::with_sender(sender_clone(&sender));
    let metrics = MetricsServiceForwarder::with_sender(sender);
    Forwarders { trace, logs, metrics }
}

/// The item that a forwarder offers carries the signal of the forwarder: a
/// consumer never finds a request under the tag of another signal.
pub proof fn lemma_events_carry_their_signal(
    logs: OtelLogsRequest,
    metrics: OtelMetricsRequest,
    trace: OtelTraceRequest,
)
    ensures
        LogsServiceForwarder::outgoing_of(logs).signal() == Signal::Logs,
        MetricsServiceForwarder::outgoing_of(metrics).signal() == Signal::Metrics,
        TraceServiceForwarder::outgoing_of(trace).signal() == Signal::Trace,
        LogsServiceForwarder::outgoing_of(logs) != MetricsServiceForwarder::outgoing_of(metrics),
        LogsServiceForwarder::outgoing_of(logs) != TraceServiceForwarder::outgoing_of(trace),
        MetricsServiceForwarder::outgoing_of(metrics) != TraceServiceForwarder::outgoing_of(trace),
{
}

/// Two logs requests are offered as the same item exactly when they carry the
/// same message: the items on the queue stand one for one, by value, for the
/// messages of the requests.
pub proof fn lemma_logs_events_keep_messages(a: OtelLogsRequest, b: OtelLogsRequest)
    ensures
        LogsServiceForwarder::outgoing_of(a) == LogsServiceForwarder::outgoing_of(b)
            <==> logs_request_message(a) == logs_request_message(b),
{
}

/// Two metrics requests are offered as the same item exactly when they carry
/// the same message.
pub proof fn lemma_metrics_events_keep_messages(a: OtelMetricsRequest, b: OtelMetricsRequest)
    ensures
        MetricsServiceForwarder::outgoing_of(a) == MetricsServiceForwarder::outgoing_of(b)
            <==> metrics_request_message(a) == metrics_request_message(b),
{
}

/// Two trace requests are offered as the same item exactly when they carry
/// the same message.
pub proof fn lemma_trace_events_keep_messages(a: OtelTraceRequest, b: OtelTraceRequest)
    ensures
        TraceServiceForwarder::outgoing_of(a) == TraceServiceForwarder::outgoing_of(b)
            <==> trace_request_message(a) == trace_request_message(b),
{
}

} // verus!
