//! The three signals, the names of their collector services and the wording
//! of a failed delivery.

use vstd::prelude::*;

verus! {

/// One of the three kinds of telemetry that a collector accepts.
#[derive(Clone, Copy, Debug, PartialEq, Eq, Structural)]
pub enum Signal {
    Logs,
    Metrics,
    Trace,
}

impl Signal {
    /// The word by which a failure message refers to the signal.
    pub open spec fn label_text(self) -> Seq<char> {
        match self {
            Signal::Logs => "Logs"@,
            Signal::Metrics => "Metrics"@,
            Signal::Trace => "Trace"@,
        }
    }

    /// The fully qualified name under which clients address the collector
    /// service of the signal.
    pub open spec fn service_name_text(self) -> Seq<char> {
        match self {
            Signal::Logs => "opentelemetry.proto.collector.logs.v1.LogsService"@,
            Signal::Metrics => "opentelemetry.proto.collector.metrics.v1.MetricsService"@,
            Signal::Trace => "opentelemetry.proto.collector.trace.v1.TraceService"@,
        }
    }

    /// The word by which a failure message refers to the signal.
    pub fn label(self) -> (name: &'static str)
        ensures
            name@ == self.label_text(),
    {
        match self {
            Signal::Logs => "Logs",
            Signal::Metrics => "Metrics",
            Signal::Trace => "Trace",
        }
    }

    /// The fully qualified name under which clients address the collector
    /// service of the signal.
    pub fn service_name(self) -> (name: &'static str)
        ensures
            name@ == self.service_name_text(),
    {
        match self {
            Signal::Logs => "opentelemetry.proto.collector.logs.v1.LogsService",
            Signal::Metrics => "opentelemetry.proto.collector.metrics.v1.MetricsService",
            Signal::Trace => "opentelemetry.proto.collector.trace.v1.TraceService",
        }
    }
}

/// The words that stand between the signal and the reason in a failure
/// message.
pub open spec fn failure_infix() -> Seq<char> {
    " gRPC forwarder channel sender failed to dispatch "@
}

/// The message of a request that the queue of `signal` did not take, for the
/// reason that the queue gave.
pub open spec fn dispatch_failure(signal: Signal, reason: Seq<char>) -> Seq<char> {
    signal.label_text() + failure_infix() + reason
}

/// Writes the message of a request that the queue of `signal` did not take.
/// The reason is appended as it is, whatever its length.
pub fn dispatch_failure_message(signal: Signal, reason: &str) -> (message: String)
    ensures
        message@ == dispatch_failure(signal, reason@),
{
    let mut message = String::from_str(signal.label());
    message.append(" gRPC forwarder channel sender failed to dispatch ");
    message.append(reason);
    message
}

/// A failure message begins with the word for its signal and ends with the
/// reason, unchanged.
pub proof fn lemma_dispatch_failure_names_signal(signal: Signal, reason: Seq<char>)
    ensures
        signal.label_text().is_prefix_of(dispatch_failure(signal, reason)),
        reason.is_suffix_of(dispatch_failure(signal, reason)),
        dispatch_failure(signal, reason).len() == signal.label_text().len() + failure_infix().len()
            + reason.len(),
{
    let text = dispatch_failure(signal, reason);
    let head = signal.label_text();
    assert(text.subrange(0, head.len() as int) =~= head);
    assert(text.subrange(text.len() - reason.len(), text.len() as int) =~= reason);
}

/// The reason can be read back from a failure message: two messages of one
/// signal are equal only if their reasons are.
pub proof fn lemma_dispatch_failure_keeps_reason(
    signal: Signal,
    reason_a: Seq<char>,
    reason_b: Seq<char>,
)
    requires
        dispatch_failure(signal, reason_a) == dispatch_failure(signal, reason_b),
    ensures
        reason_a == reason_b,
{
    let head = signal.label_text() + failure_infix();
    let a = dispatch_failure(signal, reason_a);
    let b = dispatch_failure(signal, reason_b);
    assert(a.subrange(head.len() as int, a.len() as int) =~= reason_a);
    assert(b.subrange(head.len() as int, b.len() as int) =~= reason_b);
}

/// The failure messages of two signals differ, whatever the reasons: a
/// message never names a signal other than its own.
pub proof fn lemma_dispatch_failure_tells_signals_apart(
    a: Signal,
    b: Signal,
    reason_a: Seq<char>,
    reason_b: Seq<char>,
)
    requires
        a != b,
    ensures
        dispatch_failure(a, reason_a) != dispatch_failure(b, reason_b),
{
    reveal_strlit("Logs");
    reveal_strlit("Metrics");
    reveal_strlit("Trace");
    let x = dispatch_failure(a, reason_a);
    let y = dispatch_failure(b, reason_b);
    assert(x[0] == a.label_text()[0]);
    assert(y[0] == b.label_text()[0]);
}

/// The three collector services have three different names.
pub proof fn lemma_service_names_differ(a: Signal, b: Signal)
    requires
        a != b,
    ensures
        a.service_name_text() != b.service_name_text(),
{
    reveal_strlit("opentelemetry.proto.collector.logs.v1.LogsService");
    reveal_strlit("opentelemetry.proto.collector.metrics.v1.MetricsService");
    reveal_strlit("opentelemetry.proto.collector.trace.v1.TraceService");
    assert(a.service_name_text().len() != b.service_name_text().len());
}

} // verus!
