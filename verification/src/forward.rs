//! What a forwarder answers once the queue has spoken.
//!
//! A forwarder offers each request to a queue. The queue either takes the
//! item or, being closed, hands it back. The answer to the remote caller
//! depends on nothing else: an acknowledgement in the first case, an internal
//! failure that names the signal in the second. The three signals differ only
//! in their acknowledgement and in the word that names them.

use crate::queue::closed_channel_text;
use crate::queue::send_error_text;
use crate::signal::dispatch_failure;
use crate::signal::dispatch_failure_message;
use crate::signal::lemma_dispatch_failure_names_signal;
use crate::signal::Signal;
use crate::transport::internal_status;
use crate::transport::status_internal;
use async_channel::SendError;
use tonic::Status;
use vstd::prelude::*;

verus! {

/// The message that tells the remote caller that the queue of `signal` is
/// closed.
pub open spec fn delivery_failure_text(signal: Signal) -> Seq<char> {
    dispatch_failure(signal, closed_channel_text())
}

/// The failure that tells the remote caller that the queue of `signal` is
/// closed: an internal status with the message for that signal.
pub open spec fn delivery_failure(signal: Signal) -> Status {
    internal_status(delivery_failure_text(signal))
}

/// What the forwarder of `signal` answers: `acknowledgement` if the queue
/// took the item, the delivery failure of the signal if it did not.
pub open spec fn reply_of<R, T>(
    signal: Signal,
    acknowledgement: R,
    outcome: Result<(), SendError<T>>,
) -> Result<R, Status> {
    match outcome {
        Ok(_) => Ok(acknowledgement),
        Err(_) => Err(delivery_failure(signal)),
    }
}

/// Turns a refusal of the queue into the failure that the remote caller of
/// `signal` receives. The item that came back with the refusal is dropped.
pub fn delivery_error<T>(signal: Signal, error: &SendError<T>) -> (status: Status)
    ensures
        status == delivery_failure(signal),
{
    let reason = send_error_text(error);
    status_internal(dispatch_failure_message(signal, reason.as_str()))
}

/// An export succeeds exactly when the queue took its item, and then with the
/// acknowledgement of its signal: a refused item is never acknowledged and a
/// taken one never reported as failed.
pub proof fn lemma_reply_succeeds_iff_taken<R, T>(
    signal: Signal,
    acknowledgement: R,
    outcome: Result<(), SendError<T>>,
)
    ensures
        reply_of(signal, acknowledgement, outcome) is Ok <==> outcome is Ok,
        outcome is Ok ==> reply_of(signal, acknowledgement, outcome) == Ok::<R, Status>(
            acknowledgement,
        ),
{
}

/// An item that a closed queue handed back is answered with an internal
/// failure whose message begins with the word for the signal of the call and
/// ends with the reason that the queue gave.
pub proof fn lemma_refusal_names_signal<R, T>(
    signal: Signal,
    acknowledgement: R,
    outcome: Result<(), SendError<T>>,
)
    requires
        outcome is Err,
    ensures
        reply_of(signal, acknowledgement, outcome) == Err::<R, Status>(
            internal_status(delivery_failure_text(signal)),
        ),
        signal.label_text().is_prefix_of(delivery_failure_text(signal)),
        closed_channel_text().is_suffix_of(delivery_failure_text(signal)),
{
    lemma_dispatch_failure_names_signal(signal, closed_channel_text());
}

} // verus!
