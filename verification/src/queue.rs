//! What the crate takes from the asynchronous queue.
//!
//! Nothing in this file is proved. The types are declared so that they can be
//! named; each function makes one call and is believed to do what its
//! contract says.

use vstd::prelude::*;

verus! {

/// `async_channel::Sender`: a handle through which items are put on a queue.
/// Any number of handles may lead to one queue.
#[verifier::external_type_specification]
#[verifier::external_body]
#[verifier::reject_recursive_types(T)]
pub struct ExSender<T>(async_channel::Sender<T>);

/// `async_channel::SendError`: what a send gives back when the queue is
/// closed. It holds the item that was not taken.
#[verifier::external_type_specification]
#[verifier::external_body]
#[verifier::reject_recursive_types(T)]
pub struct ExSendError<T>(async_channel::SendError<T>);

/// The reason that the queue gives for turning an item away.
pub open spec fn closed_channel_text() -> Seq<char> {
    "sending into a closed channel"@
}

/// `Display` of `async_channel::SendError`, through `to_string`: the same
/// fixed sentence for every error, whatever item it holds.
#[verifier::external_body]
pub(crate) fn send_error_text<T>(error: &async_channel::SendError<T>) -> (text: String)
    ensures
        text@ == closed_channel_text(),
{
    error.to_string()
}

/// `Clone` of `async_channel::Sender`: a second handle to the same queue. The
/// two hold the same shared pointer, so they are equal as values. The call
/// ends the process once more than `usize::MAX / 2` handles are alive.
#[verifier::external_body]
pub(crate) fn sender_clone<T>(sender: &async_channel::Sender<T>) -> (other: async_channel::Sender<T>)
    ensures
        other == *sender,
{
    sender.clone()
}

} // verus!
