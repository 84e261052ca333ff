use vstd::prelude::*;

use std::sync::Arc;
use tokio::sync::mpsc::error::SendError;
use tokio::sync::mpsc::{UnboundedReceiver, UnboundedSender};

use crate::message::ClipboardFile;

verus! {

#[verifier::external_type_specification]
#[verifier::external_body]
#[verifier::reject_recursive_types(T)]
pub struct ExUnboundedSender<T>(UnboundedSender<T>);

#[verifier::external_type_specification]
#[verifier::external_body]
#[verifier::reject_recursive_types(T)]
pub struct ExUnboundedReceiver<T>(UnboundedReceiver<T>);

#[verifier::external_type_specification]
#[verifier::external_body]
#[verifier::reject_recursive_types(T)]
pub struct ExSendError<T>(SendError<T>);

#[verifier::external_type_specification]
#[verifier::external_body]
#[verifier::reject_recursive_types(T)]
pub struct ExTokioMutex<T: ?Sized>(tokio::sync::Mutex<T>);

/// The receiving end of one session's inbound queue, shared by every holder.
/// Holders take the mutex to drain it, so drains never overlap.
pub type ClipboardReceiver = Arc<tokio::sync::Mutex<UnboundedReceiver<ClipboardFile>>>;

/// Relies on tokio's `unbounded_channel`: a new queue and its two ends.
pub assume_specification<T>[ tokio::sync::mpsc::unbounded_channel::<T> ]() -> (UnboundedSender<
    T,
>, UnboundedReceiver<T>);

/// Relies on tokio's `Mutex::new`: an unlocked mutex around the receiver.
#[verifier::external_body]
pub(crate) fn new_lock(
    rx: UnboundedReceiver<ClipboardFile>,
) -> tokio::sync::Mutex<UnboundedReceiver<ClipboardFile>> {
    tokio::sync::Mutex::new(rx)
}

/// Relies on tokio's `UnboundedSender::send`: queues the message without
/// blocking, or fails when the receiving end has been closed or dropped.
pub assume_specification<T>[ UnboundedSender::<T>::send ](
    sender: &UnboundedSender<T>,
    message: T,
) -> Result<(), SendError<T>>;

/// Relies on `Arc::clone`: a second handle to the same shared receiver.
#[verifier::external_body]
pub(crate) fn share(h: &ClipboardReceiver) -> (r: ClipboardReceiver)
    ensures
        r == *h,
{
    Arc::clone(h)
}

} // verus!
