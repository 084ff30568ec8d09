//! The channels of `tokio` that the core hands around: the unbounded queue of
//! outbound notifications and the one-shot cancellation signal.
//!
//! A channel end is carried as an opaque value. What travels through a
//! channel is the business of the runtime; nothing here claims anything about
//! it.

use crate::notifications::ServerNotification;
use tokio::sync::mpsc::UnboundedSender;
use vstd::prelude::*;

verus! {

/// The sending end of an unbounded queue.
#[verifier::external_type_specification]
#[verifier::external_body]
#[verifier::reject_recursive_types(T)]
pub struct ExUnboundedSender<T>(tokio::sync::mpsc::UnboundedSender<T>);

/// The receiving end of an unbounded queue.
#[verifier::external_type_specification]
#[verifier::external_body]
#[verifier::reject_recursive_types(T)]
pub struct ExUnboundedReceiver<T>(tokio::sync::mpsc::UnboundedReceiver<T>);

/// The sending end of a one-shot channel.
#[verifier::external_type_specification]
#[verifier::external_body]
#[verifier::reject_recursive_types(T)]
pub struct ExOneshotSender<T>(tokio::sync::oneshot::Sender<T>);

/// The receiving end of a one-shot channel.
#[verifier::external_type_specification]
#[verifier::external_body]
#[verifier::reject_recursive_types(T)]
pub struct ExOneshotReceiver<T>(tokio::sync::oneshot::Receiver<T>);

/// What awaiting the receiving end of a one-shot channel yields where the
/// sending end is gone. Nothing here handles one; the type is declared
/// because the receiving end, as a future, names it as its output.
#[verifier::external_type_specification]
#[verifier::external_body]
pub struct ExRecvError(tokio::sync::oneshot::error::RecvError);

/// `tokio::sync::mpsc::unbounded_channel`: a new queue, by its two ends.
pub assume_specification<T>[ tokio::sync::mpsc::unbounded_channel::<T> ]() -> (
    tokio::sync::mpsc::UnboundedSender<T>,
    tokio::sync::mpsc::UnboundedReceiver<T>,
);

/// `tokio::sync::oneshot::channel`: a new one-shot channel, by its two ends.
pub assume_specification<T>[ tokio::sync::oneshot::channel::<T> ]() -> (
    tokio::sync::oneshot::Sender<T>,
    tokio::sync::oneshot::Receiver<T>,
);

/// `<UnboundedSender<T> as Clone>::clone`: one more sending end of the same
/// queue.
pub assume_specification<T>[ <tokio::sync::mpsc::UnboundedSender<T> as Clone>::clone ](
    end: &tokio::sync::mpsc::UnboundedSender<T>,
) -> tokio::sync::mpsc::UnboundedSender<T>;

/// `UnboundedSender::send`: appends the notification to the queue, unless
/// the receiving end is closed. Returns whether the queue took it.
#[verifier::external_body]
pub(crate) fn enqueue(
    queue: &UnboundedSender<ServerNotification>,
    notification: ServerNotification,
) -> (taken: bool) {
    queue.send(notification).is_ok()
}

/// `oneshot::Sender::send`: fires the signal. A signal whose receiving end is
/// gone is dropped.
#[verifier::external_body]
pub(crate) fn fire(signal: tokio::sync::oneshot::Sender<()>) {
    let _ = signal.send(());
}

} // verus!
