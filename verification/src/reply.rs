//! Trusted declarations for the `oneshot` crate, which supplies the
//! per-task reply channel: a single-producer, single-consumer channel that
//! carries at most one value. The types are opaque to the verifier; the
//! contracts state only what holds of every outcome, since whether a send
//! or a receive succeeds depends on the other endpoint's fate at run time.

use vstd::prelude::*;

verus! {

#[verifier::external_type_specification]
#[verifier::external_body]
#[verifier::reject_recursive_types(T)]
pub struct ExSender<T>(oneshot::Sender<T>);

#[verifier::external_type_specification]
#[verifier::external_body]
#[verifier::reject_recursive_types(T)]
pub struct ExReceiver<T>(oneshot::Receiver<T>);

#[verifier::external_type_specification]
#[verifier::external_body]
#[verifier::reject_recursive_types(T)]
pub struct ExSendError<T>(oneshot::SendError<T>);

#[verifier::external_type_specification]
#[verifier::external_body]
pub struct ExRecvError(oneshot::RecvError);

/// Relies on `oneshot::channel`: returns the sending and the receiving
/// endpoint of a fresh channel that carries at most one value.
pub assume_specification<T>[ oneshot::channel::<T> ]() -> (r: (
    oneshot::Sender<T>,
    oneshot::Receiver<T>,
));

/// Relies on `oneshot::Sender::send`: consumes the sender, delivering the
/// message unless the receiving endpoint is already gone, in which case
/// the message comes back inside the error.
pub assume_specification<T>[ oneshot::Sender::<T>::send ](s: oneshot::Sender<T>, message: T) -> (r:
    Result<(), oneshot::SendError<T>>);

/// Relies on `oneshot::Receiver::recv`: consumes the receiver and blocks
/// until the single message arrives; fails exactly when the sending
/// endpoint was dropped without sending.
pub assume_specification<T>[ oneshot::Receiver::<T>::recv ](r: oneshot::Receiver<T>) -> (res:
    Result<T, oneshot::RecvError>);

} // verus!
