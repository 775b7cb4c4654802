//! Trusted declarations for the standard multi-producer, single-consumer
//! queue that feeds each worker its tasks. Only the sending endpoint is
//! touched here: the receiving endpoints live with the threads that own
//! them, outside the library.

use vstd::prelude::*;

verus! {

#[verifier::external_type_specification]
#[verifier::external_body]
#[verifier::reject_recursive_types(T)]
pub struct ExMpscSender<T>(std::sync::mpsc::Sender<T>);

#[verifier::external_type_specification]
#[verifier::external_body]
#[verifier::reject_recursive_types(T)]
pub struct ExMpscSendError<T>(std::sync::mpsc::SendError<T>);

/// Relies on `std::sync::mpsc::Sender::send`: queues the value for the
/// receiving endpoint; fails exactly when that endpoint has been dropped,
/// returning the value inside the error.
pub assume_specification<T>[ std::sync::mpsc::Sender::<T>::send ](
    s: &std::sync::mpsc::Sender<T>,
    t: T,
) -> (r: Result<(), std::sync::mpsc::SendError<T>>);

} // verus!
