//! Channels between the front end and the library.
use std::sync::mpsc::{Receiver, Sender, TryRecvError};

use vstd::prelude::*;

verus! {

/// The receiving half of a channel.
#[verifier::external_type_specification]
#[verifier::external_body]
#[verifier::reject_recursive_types(T)]
pub struct ExReceiver<T>(Receiver<T>);

/// The sending half of a channel.
#[verifier::external_type_specification]
#[verifier::external_body]
#[verifier::reject_recursive_types(T)]
pub struct ExSender<T>(Sender<T>);

/// Why nothing could be received.
#[verifier::external_type_specification]
#[verifier::external_body]
pub struct ExTryRecvError(TryRecvError);

/// `std::sync::mpsc::channel` makes a fresh channel. Nothing is claimed of what travels
/// through it: that is up to the holders of its two ends.
pub assume_specification<T>[ std::sync::mpsc::channel::<T> ]() -> (r: (Sender<T>, Receiver<T>));

/// `Receiver::try_recv` takes what has arrived, without waiting. What that is depends on the
/// senders, so nothing is claimed of it.
pub assume_specification<T>[ Receiver::<T>::try_recv ](receiver: &Receiver<T>) -> (r: Result<
    T,
    TryRecvError,
>);

/// Whether two ends are those of one channel, as `std::sync::mpsc::channel` makes it.
pub open spec fn are_ends<T>(sender: Sender<T>, receiver: Receiver<T>) -> bool {
    call_ensures(std::sync::mpsc::channel::<T>, (), (sender, receiver))
}

/// Whether a value, or that there is none, is what `Receiver::try_recv` gives at a channel end.
pub open spec fn is_received<T>(receiver: Receiver<T>, value: Option<T>) -> bool {
    exists|outcome: Result<T, TryRecvError>|
        #[trigger] call_ensures(Receiver::<T>::try_recv, (&receiver,), outcome) && value == (
        match outcome {
            Ok(value) => Some(value),
            Err(_) => None,
        })
}

/// What was received, if anything was.
pub fn received<T>(outcome: Result<T, TryRecvError>) -> (r: Option<T>)
    ensures
        r == (match outcome {
            Ok(value) => Some(value),
            Err(_) => None,
        }),
{
    match outcome {
        Ok(value) => Some(value),
        Err(_) => None,
    }
}

} // verus!
