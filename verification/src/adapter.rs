//! The callback adapter: from a completion callback to a single resolution.
//!
//! A platform call reports its result to a callback. The adapter's sending
//! half is handed to that callback; the receiving half is what the host
//! waits on. Only the first delivery reaches the channel, and what the host
//! then holds is settled into exactly one of three shapes: a value, an
//! explicit absence, or a failure.

use vstd::prelude::*;
use tokio::sync::oneshot::error::RecvError;
use tokio::sync::oneshot::{Receiver, Sender};

verus! {

/// The sending half of tokio's one-shot channel, carried through unread.
#[verifier::external_type_specification]
#[verifier::external_body]
#[verifier::reject_recursive_types(T)]
pub struct ExSender<T>(Sender<T>);

/// The receiving half of tokio's one-shot channel, carried through unread.
#[verifier::external_type_specification]
#[verifier::external_body]
#[verifier::reject_recursive_types(T)]
pub struct ExReceiver<T>(Receiver<T>);

/// What tokio's receiving half yields when the sending half is gone and
/// nothing was sent.
#[verifier::external_type_specification]
#[verifier::external_body]
pub struct ExRecvError(RecvError);

/// `tokio::sync::oneshot::channel` makes the two halves of a fresh channel.
/// Nothing is claimed of them.
pub assume_specification<T>[ tokio::sync::oneshot::channel::<T> ]() -> (halves: (
    Sender<T>,
    Receiver<T>,
));

/// `tokio::sync::oneshot::Sender::send` consumes the sending half. Where it
/// reports that the value could not be sent, it hands that same value back.
/// Whether it can be sent depends on the receiving half, so no more is
/// claimed.
pub assume_specification<T>[ Sender::<T>::send ](sender: Sender<T>, t: T) -> (sent: Result<(), T>)
    ensures
        sent matches Err(back) ==> back == t,
;

/// Why a platform call came to nothing.
#[derive(Clone, Copy, Debug, PartialEq, Eq, Structural)]
pub enum Failure {
    /// The platform ran the callback with an error.
    Platform,
    /// The sending half went away before any callback ran.
    Disconnected,
}

/// How one platform call ended.
#[derive(Clone, Debug, PartialEq, Eq)]
pub enum Resolution<V> {
    /// The platform produced a value.
    Value(V),
    /// The platform answered that there is nothing, such as no leaderboard
    /// of the name asked for.
    Absent,
    /// The call did not complete.
    Failed(Failure),
}

/// What became of one invocation of the callback.
#[derive(Clone, Copy, Debug, PartialEq, Eq, Structural)]
pub enum Delivery {
    /// The first invocation; the channel took the result.
    Sent,
    /// The first invocation, but the receiving half was already gone.
    Unreceived,
    /// Not the first invocation; the result was dropped.
    Dropped,
}

/// The resolution that stands for what the receiving half yielded: the
/// platform's value, its explicit absence, its error, or the loss of the
/// sending half.
pub open spec fn settled<V, E>(outcome: Result<Result<Option<V>, E>, RecvError>) -> Resolution<V> {
    match outcome {
        Ok(Ok(Some(value))) => Resolution::Value(value),
        Ok(Ok(None)) => Resolution::Absent,
        Ok(Err(_)) => Resolution::Failed(Failure::Platform),
        Err(_) => Resolution::Failed(Failure::Disconnected),
    }
}

/// The resolution of a call whose callback reports a value or an error, and
/// never an absence.
pub open spec fn settled_plain<V, E>(outcome: Result<Result<V, E>, RecvError>) -> Resolution<V> {
    match outcome {
        Ok(Ok(value)) => Resolution::Value(value),
        Ok(Err(_)) => Resolution::Failed(Failure::Platform),
        Err(_) => Resolution::Failed(Failure::Disconnected),
    }
}

/// Settles what the receiving half yielded into a resolution.
pub fn settle<V, E>(outcome: Result<Result<Option<V>, E>, RecvError>) -> (resolution: Resolution<V>)
    ensures
        resolution == settled(outcome),
{
    match outcome {
        Ok(Ok(Some(value))) => Resolution::Value(value),
        Ok(Ok(None)) => Resolution::Absent,
        Ok(Err(_)) => Resolution::Failed(Failure::Platform),
        Err(_) => Resolution::Failed(Failure::Disconnected),
    }
}

/// Settles what the receiving half yielded for a call whose callback
/// reports a value or an error.
pub fn settle_plain<V, E>(outcome: Result<Result<V, E>, RecvError>) -> (resolution: Resolution<V>)
    ensures
        resolution == settled_plain(outcome),
{
    match outcome {
        Ok(Ok(value)) => Resolution::Value(value),
        Ok(Err(_)) => Resolution::Failed(Failure::Platform),
        Err(_) => Resolution::Failed(Failure::Disconnected),
    }
}

impl<V> Resolution<V> {
    /// The value of a resolution, with absence and failure collapsed into
    /// one: callers that fail soft cannot tell the two apart.
    pub open spec fn value(self) -> Option<V> {
        match self {
            Resolution::Value(value) => Some(value),
            Resolution::Absent => None,
            Resolution::Failed(_) => None,
        }
    }

    /// Takes the value out of a resolution, if it has one.
    pub fn into_value(self) -> (value: Option<V>)
        ensures
            value == self.value(),
    {
        match self {
            Resolution::Value(value) => Some(value),
            Resolution::Absent => None,
            Resolution::Failed(_) => None,
        }
    }
}

/// The sending half of a callback adapter. It is armed until the first
/// delivery and spent from then on.
#[verifier::reject_recursive_types(T)]
pub struct CallbackAdapter<T> {
    sender: Option<Sender<T>>,
}

impl<T> CallbackAdapter<T> {
    /// Whether no result has been delivered yet.
    pub closed spec fn armed(&self) -> bool {
        self.sender is Some
    }

    /// An armed adapter around the sending half of a channel.
    pub fn new(sender: Sender<T>) -> (adapter: CallbackAdapter<T>)
        ensures
            adapter.armed(),
    {
        CallbackAdapter { sender: Some(sender) }
    }

    /// Whether no result has been delivered yet.
    pub fn is_armed(&self) -> (armed: bool)
        ensures
            armed == self.armed(),
    {
        self.sender.is_some()
    }

    /// Hands `result` to the channel if this is the first delivery, and
    /// drops it otherwise. The adapter is spent afterwards either way.
    pub fn deliver(&mut self, result: T) -> (delivery: Delivery)
        ensures
            !final(self).armed(),
            delivery is Dropped <==> !old(self).armed(),
    {
        match self.sender.take() {
            Some(sender) => match sender.send(result) {
                Ok(()) => Delivery::Sent,
                Err(_) => Delivery::Unreceived,
            },
            None => Delivery::Dropped,
        }
    }
}

/// A fresh adapter: its armed sending half for the platform's callback, and
/// the receiving half for the host to wait on.
pub fn channel<T>() -> (halves: (CallbackAdapter<T>, Receiver<T>))
    ensures
        halves.0.armed(),
{
    let (sender, receiver) = tokio::sync::oneshot::channel();
    (CallbackAdapter::new(sender), receiver)
}

} // verus!
