//! The end of one callback invocation.
//!
//! Each invocation has a correlation channel of its own, on which the host
//! sends the callback's reply. The channel resolves once: with the reply, or
//! with an error when its sending half was dropped with nothing sent.

use crate::task::TaskEvent;
use vstd::prelude::*;

verus! {

/// The error with which the receiving half of a `tokio` one-shot channel
/// resolves when the sending half is dropped without a value. It carries no
/// data, and nothing is read from it here.
#[verifier::external_type_specification]
#[verifier::external_body]
pub struct ExRecvError(tokio::sync::oneshot::error::RecvError);

/// A callback invocation whose correlation channel closed without a reply.
#[derive(Clone, Copy, Debug, PartialEq, Eq, Structural)]
pub struct DeliveryFailure;

/// What an invocation yields once its correlation channel has resolved: the
/// reply as it was sent, or a delivery failure when the channel closed
/// without one.
pub fn conclude(received: Result<String, tokio::sync::oneshot::error::RecvError>) -> (outcome:
    Result<String, DeliveryFailure>)
    ensures
        received matches Ok(reply) ==> outcome == Ok::<String, DeliveryFailure>(reply),
        received is Err ==> outcome == Err::<String, DeliveryFailure>(DeliveryFailure),
{
    match received {
        Ok(reply) => Ok(reply),
        Err(_) => Err(DeliveryFailure),
    }
}

/// The event that the end of an invocation is to the task that began it. The
/// reply itself is not looked at: that one arrived is all the task needs.
pub fn ending(outcome: &Result<String, DeliveryFailure>) -> (event: TaskEvent)
    ensures
        outcome is Ok ==> event == TaskEvent::Delivered,
        outcome is Err ==> event == TaskEvent::DeliveryFailed,
        event.is_reply(),
{
    match outcome {
        Ok(_) => TaskEvent::Delivered,
        Err(_) => TaskEvent::DeliveryFailed,
    }
}

} // verus!
