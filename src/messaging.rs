use vstd::prelude::*;

use crate::fault::{disposition, is_fatal, Disposition, ErrorClass};

verus! {

/// A failure reported by the broker transport, with its error code.
#[derive(Clone, Copy, Debug, PartialEq, Eq, Structural)]
pub struct TransportError {
    pub code: i32,
}

/// What the background receive loop does after one wait on the connection.
#[derive(Clone, Copy, Debug, PartialEq, Eq, Structural)]
pub enum ReceiveStep {
    /// Log the event and wait for the next one.
    Continue,
    /// The connection was torn down: the loop ends.
    Stop,
}

impl TransportError {
    pub fn class(&self) -> (c: ErrorClass)
        ensures
            c == ErrorClass::TransportFailure,
    {
        ErrorClass::TransportFailure
    }
}

/// The receive loop drains events, messages and errors alike, until the
/// connection yields no more.
pub fn receive_step<M>(event: &Option<Result<M, TransportError>>) -> (r: ReceiveStep)
    ensures
        r == (if event is Some { ReceiveStep::Continue } else { ReceiveStep::Stop }),
{
    match event {
        Some(_) => ReceiveStep::Continue,
        None => ReceiveStep::Stop,
    }
}

/// What a failed hand-off to the transport leads to: it is logged and the
/// caller carries on, relying on the transport to reconnect.
pub fn publish_disposition(r: &Result<(), TransportError>) -> (d: Option<Disposition>)
    ensures
        d == (match r {
            Ok(()) => None::<Disposition>,
            Err(_) => Some(Disposition::Recover),
        }),
{
    match r {
        Ok(()) => None,
        Err(e) => Some(disposition(e.class())),
    }
}

/// Transport failures never propagate past the messaging client.
pub proof fn lemma_transport_failure_is_recoverable()
    ensures
        !is_fatal(ErrorClass::TransportFailure),
{
}

} // verus!
