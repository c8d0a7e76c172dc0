use vstd::prelude::*;

verus! {

/// The error taxonomy of the controller.
#[derive(Clone, Copy, Debug, PartialEq, Eq, Structural)]
pub enum ErrorClass {
    /// The combined sensor did not complete its protocol within its timing budget.
    HardwareTimingFailure,
    /// An analog conversion failed.
    ConversionFailure,
    /// A digital write to the actuator failed.
    FatalActuatorFault,
    /// A previous borrower of a guard aborted inside its critical section.
    GuardPoisoned,
    /// Publishing or receiving on the broker connection failed.
    TransportFailure,
}

/// What the process does once an error of a class has surfaced.
#[derive(Clone, Copy, Debug, PartialEq, Eq, Structural)]
pub enum Disposition {
    /// Report it (error response or log line) and carry on; the next caller
    /// or the next tick is the retry.
    Recover,
    /// Stop the process: the hardware state can no longer be trusted.
    Terminate,
}

pub open spec fn is_fatal(c: ErrorClass) -> bool {
    c == ErrorClass::FatalActuatorFault || c == ErrorClass::GuardPoisoned
}

/// Decides how an error of class `c` is handled. Fatal faults are never
/// retried: they end the process.
pub fn disposition(c: ErrorClass) -> (d: Disposition)
    ensures
        d == (if is_fatal(c) { Disposition::Terminate } else { Disposition::Recover }),
{
    match c {
        ErrorClass::FatalActuatorFault | ErrorClass::GuardPoisoned => Disposition::Terminate,
        _ => Disposition::Recover,
    }
}

} // verus!

verus! {

/// A failed actuator write and a poisoned guard end the process; sensor,
/// conversion and transport failures are reported and the process carries
/// on.
pub proof fn lemma_fatal_classes()
    ensures
        is_fatal(ErrorClass::FatalActuatorFault),
        is_fatal(ErrorClass::GuardPoisoned),
        !is_fatal(ErrorClass::HardwareTimingFailure),
        !is_fatal(ErrorClass::ConversionFailure),
        !is_fatal(ErrorClass::TransportFailure),
{
}

} // verus!
