use vstd::prelude::*;

use crate::fault::ErrorClass;

verus! {

/// Logical level of the actuator pin.
#[derive(Clone, Copy, Debug, PartialEq, Eq, Structural)]
pub enum Level {
    Low,
    High,
}

/// A failed digital write reported by the pin driver.
#[derive(Clone, Copy, Debug, PartialEq, Eq, Structural)]
pub struct PinFault;

/// The logical state of the actuator handle: the level of the last write
/// that the pin driver accepted.
pub struct Actuator {
    level: Level,
}

impl View for Actuator {
    type V = Level;

    closed spec fn view(&self) -> Level {
        self.level
    }
}

/// The state after applying a write of `target` whose driver outcome was
/// `write`: an accepted write sets the level, a failed one leaves it.
pub open spec fn applied(state: Level, target: Level, write: Result<(), PinFault>) -> Level {
    match write {
        Ok(()) => target,
        Err(_) => state,
    }
}

impl Actuator {
    /// The handle of a pin that the driver created at `level`.
    pub fn new(level: Level) -> (r: Actuator)
        ensures
            r@ == level,
    {
        Actuator { level }
    }

    pub fn level(&self) -> (r: Level)
        ensures
            r == self@,
    {
        self.level
    }

    /// Records the outcome of driving the pin to `target`. A failed write
    /// is a fatal actuator fault, reported once and never retried here.
    pub fn apply(&mut self, target: Level, write: Result<(), PinFault>) -> (r: Result<(), ErrorClass>)
        ensures
            final(self)@ == applied(old(self)@, target, write),
            r == (match write {
                Ok(()) => Ok::<(), ErrorClass>(()),
                Err(_) => Err(ErrorClass::FatalActuatorFault),
            }),
    {
        match write {
            Ok(()) => {
                self.level = target;
                Ok(())
            },
            Err(_) => Err(ErrorClass::FatalActuatorFault),
        }
    }
}

/// Last write wins: turning the actuator on and then off in immediate
/// succession, both writes accepted, leaves it off whatever it was before.
pub proof fn lemma_on_then_off_is_off(state: Level)
    ensures
        applied(applied(state, Level::High, Ok(())), Level::Low, Ok(())) == Level::Low,
{
}

/// No lost update: after any accepted write the state is the level written.
pub proof fn lemma_accepted_write_sticks(state: Level, target: Level)
    ensures
        applied(state, target, Ok(())) == target,
{
}

} // verus!
