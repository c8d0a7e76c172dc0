use vstd::prelude::*;
use vstd::string::StringExecFns;

use crate::actuator::Level;
use crate::sensor::{cause_text, raw_of, Measurement, Quantity, SensorError};
use crate::units::tenths_text;

verus! {

/// The routed requests of the synchronous request surface.
#[derive(Clone, Copy, Debug, PartialEq, Eq, Structural)]
pub enum Route {
    LedOn,
    LedOff,
    Temperature,
    Humidity,
}

/// The service operation that serves a route.
#[derive(Clone, Copy, Debug, PartialEq, Eq, Structural)]
pub enum Operation {
    SetActuator(Level),
    Measure(Quantity),
}

/// A rendered response: a status code and a text body.
#[derive(Clone, Debug)]
pub struct Response {
    pub status: u16,
    pub body: String,
}

pub open spec fn operation_spec(r: Route) -> Operation {
    match r {
        Route::LedOn => Operation::SetActuator(Level::High),
        Route::LedOff => Operation::SetActuator(Level::Low),
        Route::Temperature => Operation::Measure(Quantity::Temperature),
        Route::Humidity => Operation::Measure(Quantity::Humidity),
    }
}

pub open spec fn path_spec(r: Route) -> Seq<char> {
    match r {
        Route::LedOn => "/led/on"@,
        Route::LedOff => "/led/off"@,
        Route::Temperature => "/temp"@,
        Route::Humidity => "/humidity"@,
    }
}

pub open spec fn failure_prefix(q: Quantity) -> Seq<char> {
    match q {
        Quantity::Temperature => "read temp from sensor failed, err = "@,
        Quantity::Humidity => "read humidity from sensor failed, err = "@,
    }
}

/// Body of the response to a measurement request.
pub open spec fn measurement_body(q: Quantity, outcome: Result<Measurement, SensorError>) -> Seq<char> {
    match outcome {
        Ok(m) => tenths_text(raw_of(m, q)),
        Err(e) => failure_prefix(q) + cause_text(e),
    }
}

pub open spec fn measurement_status(outcome: Result<Measurement, SensorError>) -> u16 {
    match outcome {
        Ok(_) => 200,
        Err(_) => 500,
    }
}

impl Route {
    /// The path under which the route is served.
    pub fn path(&self) -> (r: &'static str)
        ensures
            r@ == path_spec(*self),
    {
        match self {
            Route::LedOn => {
                proof { reveal_strlit("/led/on"); }
                "/led/on"
            },
            Route::LedOff => {
                proof { reveal_strlit("/led/off"); }
                "/led/off"
            },
            Route::Temperature => {
                proof { reveal_strlit("/temp"); }
                "/temp"
            },
            Route::Humidity => {
                proof { reveal_strlit("/humidity"); }
                "/humidity"
            },
        }
    }

    /// The one operation that serves this route.
    pub fn operation(&self) -> (r: Operation)
        ensures
            r == operation_spec(*self),
    {
        match self {
            Route::LedOn => Operation::SetActuator(Level::High),
            Route::LedOff => Operation::SetActuator(Level::Low),
            Route::Temperature => Operation::Measure(Quantity::Temperature),
            Route::Humidity => Operation::Measure(Quantity::Humidity),
        }
    }
}

/// The response to an actuator request whose write was accepted.
pub fn acknowledgment() -> (r: Response)
    ensures
        r.status == 200,
        r.body@ == "success"@,
{
    proof { reveal_strlit("success"); }
    Response { status: 200, body: String::from_str("success") }
}

/// The response to a measurement request, rendered once the measurement has
/// completed and its guard has been released: the value with one decimal
/// place on success, a server error naming the cause otherwise.
pub fn measurement_response(q: Quantity, outcome: &Result<Measurement, SensorError>) -> (r: Response)
    ensures
        r.status == measurement_status(*outcome),
        r.body@ == measurement_body(q, *outcome),
{
    match outcome {
        Ok(m) => Response { status: 200, body: m.text(q) },
        Err(e) => {
            let mut body = match q {
                Quantity::Temperature => {
                    proof { reveal_strlit("read temp from sensor failed, err = "); }
                    String::from_str("read temp from sensor failed, err = ")
                },
                Quantity::Humidity => {
                    proof { reveal_strlit("read humidity from sensor failed, err = "); }
                    String::from_str("read humidity from sensor failed, err = ")
                },
            };
            let cause = e.cause();
            body.append(cause.as_str());
            Response { status: 500, body }
        },
    }
}

} // verus!

verus! {

/// A sensor read that runs out of its timing budget surfaces as a server
/// error that names the timeout, not as a hang or a value.
pub proof fn lemma_timeout_renders_server_error(q: Quantity)
    ensures
        measurement_status(Err(SensorError::Timeout)) == 500,
        measurement_body(q, Err(SensorError::Timeout)) == failure_prefix(q) + "Timeout"@,
{
}

} // verus!
