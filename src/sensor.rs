use vstd::prelude::*;
use vstd::string::StringExecFns;

use crate::fault::ErrorClass;
use crate::units::{render_tenths, tenths_text};

verus! {

/// One fresh reading of the combined sensor, in tenths of a unit as the
/// sensor reports them.
#[derive(Clone, Copy, Debug, PartialEq, Eq, Structural)]
pub struct Measurement {
    /// Temperature in tenths of a degree Celsius.
    pub temperature: i16,
    /// Relative humidity in tenths of a percent.
    pub humidity: u16,
}

/// Why a measurement of the combined sensor failed.
#[derive(Clone, Copy, Debug, PartialEq, Eq, Structural)]
pub enum SensorError {
    /// The sensor did not answer within its timing budget.
    Timeout,
    /// The frame arrived but its checksum did not match.
    CrcMismatch,
    /// The data pin itself reported an error.
    Gpio,
}

/// Why a conversion of the analog light input failed.
#[derive(Clone, Copy, Debug, PartialEq, Eq, Structural)]
pub enum AdcError {
    Conversion,
}

/// Which of the two quantities of a measurement is asked for.
#[derive(Clone, Copy, Debug, PartialEq, Eq, Structural)]
pub enum Quantity {
    Temperature,
    Humidity,
}

pub open spec fn raw_of(m: Measurement, q: Quantity) -> int {
    match q {
        Quantity::Temperature => m.temperature as int,
        Quantity::Humidity => m.humidity as int,
    }
}

pub open spec fn cause_text(e: SensorError) -> Seq<char> {
    match e {
        SensorError::Timeout => "Timeout"@,
        SensorError::CrcMismatch => "CrcMismatch"@,
        SensorError::Gpio => "Gpio"@,
    }
}

impl Measurement {
    /// The raw value of quantity `q`, in tenths.
    pub fn raw(&self, q: Quantity) -> (r: i32)
        ensures
            r as int == raw_of(*self, q),
    {
        match q {
            Quantity::Temperature => self.temperature as i32,
            Quantity::Humidity => self.humidity as i32,
        }
    }

    /// Quantity `q` in physical units (the raw value divided by ten), as text.
    pub fn text(&self, q: Quantity) -> (r: String)
        ensures
            r@ == tenths_text(raw_of(*self, q)),
    {
        render_tenths(self.raw(q))
    }
}

impl SensorError {
    /// Every failure of the combined sensor is a timing failure of its
    /// protocol: recoverable, and retried only by the next caller.
    pub fn class(&self) -> (c: ErrorClass)
        ensures
            c == ErrorClass::HardwareTimingFailure,
    {
        ErrorClass::HardwareTimingFailure
    }

    /// A short name of the cause, for error responses and log lines.
    pub fn cause(&self) -> (r: String)
        ensures
            r@ == cause_text(*self),
    {
        match self {
            SensorError::Timeout => {
                proof { reveal_strlit("Timeout"); }
                String::from_str("Timeout")
            },
            SensorError::CrcMismatch => {
                proof { reveal_strlit("CrcMismatch"); }
                String::from_str("CrcMismatch")
            },
            SensorError::Gpio => {
                proof { reveal_strlit("Gpio"); }
                String::from_str("Gpio")
            },
        }
    }
}

impl AdcError {
    pub fn class(&self) -> (c: ErrorClass)
        ensures
            c == ErrorClass::ConversionFailure,
    {
        ErrorClass::ConversionFailure
    }
}

} // verus!
