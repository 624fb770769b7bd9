//! Error handling and traits shared by all sensors.
use vstd::prelude::*;

verus! {

/// Sensor error kind.
///
/// A common set of sensor errors. Drivers are free to define more specific
/// error types; by mapping them onto these kinds, generic code can still
/// react to them.
#[derive(Debug, Copy, Clone, Eq, PartialEq, Ord, PartialOrd, Hash, Structural)]
#[non_exhaustive]
pub enum ErrorKind {
    /// An error occurred on the peripheral behind the sensor (an I2C or ADC error, say).
    Peripheral,
    /// The sensor is not yet ready to be sampled.
    NotReady,
    /// The sensor is saturated and the sample may be invalid.
    Saturated,
    /// The sensor was configured with invalid input.
    InvalidInput,
    /// Some other error occurred.
    Other,
}

impl ErrorKind {
    /// The message that describes each kind.
    pub open spec fn spec_description(self) -> Seq<char> {
        match self {
            ErrorKind::Peripheral =>
                "An error occured on the underlying peripheral. The original error may contain more informaton"@,
            ErrorKind::NotReady => "Sensor is not yet ready to be sampled"@,
            ErrorKind::Saturated => "Sensor is saturated thus samples may be invalid"@,
            ErrorKind::InvalidInput => "Sensor was configured with invalid input"@,
            ErrorKind::Other =>
                "A different error occurred. The original error may contain more information"@,
        }
    }

    /// Returns a message that describes this kind.
    pub fn description(&self) -> (s: &'static str)
        ensures
            s@ == self.spec_description(),
    {
        match self {
            ErrorKind::Peripheral =>
                "An error occured on the underlying peripheral. The original error may contain more informaton",
            ErrorKind::NotReady => "Sensor is not yet ready to be sampled",
            ErrorKind::Saturated => "Sensor is saturated thus samples may be invalid",
            ErrorKind::InvalidInput => "Sensor was configured with invalid input",
            ErrorKind::Other =>
                "A different error occurred. The original error may contain more information",
        }
    }
}

/// Sensor error.
pub trait Error: core::fmt::Debug {
    /// Converts the error to a generic sensor error kind.
    ///
    /// Errors freely defined by drivers can thus be mapped onto a common set
    /// upon which generic code can act.
    fn kind(&self) -> ErrorKind;
}

impl Error for core::convert::Infallible {
    // No value of this type exists, so this is never called; `Other` only
    // gives it a result of the right type.
    fn kind(&self) -> ErrorKind {
        ErrorKind::Other
    }
}

impl Error for ErrorKind {
    fn kind(&self) -> (k: ErrorKind)
        ensures
            k == *self,
    {
        *self
    }
}

/// A single-precision sample, held as the bit pattern of an IEEE 754
/// `binary32` value.
///
/// The unit of a sample is given by the quantity it measures (see the type
/// aliases of each quantity); the type itself does not enforce it.
#[derive(Debug, Copy, Clone, PartialEq, Eq, Structural)]
pub struct Sample {
    /// The IEEE 754 `binary32` encoding of the value.
    pub bits: u32,
}

/// Associates a sensor type with its error type.
pub trait ErrorType {
    /// The error type of this sensor.
    type Error: Error;
}

impl<T: ErrorType + ?Sized> ErrorType for &mut T {
    type Error = T::Error;
}

} // verus!
