//! Blocking temperature sensor interface.
//!
//! A driver implements [`TemperatureSensor`] to report samples, and may add
//! [`TemperatureThresholdSet`] and [`TemperatureHysteresis`] where the device
//! can raise an alert when a bound is crossed.
//!
//! What an operation does to the device is for the driver to say: each
//! operation's contract refers to a spec function that the driver defines,
//! relating the driver's state before and after the call to the result; by
//! default it admits every outcome, as the interface itself mandates none. A
//! temporary handle `&mut T` implements every trait that `T` implements, and
//! each of its spec functions is that of `T` on the referenced driver.
use vstd::prelude::*;
use crate::sensor::{ErrorType, Sample};

verus! {

/// Temperature samples are in degrees Celsius.
pub type DegreesCelsius = Sample;

/// Blocking temperature sensor.
pub trait TemperatureSensor: ErrorType {
    /// Whether a read that finds the driver in state `before` may return `r`
    /// and leave the driver in state `after`.
    open spec fn temperature_read(
        before: &Self,
        after: &Self,
        r: Result<DegreesCelsius, Self::Error>,
    ) -> bool {
        true
    }

    /// Returns a temperature sample in degrees Celsius.
    fn temperature(&mut self) -> (r: Result<DegreesCelsius, Self::Error>)
        ensures
            Self::temperature_read(old(self), final(self), r),
    ;
}

impl<T: TemperatureSensor + ?Sized> TemperatureSensor for &mut T {
    open spec fn temperature_read(
        before: &Self,
        after: &Self,
        r: Result<DegreesCelsius, Self::Error>,
    ) -> bool {
        T::temperature_read(&**before, &**after, r)
    }

    #[inline]
    fn temperature(&mut self) -> (r: Result<DegreesCelsius, Self::Error>) {
        T::temperature(self)
    }
}

/// Set temperature thresholds.
pub trait TemperatureThresholdSet: TemperatureSensor {
    /// Whether setting the lower threshold to `threshold`, from state
    /// `before`, may return `r` and leave the driver in state `after`.
    open spec fn temperature_threshold_low_set(
        before: &Self,
        after: &Self,
        threshold: DegreesCelsius,
        r: Result<(), Self::Error>,
    ) -> bool {
        true
    }

    /// Whether setting the upper threshold to `threshold`, from state
    /// `before`, may return `r` and leave the driver in state `after`.
    open spec fn temperature_threshold_high_set(
        before: &Self,
        after: &Self,
        threshold: DegreesCelsius,
        r: Result<(), Self::Error>,
    ) -> bool {
        true
    }

    /// Set lower temperature threshold (in degrees Celsius).
    fn set_temperature_threshold_low(&mut self, threshold: DegreesCelsius) -> (r: Result<
        (),
        Self::Error,
    >)
        ensures
            Self::temperature_threshold_low_set(old(self), final(self), threshold, r),
    ;

    /// Set upper temperature threshold (in degrees Celsius).
    fn set_temperature_threshold_high(&mut self, threshold: DegreesCelsius) -> (r: Result<
        (),
        Self::Error,
    >)
        ensures
            Self::temperature_threshold_high_set(old(self), final(self), threshold, r),
    ;
}

impl<T: TemperatureThresholdSet + ?Sized> TemperatureThresholdSet for &mut T {
    open spec fn temperature_threshold_low_set(
        before: &Self,
        after: &Self,
        threshold: DegreesCelsius,
        r: Result<(), Self::Error>,
    ) -> bool {
        T::temperature_threshold_low_set(&**before, &**after, threshold, r)
    }

    open spec fn temperature_threshold_high_set(
        before: &Self,
        after: &Self,
        threshold: DegreesCelsius,
        r: Result<(), Self::Error>,
    ) -> bool {
        T::temperature_threshold_high_set(&**before, &**after, threshold, r)
    }

    fn set_temperature_threshold_low(&mut self, threshold: DegreesCelsius) -> (r: Result<
        (),
        Self::Error,
    >) {
        T::set_temperature_threshold_low(self, threshold)
    }

    fn set_temperature_threshold_high(&mut self, threshold: DegreesCelsius) -> (r: Result<
        (),
        Self::Error,
    >) {
        T::set_temperature_threshold_high(self, threshold)
    }
}

/// Set temperature threshold hysteresis.
pub trait TemperatureHysteresis: TemperatureThresholdSet {
    /// Whether setting the hysteresis to `hysteresis`, from state `before`,
    /// may return `r` and leave the driver in state `after`.
    open spec fn temperature_hysteresis_set(
        before: &Self,
        after: &Self,
        hysteresis: DegreesCelsius,
        r: Result<(), Self::Error>,
    ) -> bool {
        true
    }

    /// Set temperature threshold hysteresis (in degrees Celsius).
    fn set_temperature_threshold_hysteresis(&mut self, hysteresis: DegreesCelsius) -> (r: Result<
        (),
        Self::Error,
    >)
        ensures
            Self::temperature_hysteresis_set(old(self), final(self), hysteresis, r),
    ;
}

impl<T: TemperatureHysteresis + ?Sized> TemperatureHysteresis for &mut T {
    open spec fn temperature_hysteresis_set(
        before: &Self,
        after: &Self,
        hysteresis: DegreesCelsius,
        r: Result<(), Self::Error>,
    ) -> bool {
        T::temperature_hysteresis_set(&**before, &**after, hysteresis, r)
    }

    fn set_temperature_threshold_hysteresis(&mut self, hysteresis: DegreesCelsius) -> (r: Result<
        (),
        Self::Error,
    >) {
        T::set_temperature_threshold_hysteresis(self, hysteresis)
    }
}

/// A handle forwards every operation unchanged: each outcome that an
/// operation on a handle `&mut T` may have, between two states of the
/// handle, is one that the same operation on `T` may have between the
/// states of the driver it refers to, and back.
pub proof fn lemma_handle_forwards_temperature<T: TemperatureHysteresis + ?Sized>()
    ensures
        forall|before: &mut T, after: &mut T, r: Result<DegreesCelsius, T::Error>|
            #![trigger <&mut T as TemperatureSensor>::temperature_read(&before, &after, r)]
            <&mut T as TemperatureSensor>::temperature_read(&before, &after, r)
                == T::temperature_read(&*before, &*after, r),
        forall|before: &mut T, after: &mut T, v: DegreesCelsius, r: Result<(), T::Error>|
            #![trigger <&mut T as TemperatureThresholdSet>::temperature_threshold_low_set(&before, &after, v, r)]
            <&mut T as TemperatureThresholdSet>::temperature_threshold_low_set(&before, &after, v, r)
                == T::temperature_threshold_low_set(&*before, &*after, v, r),
        forall|before: &mut T, after: &mut T, v: DegreesCelsius, r: Result<(), T::Error>|
            #![trigger <&mut T as TemperatureThresholdSet>::temperature_threshold_high_set(&before, &after, v, r)]
            <&mut T as TemperatureThresholdSet>::temperature_threshold_high_set(&before, &after, v, r)
                == T::temperature_threshold_high_set(&*before, &*after, v, r),
        forall|before: &mut T, after: &mut T, v: DegreesCelsius, r: Result<(), T::Error>|
            #![trigger <&mut T as TemperatureHysteresis>::temperature_hysteresis_set(&before, &after, v, r)]
            <&mut T as TemperatureHysteresis>::temperature_hysteresis_set(&before, &after, v, r)
                == T::temperature_hysteresis_set(&*before, &*after, v, r),
{
}

} // verus!
