//! Blocking relative humidity sensor interface.
//!
//! A driver implements [`RelativeHumiditySensor`] to report samples, and may add
//! [`RelativeHumidityThresholdSet`] and [`RelativeHumidityHysteresis`] where the device
//! can raise an alert when a bound is crossed.
//!
//! What an operation does to the device is for the driver to say: each
//! operation's contract refers to a spec function that the driver defines,
//! relating the driver's state before and after the call to the result; by
//! default it admits every outcome, as the interface itself mandates none. A
//! temporary handle `&mut T` implements every trait that `T` implements, and
//! each of its spec functions is that of `T` on the referenced driver.
use vstd::prelude::*;
use crate::sensor::{ErrorType, Sample};

verus! {

/// Relative humidity samples are percentages.
pub type Percentage = Sample;

/// Blocking relative humidity sensor.
pub trait RelativeHumiditySensor: ErrorType {
    /// Whether a read that finds the driver in state `before` may return `r`
    /// and leave the driver in state `after`.
    open spec fn relative_humidity_read(
        before: &Self,
        after: &Self,
        r: Result<Percentage, Self::Error>,
    ) -> bool {
        true
    }

    /// Returns a relative humidity sample as a percentage.
    fn relative_humidity(&mut self) -> (r: Result<Percentage, Self::Error>)
        ensures
            Self::relative_humidity_read(old(self), final(self), r),
    ;
}

impl<T: RelativeHumiditySensor + ?Sized> RelativeHumiditySensor for &mut T {
    open spec fn relative_humidity_read(
        before: &Self,
        after: &Self,
        r: Result<Percentage, Self::Error>,
    ) -> bool {
        T::relative_humidity_read(&**before, &**after, r)
    }

    #[inline]
    fn relative_humidity(&mut self) -> (r: Result<Percentage, Self::Error>) {
        T::relative_humidity(self)
    }
}

/// Set relative humidity thresholds.
pub trait RelativeHumidityThresholdSet: RelativeHumiditySensor {
    /// Whether setting the lower threshold to `threshold`, from state
    /// `before`, may return `r` and leave the driver in state `after`.
    open spec fn relative_humidity_threshold_low_set(
        before: &Self,
        after: &Self,
        threshold: Percentage,
        r: Result<(), Self::Error>,
    ) -> bool {
        true
    }

    /// Whether setting the upper threshold to `threshold`, from state
    /// `before`, may return `r` and leave the driver in state `after`.
    open spec fn relative_humidity_threshold_high_set(
        before: &Self,
        after: &Self,
        threshold: Percentage,
        r: Result<(), Self::Error>,
    ) -> bool {
        true
    }

    /// Set lower relative humidity threshold (as a percentage).
    fn set_relative_humidity_threshold_low(&mut self, threshold: Percentage) -> (r: Result<
        (),
        Self::Error,
    >)
        ensures
            Self::relative_humidity_threshold_low_set(old(self), final(self), threshold, r),
    ;

    /// Set upper relative humidity threshold (as a percentage).
    fn set_relative_humidity_threshold_high(&mut self, threshold: Percentage) -> (r: Result<
        (),
        Self::Error,
    >)
        ensures
            Self::relative_humidity_threshold_high_set(old(self), final(self), threshold, r),
    ;
}

impl<T: RelativeHumidityThresholdSet + ?Sized> RelativeHumidityThresholdSet for &mut T {
    open spec fn relative_humidity_threshold_low_set(
        before: &Self,
        after: &Self,
        threshold: Percentage,
        r: Result<(), Self::Error>,
    ) -> bool {
        T::relative_humidity_threshold_low_set(&**before, &**after, threshold, r)
    }

    open spec fn relative_humidity_threshold_high_set(
        before: &Self,
        after: &Self,
        threshold: Percentage,
        r: Result<(), Self::Error>,
    ) -> bool {
        T::relative_humidity_threshold_high_set(&**before, &**after, threshold, r)
    }

    fn set_relative_humidity_threshold_low(&mut self, threshold: Percentage) -> (r: Result<
        (),
        Self::Error,
    >) {
        T::set_relative_humidity_threshold_low(self, threshold)
    }

    fn set_relative_humidity_threshold_high(&mut self, threshold: Percentage) -> (r: Result<
        (),
        Self::Error,
    >) {
        T::set_relative_humidity_threshold_high(self, threshold)
    }
}

/// Set relative humidity threshold hysteresis.
pub trait RelativeHumidityHysteresis: RelativeHumidityThresholdSet {
    /// Whether setting the hysteresis to `hysteresis`, from state `before`,
    /// may return `r` and leave the driver in state `after`.
    open spec fn relative_humidity_hysteresis_set(
        before: &Self,
        after: &Self,
        hysteresis: Percentage,
        r: Result<(), Self::Error>,
    ) -> bool {
        true
    }

    /// Set relative humidity threshold hysteresis (as a percentage).
    fn set_relative_humidity_threshold_hysteresis(&mut self, hysteresis: Percentage) -> (r: Result<
        (),
        Self::Error,
    >)
        ensures
            Self::relative_humidity_hysteresis_set(old(self), final(self), hysteresis, r),
    ;
}

impl<T: RelativeHumidityHysteresis + ?Sized> RelativeHumidityHysteresis for &mut T {
    open spec fn relative_humidity_hysteresis_set(
        before: &Self,
        after: &Self,
        hysteresis: Percentage,
        r: Result<(), Self::Error>,
    ) -> bool {
        T::relative_humidity_hysteresis_set(&**before, &**after, hysteresis, r)
    }

    fn set_relative_humidity_threshold_hysteresis(&mut self, hysteresis: Percentage) -> (r: Result<
        (),
        Self::Error,
    >) {
        T::set_relative_humidity_threshold_hysteresis(self, hysteresis)
    }
}

/// A handle forwards every operation unchanged: each outcome that an
/// operation on a handle `&mut T` may have, between two states of the
/// handle, is one that the same operation on `T` may have between the
/// states of the driver it refers to, and back.
pub proof fn lemma_handle_forwards_relative_humidity<T: RelativeHumidityHysteresis + ?Sized>()
    ensures
        forall|before: &mut T, after: &mut T, r: Result<Percentage, T::Error>|
            #![trigger <&mut T as RelativeHumiditySensor>::relative_humidity_read(&before, &after, r)]
            <&mut T as RelativeHumiditySensor>::relative_humidity_read(&before, &after, r)
                == T::relative_humidity_read(&*before, &*after, r),
        forall|before: &mut T, after: &mut T, v: Percentage, r: Result<(), T::Error>|
            #![trigger <&mut T as RelativeHumidityThresholdSet>::relative_humidity_threshold_low_set(&before, &after, v, r)]
            <&mut T as RelativeHumidityThresholdSet>::relative_humidity_threshold_low_set(&before, &after, v, r)
                == T::relative_humidity_threshold_low_set(&*before, &*after, v, r),
        forall|before: &mut T, after: &mut T, v: Percentage, r: Result<(), T::Error>|
            #![trigger <&mut T as RelativeHumidityThresholdSet>::relative_humidity_threshold_high_set(&before, &after, v, r)]
            <&mut T as RelativeHumidityThresholdSet>::relative_humidity_threshold_high_set(&before, &after, v, r)
                == T::relative_humidity_threshold_high_set(&*before, &*after, v, r),
        forall|before: &mut T, after: &mut T, v: Percentage, r: Result<(), T::Error>|
            #![trigger <&mut T as RelativeHumidityHysteresis>::relative_humidity_hysteresis_set(&before, &after, v, r)]
            <&mut T as RelativeHumidityHysteresis>::relative_humidity_hysteresis_set(&before, &after, v, r)
                == T::relative_humidity_hysteresis_set(&*before, &*after, v, r),
{
}

} // verus!
