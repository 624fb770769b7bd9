//! An in-memory sensor that reports stored samples and records the bounds it
//! is given: a stand-in for a device when exercising generic code.
use vstd::prelude::*;
use crate::sensor::{ErrorType, Sample};
use crate::temperature::{
    DegreesCelsius, TemperatureHysteresis, TemperatureSensor, TemperatureThresholdSet,
};
use crate::humidity::{
    Percentage, RelativeHumidityHysteresis, RelativeHumiditySensor, RelativeHumidityThresholdSet,
};

verus! {

/// What a simulated sensor keeps for one quantity.
#[derive(Debug, Copy, Clone, PartialEq, Eq, Structural)]
pub struct Channel {
    /// The sample that every read returns.
    pub value: Sample,
    /// The lower threshold, once one has been set.
    pub threshold_low: Option<Sample>,
    /// The upper threshold, once one has been set.
    pub threshold_high: Option<Sample>,
    /// The threshold hysteresis, once one has been set.
    pub hysteresis: Option<Sample>,
}

impl Channel {
    /// A channel that holds `value` and no bounds.
    pub open spec fn spec_new(value: Sample) -> Channel {
        Channel { value, threshold_low: None, threshold_high: None, hysteresis: None }
    }

    /// Returns a channel that holds `value` and no bounds.
    pub fn new(value: Sample) -> (c: Channel)
        ensures
            c == Channel::spec_new(value),
    {
        Channel { value, threshold_low: None, threshold_high: None, hysteresis: None }
    }
}

/// A simulated temperature and relative humidity sensor. It never fails.
#[derive(Debug, Copy, Clone, PartialEq, Eq, Structural)]
pub struct SimulatedSensor {
    /// The temperature channel, in degrees Celsius.
    pub temperature: Channel,
    /// The relative humidity channel, as a percentage.
    pub humidity: Channel,
}

impl SimulatedSensor {
    /// Returns a sensor that reads `temperature` and `humidity`, with no bounds set.
    pub fn new(temperature: DegreesCelsius, humidity: Percentage) -> (s: SimulatedSensor)
        ensures
            s.temperature == Channel::spec_new(temperature),
            s.humidity == Channel::spec_new(humidity),
    {
        SimulatedSensor { temperature: Channel::new(temperature), humidity: Channel::new(humidity) }
    }

    /// Changes the temperature that later reads return, as the environment would.
    pub fn set_temperature_sample(&mut self, value: DegreesCelsius)
        ensures
            final(self).temperature == (Channel { value, ..old(self).temperature }),
            final(self).humidity == old(self).humidity,
    {
        self.temperature.value = value;
    }

    /// Changes the relative humidity that later reads return, as the environment would.
    pub fn set_relative_humidity_sample(&mut self, value: Percentage)
        ensures
            final(self).humidity == (Channel { value, ..old(self).humidity }),
            final(self).temperature == old(self).temperature,
    {
        self.humidity.value = value;
    }
}

impl ErrorType for SimulatedSensor {
    type Error = core::convert::Infallible;
}

impl TemperatureSensor for SimulatedSensor {
    /// A read returns the stored temperature and changes nothing.
    open spec fn temperature_read(
        before: &Self,
        after: &Self,
        r: Result<DegreesCelsius, Self::Error>,
    ) -> bool {
        &&& r == Ok::<DegreesCelsius, Self::Error>(before.temperature.value)
        &&& *after == *before
    }

    fn temperature(&mut self) -> (r: Result<DegreesCelsius, Self::Error>) {
        Ok(self.temperature.value)
    }
}

impl TemperatureThresholdSet for SimulatedSensor {
    /// Setting the lower bound records it, succeeds, and changes nothing else.
    open spec fn temperature_threshold_low_set(
        before: &Self,
        after: &Self,
        threshold: DegreesCelsius,
        r: Result<(), Self::Error>,
    ) -> bool {
        &&& r is Ok
        &&& after.temperature == (Channel { threshold_low: Some(threshold), ..before.temperature })
        &&& after.humidity == before.humidity
    }

    /// Setting the upper bound records it, succeeds, and changes nothing else.
    open spec fn temperature_threshold_high_set(
        before: &Self,
        after: &Self,
        threshold: DegreesCelsius,
        r: Result<(), Self::Error>,
    ) -> bool {
        &&& r is Ok
        &&& after.temperature == (Channel { threshold_high: Some(threshold), ..before.temperature })
        &&& after.humidity == before.humidity
    }

    fn set_temperature_threshold_low(&mut self, threshold: DegreesCelsius) -> (r: Result<
        (),
        Self::Error,
    >) {
        self.temperature.threshold_low = Some(threshold);
        Ok(())
    }

    fn set_temperature_threshold_high(&mut self, threshold: DegreesCelsius) -> (r: Result<
        (),
        Self::Error,
    >) {
        self.temperature.threshold_high = Some(threshold);
        Ok(())
    }
}

impl TemperatureHysteresis for SimulatedSensor {
    /// Setting the hysteresis records it, succeeds, and changes nothing else.
    open spec fn temperature_hysteresis_set(
        before: &Self,
        after: &Self,
        hysteresis: DegreesCelsius,
        r: Result<(), Self::Error>,
    ) -> bool {
        &&& r is Ok
        &&& after.temperature == (Channel { hysteresis: Some(hysteresis), ..before.temperature })
        &&& after.humidity == before.humidity
    }

    fn set_temperature_threshold_hysteresis(&mut self, hysteresis: DegreesCelsius) -> (r: Result<
        (),
        Self::Error,
    >) {
        self.temperature.hysteresis = Some(hysteresis);
        Ok(())
    }
}

impl RelativeHumiditySensor for SimulatedSensor {
    /// A read returns the stored relative humidity and changes nothing.
    open spec fn relative_humidity_read(
        before: &Self,
        after: &Self,
        r: Result<Percentage, Self::Error>,
    ) -> bool {
        &&& r == Ok::<Percentage, Self::Error>(before.humidity.value)
        &&& *after == *before
    }

    fn relative_humidity(&mut self) -> (r: Result<Percentage, Self::Error>) {
        Ok(self.humidity.value)
    }
}

impl RelativeHumidityThresholdSet for SimulatedSensor {
    /// Setting the lower bound records it, succeeds, and changes nothing else.
    open spec fn relative_humidity_threshold_low_set(
        before: &Self,
        after: &Self,
        threshold: Percentage,
        r: Result<(), Self::Error>,
    ) -> bool {
        &&& r is Ok
        &&& after.humidity == (Channel { threshold_low: Some(threshold), ..before.humidity })
        &&& after.temperature == before.temperature
    }

    /// Setting the upper bound records it, succeeds, and changes nothing else.
    open spec fn relative_humidity_threshold_high_set(
        before: &Self,
        after: &Self,
        threshold: Percentage,
        r: Result<(), Self::Error>,
    ) -> bool {
        &&& r is Ok
        &&& after.humidity == (Channel { threshold_high: Some(threshold), ..before.humidity })
        &&& after.temperature == before.temperature
    }

    fn set_relative_humidity_threshold_low(&mut self, threshold: Percentage) -> (r: Result<
        (),
        Self::Error,
    >) {
        self.humidity.threshold_low = Some(threshold);
        Ok(())
    }

    fn set_relative_humidity_threshold_high(&mut self, threshold: Percentage) -> (r: Result<
        (),
        Self::Error,
    >) {
        self.humidity.threshold_high = Some(threshold);
        Ok(())
    }
}

impl RelativeHumidityHysteresis for SimulatedSensor {
    /// Setting the hysteresis records it, succeeds, and changes nothing else.
    open spec fn relative_humidity_hysteresis_set(
        before: &Self,
        after: &Self,
        hysteresis: Percentage,
        r: Result<(), Self::Error>,
    ) -> bool {
        &&& r is Ok
        &&& after.humidity == (Channel { hysteresis: Some(hysteresis), ..before.humidity })
        &&& after.temperature == before.temperature
    }

    fn set_relative_humidity_threshold_hysteresis(&mut self, hysteresis: Percentage) -> (r: Result<
        (),
        Self::Error,
    >) {
        self.humidity.hysteresis = Some(hysteresis);
        Ok(())
    }
}

/// Two consecutive temperature reads both return the stored sample.
pub proof fn lemma_temperature_reads_repeat(
    s0: SimulatedSensor,
    s1: SimulatedSensor,
    s2: SimulatedSensor,
    r1: Result<DegreesCelsius, core::convert::Infallible>,
    r2: Result<DegreesCelsius, core::convert::Infallible>,
)
    requires
        SimulatedSensor::temperature_read(&s0, &s1, r1),
        SimulatedSensor::temperature_read(&s1, &s2, r2),
    ensures
        r1 == Ok::<DegreesCelsius, core::convert::Infallible>(s0.temperature.value),
        r2 == r1,
{
}

/// Setting a temperature bound or the hysteresis keeps both stored samples,
/// so that reads before and after it agree; only a new sample changes them.
pub proof fn lemma_temperature_settings_keep_samples(
    s0: SimulatedSensor,
    s1: SimulatedSensor,
    v: DegreesCelsius,
    r: Result<(), core::convert::Infallible>,
)
    requires
        SimulatedSensor::temperature_threshold_low_set(&s0, &s1, v, r)
            || SimulatedSensor::temperature_threshold_high_set(&s0, &s1, v, r)
            || SimulatedSensor::temperature_hysteresis_set(&s0, &s1, v, r),
    ensures
        s1.temperature.value == s0.temperature.value,
        s1.humidity == s0.humidity,
{
}

/// Setting the lower temperature bound to `low` and the upper one to
/// `high`, in either order, leaves each bound as it was set.
pub proof fn lemma_temperature_thresholds_independent(
    s0: SimulatedSensor,
    s1: SimulatedSensor,
    s2: SimulatedSensor,
    low: DegreesCelsius,
    high: DegreesCelsius,
    r1: Result<(), core::convert::Infallible>,
    r2: Result<(), core::convert::Infallible>,
)
    requires
        (SimulatedSensor::temperature_threshold_low_set(&s0, &s1, low, r1)
            && SimulatedSensor::temperature_threshold_high_set(&s1, &s2, high, r2))
            || (SimulatedSensor::temperature_threshold_high_set(&s0, &s1, high, r1)
            && SimulatedSensor::temperature_threshold_low_set(&s1, &s2, low, r2)),
    ensures
        s2.temperature.threshold_low == Some(low),
        s2.temperature.threshold_high == Some(high),
{
}

/// Setting the temperature hysteresis to `band` stores it and keeps the
/// bounds that were set before.
pub proof fn lemma_temperature_hysteresis_independent(
    s0: SimulatedSensor,
    s1: SimulatedSensor,
    band: DegreesCelsius,
    r: Result<(), core::convert::Infallible>,
)
    requires
        SimulatedSensor::temperature_hysteresis_set(&s0, &s1, band, r),
    ensures
        s1.temperature.hysteresis == Some(band),
        s1.temperature.threshold_low == s0.temperature.threshold_low,
        s1.temperature.threshold_high == s0.temperature.threshold_high,
{
}

/// Two consecutive relative humidity reads both return the stored sample.
pub proof fn lemma_relative_humidity_reads_repeat(
    s0: SimulatedSensor,
    s1: SimulatedSensor,
    s2: SimulatedSensor,
    r1: Result<Percentage, core::convert::Infallible>,
    r2: Result<Percentage, core::convert::Infallible>,
)
    requires
        SimulatedSensor::relative_humidity_read(&s0, &s1, r1),
        SimulatedSensor::relative_humidity_read(&s1, &s2, r2),
    ensures
        r1 == Ok::<Percentage, core::convert::Infallible>(s0.humidity.value),
        r2 == r1,
{
}

/// Setting a relative humidity bound or the hysteresis keeps both stored samples,
/// so that reads before and after it agree; only a new sample changes them.
pub proof fn lemma_relative_humidity_settings_keep_samples(
    s0: SimulatedSensor,
    s1: SimulatedSensor,
    v: Percentage,
    r: Result<(), core::convert::Infallible>,
)
    requires
        SimulatedSensor::relative_humidity_threshold_low_set(&s0, &s1, v, r)
            || SimulatedSensor::relative_humidity_threshold_high_set(&s0, &s1, v, r)
            || SimulatedSensor::relative_humidity_hysteresis_set(&s0, &s1, v, r),
    ensures
        s1.humidity.value == s0.humidity.value,
        s1.temperature == s0.temperature,
{
}

/// Setting the lower relative humidity bound to `low` and the upper one to
/// `high`, in either order, leaves each bound as it was set.
pub proof fn lemma_relative_humidity_thresholds_independent(
    s0: SimulatedSensor,
    s1: SimulatedSensor,
    s2: SimulatedSensor,
    low: Percentage,
    high: Percentage,
    r1: Result<(), core::convert::Infallible>,
    r2: Result<(), core::convert::Infallible>,
)
    requires
        (SimulatedSensor::relative_humidity_threshold_low_set(&s0, &s1, low, r1)
            && SimulatedSensor::relative_humidity_threshold_high_set(&s1, &s2, high, r2))
            || (SimulatedSensor::relative_humidity_threshold_high_set(&s0, &s1, high, r1)
            && SimulatedSensor::relative_humidity_threshold_low_set(&s1, &s2, low, r2)),
    ensures
        s2.humidity.threshold_low == Some(low),
        s2.humidity.threshold_high == Some(high),
{
}

/// Setting the relative humidity hysteresis to `band` stores it and keeps the
/// bounds that were set before.
pub proof fn lemma_relative_humidity_hysteresis_independent(
    s0: SimulatedSensor,
    s1: SimulatedSensor,
    band: Percentage,
    r: Result<(), core::convert::Infallible>,
)
    requires
        SimulatedSensor::relative_humidity_hysteresis_set(&s0, &s1, band, r),
    ensures
        s1.humidity.hysteresis == Some(band),
        s1.humidity.threshold_low == s0.humidity.threshold_low,
        s1.humidity.threshold_high == s0.humidity.threshold_high,
{
}

} // verus!
