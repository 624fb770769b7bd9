use embedded_sensors::sensor::{Error, ErrorKind, ErrorType, Sample};
use embedded_sensors::temperature::{
    DegreesCelsius, TemperatureHysteresis, TemperatureSensor, TemperatureThresholdSet,
};

const TEST_TEMP: f32 = 27.0;

fn celsius(v: f32) -> DegreesCelsius {
    Sample { bits: v.to_bits() }
}

fn value(s: DegreesCelsius) -> f32 {
    f32::from_bits(s.bits)
}

fn approx_eq(a: f32, b: f32) -> bool {
    (a - b).abs() < 1e-6
}

#[derive(Debug)]
struct MockError;

impl Error for MockError {
    fn kind(&self) -> ErrorKind {
        ErrorKind::Other
    }
}

struct MockTempSensor {
    value: DegreesCelsius,
    threshold_low: Option<DegreesCelsius>,
    threshold_high: Option<DegreesCelsius>,
    hysteresis: Option<DegreesCelsius>,
}

impl ErrorType for MockTempSensor {
    type Error = MockError;
}

impl TemperatureSensor for MockTempSensor {
    fn temperature(&mut self) -> Result<DegreesCelsius, Self::Error> {
        Ok(self.value)
    }
}

impl TemperatureThresholdSet for MockTempSensor {
    fn set_temperature_threshold_low(
        &mut self,
        threshold: DegreesCelsius,
    ) -> Result<(), Self::Error> {
        self.threshold_low = Some(threshold);
        Ok(())
    }

    fn set_temperature_threshold_high(
        &mut self,
        threshold: DegreesCelsius,
    ) -> Result<(), Self::Error> {
        self.threshold_high = Some(threshold);
        Ok(())
    }
}

impl TemperatureHysteresis for MockTempSensor {
    fn set_temperature_threshold_hysteresis(
        &mut self,
        hysteresis: DegreesCelsius,
    ) -> Result<(), Self::Error> {
        self.hysteresis = Some(hysteresis);
        Ok(())
    }
}

fn mock() -> MockTempSensor {
    MockTempSensor {
        value: celsius(TEST_TEMP),
        threshold_low: None,
        threshold_high: None,
        hysteresis: None,
    }
}

#[test]
fn test_temperature_sensor_trait() {
    let mut sensor = mock();
    let result = sensor.temperature();
    assert!(result.is_ok());
    assert!(approx_eq(value(result.unwrap()), TEST_TEMP));
}

#[test]
fn test_temperature_sensor_trait_mut_ref() {
    let mut sensor = mock();
    let mut_ref = &mut sensor;
    let result = mut_ref.temperature();
    assert!(result.is_ok());
    let v = result.unwrap();
    assert!(approx_eq(value(v), TEST_TEMP));
}

#[test]
fn test_temperature_threshold_set_low() {
    let mut sensor = mock();
    let threshold = 20.0;
    let result = sensor.set_temperature_threshold_low(celsius(threshold));
    assert!(result.is_ok());
    assert!(approx_eq(value(sensor.threshold_low.unwrap()), threshold));
}

#[test]
fn test_temperature_threshold_set_high() {
    let mut sensor = mock();
    let threshold = 30.0;
    let result = sensor.set_temperature_threshold_high(celsius(threshold));
    assert!(result.is_ok());
    assert!(approx_eq(value(sensor.threshold_high.unwrap()), threshold));
}

#[test]
fn test_temperature_threshold_set_mut_ref() {
    let mut sensor = mock();
    let mut_ref = &mut sensor;
    let low_threshold = 15.0;
    let high_threshold = 35.0;

    let result_low = mut_ref.set_temperature_threshold_low(celsius(low_threshold));
    assert!(result_low.is_ok());

    let result_high = mut_ref.set_temperature_threshold_high(celsius(high_threshold));
    assert!(result_high.is_ok());

    assert!(approx_eq(value(sensor.threshold_low.unwrap()), low_threshold));
    assert!(approx_eq(value(sensor.threshold_high.unwrap()), high_threshold));
}

#[test]
fn test_temperature_hysteresis() {
    let mut sensor = mock();
    let hyst = 2.0;
    let result = sensor.set_temperature_threshold_hysteresis(celsius(hyst));
    assert!(result.is_ok());
    assert!(approx_eq(value(sensor.hysteresis.unwrap()), hyst));
}

#[test]
fn test_temperature_hysteresis_mut_ref() {
    let mut sensor = mock();
    let mut_ref = &mut sensor;
    let hyst = 1.5;
    let result = mut_ref.set_temperature_threshold_hysteresis(celsius(hyst));
    assert!(result.is_ok());
    assert!(approx_eq(value(sensor.hysteresis.unwrap()), hyst));
}
