use embedded_sensors::sensor::{Error, ErrorKind, ErrorType, Sample};
use embedded_sensors::temperature::{DegreesCelsius, TemperatureSensor, TemperatureThresholdSet};

const ALL_KINDS: [ErrorKind; 5] = [
    ErrorKind::Peripheral,
    ErrorKind::NotReady,
    ErrorKind::Saturated,
    ErrorKind::InvalidInput,
    ErrorKind::Other,
];

#[test]
fn error_kind_maps_to_itself() {
    for k in ALL_KINDS {
        assert_eq!(k.kind(), k);
    }
}

#[test]
fn error_kind_descriptions() {
    assert_eq!(
        ErrorKind::Peripheral.description(),
        "An error occured on the underlying peripheral. The original error may contain more informaton"
    );
    assert_eq!(ErrorKind::NotReady.description(), "Sensor is not yet ready to be sampled");
    assert_eq!(
        ErrorKind::Saturated.description(),
        "Sensor is saturated thus samples may be invalid"
    );
    assert_eq!(ErrorKind::InvalidInput.description(), "Sensor was configured with invalid input");
    assert_eq!(
        ErrorKind::Other.description(),
        "A different error occurred. The original error may contain more information"
    );
}

#[test]
fn error_kinds_are_ordered_as_declared() {
    for i in 0..ALL_KINDS.len() {
        for j in 0..ALL_KINDS.len() {
            assert_eq!(ALL_KINDS[i] < ALL_KINDS[j], i < j);
            assert_eq!(ALL_KINDS[i] == ALL_KINDS[j], i == j);
        }
    }
}

#[derive(Debug)]
struct MockError;

impl Error for MockError {
    fn kind(&self) -> ErrorKind {
        ErrorKind::Other
    }
}

/// A driver whose every operation fails.
struct FailingSensor;

impl ErrorType for FailingSensor {
    type Error = MockError;
}

impl TemperatureSensor for FailingSensor {
    fn temperature(&mut self) -> Result<DegreesCelsius, Self::Error> {
        Err(MockError)
    }
}

impl TemperatureThresholdSet for FailingSensor {
    fn set_temperature_threshold_low(&mut self, _: DegreesCelsius) -> Result<(), Self::Error> {
        Err(MockError)
    }

    fn set_temperature_threshold_high(&mut self, _: DegreesCelsius) -> Result<(), Self::Error> {
        Err(MockError)
    }
}

fn read_kind<S: TemperatureSensor>(sensor: &mut S) -> Option<ErrorKind> {
    sensor.temperature().err().map(|e| e.kind())
}

fn set_kind<S: TemperatureThresholdSet>(sensor: &mut S) -> Option<ErrorKind> {
    let bound = Sample { bits: 1.0f32.to_bits() };
    sensor.set_temperature_threshold_low(bound).err().map(|e| e.kind())
}

#[test]
fn driver_error_classified_generically() {
    let mut sensor = FailingSensor;
    assert_eq!(read_kind(&mut sensor), Some(ErrorKind::Other));
    assert_eq!(set_kind(&mut sensor), Some(ErrorKind::Other));
    let mut handle = &mut sensor;
    assert_eq!(read_kind(&mut handle), Some(ErrorKind::Other));
    assert_eq!(set_kind(&mut handle), Some(ErrorKind::Other));
}
