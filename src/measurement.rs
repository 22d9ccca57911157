use vstd::prelude::*;

verus! {

/// One reading of the temperature and humidity sensor.
///
/// Both values are in tenths: `temp` in tenths of a degree Celsius,
/// `hum` in tenths of a percent of relative humidity.
#[derive(Clone, Copy, Debug, PartialEq, Eq, Structural)]
pub struct Dht22Measurement {
    pub temp: i32,
    pub hum: i32,
}

/// The sensor could not be read this time.
#[derive(Clone, Copy, Debug, PartialEq, Eq, Structural)]
pub struct SensorError;

/// A source of readings, queried synchronously once per tick.
///
/// Whether a query succeeds, and what it yields, is up to the device.
pub trait TemperatureSensor {
    fn read(&mut self) -> Result<Dht22Measurement, SensorError>;
}

} // verus!
