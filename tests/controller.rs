use std::cell::RefCell;
use std::collections::VecDeque;
use std::rc::Rc;

use hydroponic_stm32f4::hydroponic::{
    ControllerState, Hydroponic, HydroponicError, WATERING_DURATION_S,
    WATERING_INTERVAL_INITIAL_S,
};
use hydroponic_stm32f4::measurement::{Dht22Measurement, SensorError, TemperatureSensor};
use hydroponic_stm32f4::pump::{Pump, PumpOutput};

#[derive(Debug, Default)]
struct PinLog {
    level: Option<bool>,
    writes: u32,
    refuse_on: bool,
    refuse_off: bool,
}

#[derive(Debug, PartialEq)]
struct Refused;

struct TestPin(Rc<RefCell<PinLog>>);

impl PumpOutput for TestPin {
    type Error = Refused;

    fn set_active(&mut self) -> Result<(), Refused> {
        let mut log = self.0.borrow_mut();
        log.writes += 1;
        if log.refuse_on {
            return Err(Refused);
        }
        log.level = Some(true);
        Ok(())
    }

    fn set_inactive(&mut self) -> Result<(), Refused> {
        let mut log = self.0.borrow_mut();
        log.writes += 1;
        if log.refuse_off {
            return Err(Refused);
        }
        log.level = Some(false);
        Ok(())
    }
}

struct TestSensor(Rc<RefCell<VecDeque<Result<Dht22Measurement, SensorError>>>>);

impl TemperatureSensor for TestSensor {
    fn read(&mut self) -> Result<Dht22Measurement, SensorError> {
        self.0.borrow_mut().pop_front().unwrap_or(Err(SensorError))
    }
}

type Readings = Rc<RefCell<VecDeque<Result<Dht22Measurement, SensorError>>>>;

fn controller() -> (Hydroponic<TestSensor, TestPin>, Readings, Rc<RefCell<PinLog>>) {
    let readings: Readings = Rc::new(RefCell::new(VecDeque::new()));
    let log = Rc::new(RefCell::new(PinLog::default()));
    let pump = Pump::new(TestPin(log.clone()));
    (Hydroponic::new(TestSensor(readings.clone()), pump), readings, log)
}

fn reading(temp: i32) -> Result<Dht22Measurement, SensorError> {
    Ok(Dht22Measurement { temp, hum: 450 })
}

#[test]
fn new_controller_state() {
    let (c, _, _) = controller();
    assert_eq!(
        c.state(),
        ControllerState {
            last_watering_start_time: 0,
            current_interval_seconds: WATERING_INTERVAL_INITIAL_S,
            last_reading: Dht22Measurement { temp: 0, hum: 0 },
        }
    );
    assert!(!c.is_pump_running());
}

#[test]
fn tick_before_interval_only_replans() {
    let (mut c, readings, log) = controller();
    readings.borrow_mut().push_back(reading(212));
    assert_eq!(c.run(100), Ok((3600, 212, 0, false)));
    assert_eq!(c.state().last_reading, Dht22Measurement { temp: 212, hum: 450 });
    assert_eq!(log.borrow().writes, 1);
}

#[test]
fn first_watering_starts_one_second_after_interval() {
    let (mut c, readings, log) = controller();
    readings.borrow_mut().push_back(reading(212));
    assert_eq!(c.run(3601), Ok((3600, 212, 3601, true)));
    assert_eq!(log.borrow().level, Some(true));
    assert_eq!(c.state().last_watering_start_time, 3601);
}

#[test]
fn no_start_when_exactly_interval_elapsed() {
    let (mut c, readings, _) = controller();
    readings.borrow_mut().push_back(reading(212));
    assert_eq!(c.run(3600), Ok((3600, 212, 0, false)));
}

#[test]
fn watering_stops_after_duration() {
    let (mut c, readings, log) = controller();
    readings.borrow_mut().push_back(reading(350));
    assert_eq!(c.run(901), Ok((900, 350, 901, true)));
    readings.borrow_mut().push_back(reading(350));
    assert_eq!(c.run(901 + WATERING_DURATION_S - 1), Ok((900, 350, 901, true)));
    readings.borrow_mut().push_back(reading(350));
    assert_eq!(c.run(901 + WATERING_DURATION_S), Ok((900, 350, 901, false)));
    assert_eq!(log.borrow().level, Some(false));
}

#[test]
fn sensor_failure_changes_nothing() {
    let (mut c, readings, log) = controller();
    readings.borrow_mut().push_back(reading(350));
    assert_eq!(c.run(901), Ok((900, 350, 901, true)));
    let before = c.state();
    let writes = log.borrow().writes;
    readings.borrow_mut().push_back(Err(SensorError));
    assert_eq!(c.run(920), Err(HydroponicError::SensorReadFailed));
    assert_eq!(c.state(), before);
    assert!(c.is_pump_running());
    assert_eq!(log.borrow().writes, writes);
}

#[test]
fn refused_start_keeps_new_interval_and_old_start_time() {
    let (mut c, readings, log) = controller();
    log.borrow_mut().refuse_on = true;
    readings.borrow_mut().push_back(reading(160));
    assert_eq!(c.run(6000), Err(HydroponicError::PumpStartFailed));
    assert_eq!(c.state().current_interval_seconds, 5400);
    assert_eq!(c.state().last_reading.temp, 160);
    assert_eq!(c.state().last_watering_start_time, 0);
    assert!(!c.is_pump_running());
}

#[test]
fn refused_stop_keeps_pump_running() {
    let (mut c, readings, log) = controller();
    readings.borrow_mut().push_back(reading(350));
    assert_eq!(c.run(901), Ok((900, 350, 901, true)));
    log.borrow_mut().refuse_off = true;
    readings.borrow_mut().push_back(reading(350));
    assert_eq!(c.run(916), Err(HydroponicError::PumpStopFailed));
    assert!(c.is_pump_running());
}

#[test]
fn run_with_reading_takes_given_result() {
    let (mut c, _, _) = controller();
    assert_eq!(c.run_with_reading(10, Err(SensorError)), Err(HydroponicError::SensorReadFailed));
    assert_eq!(c.run_with_reading(10, reading(49)), Ok((10800, 49, 0, false)));
    assert_eq!(c.run_with_reading(10801, reading(49)), Ok((10800, 49, 10801, true)));
}

#[test]
fn next_watering_waits_for_interval_after_last_start() {
    let (mut c, readings, _) = controller();
    for t in [901, 916, 1801, 1802] {
        readings.borrow_mut().push_back(reading(350));
        let _ = c.run(t);
    }
    assert_eq!(c.state().last_watering_start_time, 1802);
    assert!(c.is_pump_running());
}
