use vstd::prelude::*;

use crate::measurement::{Dht22Measurement, SensorError, TemperatureSensor};
use crate::policy::{
    interval_for, is_schedule_interval, lemma_interval_is_scheduled, spec_breakpoints,
    spec_interval_for,
};
use crate::pump::{Pump, PumpOutput};

verus! {

/// How long the pump stays on once started, in seconds.
pub const WATERING_DURATION_S: u32 = 15;

/// Interval that a new controller plans with before its first reading, in seconds.
pub const WATERING_INTERVAL_INITIAL_S: u32 = 900;

/// Why a tick was cut short.
#[derive(Clone, Copy, Debug, PartialEq, Eq, Structural)]
pub enum HydroponicError {
    /// The sensor could not be read; nothing changed.
    SensorReadFailed,
    /// The pump refused to start.
    PumpStartFailed,
    /// The pump refused to stop.
    PumpStopFailed,
}

/// The controller's timing state.
#[derive(Clone, Copy, Debug, PartialEq, Eq, Structural)]
pub struct ControllerState {
    /// Time, in seconds, at which the pump was last started.
    pub last_watering_start_time: u32,
    /// Interval, in seconds, implied by the last successful reading.
    pub current_interval_seconds: u32,
    /// The last successful reading.
    pub last_reading: Dht22Measurement,
}

/// What a successful tick reports: the watering interval in seconds, the
/// temperature in tenths of a degree Celsius, the time of the last watering
/// start in seconds, and whether the pump is running.
pub type Status = (u32, i32, u32, bool);

/// The state before the first tick.
pub open spec fn initial_state() -> ControllerState {
    ControllerState {
        last_watering_start_time: 0,
        current_interval_seconds: WATERING_INTERVAL_INITIAL_S,
        last_reading: Dht22Measurement { temp: 0, hum: 0 },
    }
}

/// The state once a successful reading has been taken in.
pub open spec fn replanned(s: ControllerState, m: Dht22Measurement) -> ControllerState {
    ControllerState {
        current_interval_seconds: spec_interval_for(m.temp as int),
        last_reading: m,
        ..s
    }
}

/// More than the interval has passed since the last start, and the pump is off.
pub open spec fn start_due(s: ControllerState, running: bool, now: u32) -> bool {
    now - s.last_watering_start_time > s.current_interval_seconds && !running
}

/// The watering duration has passed since the last start, and the pump is on.
pub open spec fn stop_due(s: ControllerState, running: bool, now: u32) -> bool {
    now - s.last_watering_start_time >= WATERING_DURATION_S && running
}

pub open spec fn status_of(s: ControllerState, running: bool) -> Status {
    (s.current_interval_seconds, s.last_reading.temp, s.last_watering_start_time, running)
}

/// The stop decision of a tick, taken in state `s` with the pump `running`,
/// ending in state `s2` with the pump `running2` and result `r`.
pub open spec fn stop_step(
    s: ControllerState,
    running: bool,
    now: u32,
    s2: ControllerState,
    running2: bool,
    r: Result<Status, HydroponicError>,
) -> bool {
    &&& s2 == s
    &&& if stop_due(s, running, now) {
        ||| running2 == running && r == Err::<Status, HydroponicError>(
            HydroponicError::PumpStopFailed,
        )
        ||| !running2 && r == Ok::<Status, HydroponicError>(status_of(s, false))
    } else {
        running2 == running && r == Ok::<Status, HydroponicError>(status_of(s, running))
    }
}

/// One tick at time `now`, from state `s` with the pump `running`, given what
/// the sensor returned, ending in state `s2` with the pump `running2` and
/// result `r`. Where the pump is commanded, either outcome of the command is
/// allowed; the result tells which one happened.
pub open spec fn tick(
    s: ControllerState,
    running: bool,
    now: u32,
    reading: Result<Dht22Measurement, SensorError>,
    s2: ControllerState,
    running2: bool,
    r: Result<Status, HydroponicError>,
) -> bool {
    match reading {
        Err(_) => s2 == s && running2 == running && r == Err::<Status, HydroponicError>(
            HydroponicError::SensorReadFailed,
        ),
        Ok(m) => {
            let planned = replanned(s, m);
            if start_due(planned, running, now) {
                let started = ControllerState { last_watering_start_time: now, ..planned };
                ||| s2 == planned && running2 == running && r == Err::<Status, HydroponicError>(
                    HydroponicError::PumpStartFailed,
                )
                ||| stop_step(started, true, now, s2, running2, r)
            } else {
                stop_step(planned, running, now, s2, running2, r)
            }
        },
    }
}

/// A controller whose pump is off and which last started watering at time
/// zero, given a successful reading at one second past the interval that the
/// reading implies, starts the pump: unless the pump refuses, it ends the tick
/// running, with the start time set to that tick's time.
pub proof fn lemma_first_watering_starts(
    s: ControllerState,
    m: Dht22Measurement,
    now: u32,
    s2: ControllerState,
    running2: bool,
    r: Result<Status, HydroponicError>,
)
    requires
        s.last_watering_start_time == 0,
        now == spec_interval_for(m.temp as int) + 1,
        tick(s, false, now, Ok(m), s2, running2, r),
    ensures
        r == Err::<Status, HydroponicError>(HydroponicError::PumpStartFailed) || (running2
            && s2.last_watering_start_time == now && r is Ok),
{
}

/// A controller whose pump is running, at a tick exactly the watering duration
/// after the last start, with a successful reading, stops the pump on that
/// tick unless the pump refuses.
pub proof fn lemma_watering_stops_after_duration(
    s: ControllerState,
    m: Dht22Measurement,
    now: u32,
    s2: ControllerState,
    running2: bool,
    r: Result<Status, HydroponicError>,
)
    requires
        s.last_watering_start_time <= now,
        now - s.last_watering_start_time == WATERING_DURATION_S,
        tick(s, true, now, Ok(m), s2, running2, r),
    ensures
        r == Err::<Status, HydroponicError>(HydroponicError::PumpStopFailed) || (!running2
            && r is Ok),
{
}

/// A tick on which the sensor fails changes neither the timing state nor the
/// pump, and reports the sensor failure.
pub proof fn lemma_sensor_failure_changes_nothing(
    s: ControllerState,
    running: bool,
    now: u32,
    e: SensorError,
    s2: ControllerState,
    running2: bool,
    r: Result<Status, HydroponicError>,
)
    requires
        tick(s, running, now, Err(e), s2, running2, r),
    ensures
        s2 == s,
        running2 == running,
        r == Err::<Status, HydroponicError>(HydroponicError::SensorReadFailed),
{
}

/// The watering controller: it owns the sensor and the pump, and on each tick
/// reads the sensor, replans the interval, and starts or stops the pump.
pub struct Hydroponic<S: TemperatureSensor, P: PumpOutput> {
    temp_sensor: S,
    pump: Pump<P>,
    state: ControllerState,
}

impl<S: TemperatureSensor, P: PumpOutput> Hydroponic<S, P> {
    pub closed spec fn spec_state(&self) -> ControllerState {
        self.state
    }

    pub closed spec fn spec_running(&self) -> bool {
        self.pump.is_running()
    }

    /// The planned interval is always one that the schedule can give.
    pub open spec fn wf(&self) -> bool {
        is_schedule_interval(self.spec_state().current_interval_seconds)
    }

    pub fn new(temp_sensor: S, pump: Pump<P>) -> (r: Self)
        ensures
            r.wf(),
            r.spec_state() == initial_state(),
            r.spec_running() == pump.is_running(),
    {
        let r = Hydroponic {
            temp_sensor,
            pump,
            state: ControllerState {
                last_watering_start_time: 0,
                current_interval_seconds: WATERING_INTERVAL_INITIAL_S,
                last_reading: Dht22Measurement { temp: 0, hum: 0 },
            },
        };
        assert(spec_breakpoints()[5].1 == WATERING_INTERVAL_INITIAL_S);
        r
    }

    pub fn state(&self) -> (r: ControllerState)
        ensures
            r == self.spec_state(),
    {
        self.state
    }

    pub fn is_pump_running(&self) -> (r: bool)
        ensures
            r == self.spec_running(),
    {
        self.pump.is_pump_running()
    }

    fn should_start_watering(&self, current_time_s: u32) -> (r: bool)
        requires
            self.spec_state().last_watering_start_time <= current_time_s,
        ensures
            r == start_due(self.spec_state(), self.spec_running(), current_time_s),
    {
        current_time_s - self.state.last_watering_start_time > self.state.current_interval_seconds
            && !self.pump.is_pump_running()
    }

    fn should_stop_watering(&self, current_time_s: u32) -> (r: bool)
        requires
            self.spec_state().last_watering_start_time <= current_time_s,
        ensures
            r == stop_due(self.spec_state(), self.spec_running(), current_time_s),
    {
        current_time_s - self.state.last_watering_start_time >= WATERING_DURATION_S
            && self.pump.is_pump_running()
    }

    /// One tick at `current_time_s`, given what the sensor returned.
    pub fn run_with_reading(
        &mut self,
        current_time_s: u32,
        reading: Result<Dht22Measurement, SensorError>,
    ) -> (r: Result<Status, HydroponicError>)
        requires
            old(self).wf(),
            old(self).spec_state().last_watering_start_time <= current_time_s,
        ensures
            final(self).wf(),
            tick(
                old(self).spec_state(),
                old(self).spec_running(),
                current_time_s,
                reading,
                final(self).spec_state(),
                final(self).spec_running(),
                r,
            ),
    {
        match reading {
            Ok(m) => {
                self.state.last_reading = m;
                self.state.current_interval_seconds = interval_for(&m);
                proof {
                    lemma_interval_is_scheduled(m.temp as int);
                }
            },
            Err(_) => {
                return Err(HydroponicError::SensorReadFailed);
            },
        }
        if self.should_start_watering(current_time_s) {
            if self.pump.turn_on().is_err() {
                return Err(HydroponicError::PumpStartFailed);
            }
            self.state.last_watering_start_time = current_time_s;
        }
        if self.should_stop_watering(current_time_s) {
            if self.pump.turn_off().is_err() {
                return Err(HydroponicError::PumpStopFailed);
            }
        }
        Ok(
            (
                self.state.current_interval_seconds,
                self.state.last_reading.temp,
                self.state.last_watering_start_time,
                self.pump.is_pump_running(),
            ),
        )
    }

    /// One tick at `current_time_s`: reads the sensor, then goes on as
    /// `run_with_reading` with what it returned.
    pub fn run(&mut self, current_time_s: u32) -> (r: Result<Status, HydroponicError>)
        requires
            old(self).wf(),
            old(self).spec_state().last_watering_start_time <= current_time_s,
        ensures
            final(self).wf(),
            exists|reading: Result<Dht22Measurement, SensorError>|
                tick(
                    old(self).spec_state(),
                    old(self).spec_running(),
                    current_time_s,
                    reading,
                    final(self).spec_state(),
                    final(self).spec_running(),
                    r,
                ),
    {
        let ghost s = self.spec_state();
        let ghost running = self.spec_running();
        let reading = self.temp_sensor.read();
        let r = self.run_with_reading(current_time_s, reading);
        assert(tick(s, running, current_time_s, reading, self.spec_state(), self.spec_running(), r));
        r
    }
}

} // verus!
