use vstd::prelude::*;

verus! {

/// A binary output that can be driven to its active or inactive level.
///
/// Either command may be refused by the hardware; the error is opaque.
pub trait PumpOutput {
    type Error;

    fn set_active(&mut self) -> Result<(), Self::Error>;

    fn set_inactive(&mut self) -> Result<(), Self::Error>;
}

/// The watering pump: an output together with the state it was last
/// successfully commanded to.
pub struct Pump<P: PumpOutput> {
    pin: P,
    is_pump_running: bool,
}

impl<P: PumpOutput> Pump<P> {
    /// Whether the pump was last successfully switched on.
    pub closed spec fn is_running(&self) -> bool {
        self.is_pump_running
    }

    /// Takes the output and commands it off; a refusal of that first
    /// command is ignored, and the pump counts as stopped either way.
    pub fn new(pin: P) -> (r: Self)
        ensures
            !r.is_running(),
    {
        let mut pump = Pump { pin, is_pump_running: false };
        let _ = pump.turn_off();
        pump
    }

    pub fn is_pump_running(&self) -> (r: bool)
        ensures
            r == self.is_running(),
    {
        self.is_pump_running
    }

    /// Drives the output active; only on success does the pump count as running.
    pub fn turn_on(&mut self) -> (r: Result<(), P::Error>)
        ensures
            r is Ok ==> final(self).is_running(),
            r is Err ==> final(self).is_running() == old(self).is_running(),
    {
        match self.pin.set_active() {
            Ok(()) => {
                self.is_pump_running = true;
                Ok(())
            },
            Err(e) => Err(e),
        }
    }

    /// Drives the output inactive; only on success does the pump count as stopped.
    pub fn turn_off(&mut self) -> (r: Result<(), P::Error>)
        ensures
            r is Ok ==> !final(self).is_running(),
            r is Err ==> final(self).is_running() == old(self).is_running(),
    {
        match self.pin.set_inactive() {
            Ok(()) => {
                self.is_pump_running = false;
                Ok(())
            },
            Err(e) => Err(e),
        }
    }
}

} // verus!
