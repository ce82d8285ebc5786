//! Relay actuation boundary.  The core reasons in logical closed/open terms;
//! active-low wiring is a driver's business.

use vstd::prelude::*;

verus! {

/// Actuation or sensing failure.  Always logged by the caller, never
/// propagated as a process failure.
#[derive(Debug, Clone, Copy, PartialEq, Eq, Structural)]
pub enum HalError {
    /// The requested pin has no configured output.
    PinNotConfigured,
    /// The underlying device rejected the operation.
    DeviceFault,
}

/// Relay actuation capability.  `closed = true` means the circuit is
/// engaged.  A hardware-backed implementation may fail on any call; the
/// caller's logical relay state stays authoritative either way, so no
/// behaviour is promised here.
pub trait RelayControl: Sized {
    /// Drives the relay on the given GPIO pin.
    fn set_relay(&mut self, pin: u8, closed: bool) -> Result<(), HalError>;

    /// Reads back the relay state on the given GPIO pin.
    fn get_relay(&self, pin: u8) -> Result<bool, HalError>;
}

/// Pin configuration for one relay.
#[derive(Debug, Clone)]
pub struct RelayPin {
    pub relay_id: String,
    pub gpio_pin: u8,
    /// If true, driving the pin low closes the relay.
    pub active_low: bool,
}

/// Simulated relay driver for development and testing off the target board.
/// Pins start open and remember the last state written to them.
pub struct MockRelayDriver {
    states: Vec<(u8, bool)>,
}

impl MockRelayDriver {
    /// The mock accepts any pin, so the pin list is not needed; it is taken
    /// to mirror the hardware driver's constructor.
    pub fn new(_relay_pins: &[RelayPin]) -> (r: Result<Self, HalError>)
        ensures
            r is Ok,
    {
        Ok(Self { states: Vec::new() })
    }
}

impl RelayControl for MockRelayDriver {
    fn set_relay(&mut self, pin: u8, closed: bool) -> Result<(), HalError> {
        let n = self.states.len();
        let mut i: usize = 0;
        while i < n
            invariant
                i <= n,
                n == self.states.len(),
            decreases n - i,
        {
            if self.states[i].0 == pin {
                self.states[i] = (pin, closed);
                return Ok(());
            }
            i = i + 1;
        }
        self.states.push((pin, closed));
        Ok(())
    }

    fn get_relay(&self, pin: u8) -> Result<bool, HalError> {
        let n = self.states.len();
        let mut i: usize = 0;
        while i < n
            invariant
                i <= n,
                n == self.states.len(),
            decreases n - i,
        {
            if self.states[i].0 == pin {
                return Ok(self.states[i].1);
            }
            i = i + 1;
        }
        Ok(false)
    }
}

/// Makes the relay driver available on this platform.  The hardware-backed
/// driver lives with the binary; the library's own driver is the simulated
/// one.
pub fn create_relay_driver(relay_pins: &[RelayPin]) -> (r: Result<MockRelayDriver, HalError>)
    ensures
        r is Ok,
{
    MockRelayDriver::new(relay_pins)
}

} // verus!
