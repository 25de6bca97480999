//! Values exchanged with the gateway device.

use vstd::prelude::*;

verus! {

/// Requested or reported power state of an inverter.
#[derive(Debug, Clone, Copy, PartialEq, Eq, Hash, Structural)]
pub enum PowerState {
    /// Power production enabled.
    On,
    /// Power production disabled.
    Off,
}

impl PowerState {
    /// Wire level of a state: the device's "forced off" level, so `On` is 0.
    pub open spec fn spec_payload_value(self) -> u8 {
        match self {
            PowerState::On => 0,
            PowerState::Off => 1,
        }
    }

    /// The single element of the power-mode payload array for this state.
    pub fn payload_value(self) -> (r: u8)
        ensures
            r == self.spec_payload_value(),
    {
        match self {
            PowerState::On => 0,
            PowerState::Off => 1,
        }
    }
}

/// Power status as the gateway reports it in `{"powerForcedOff": bool}`.
#[derive(Debug, Clone, Copy, PartialEq, Eq, Structural)]
pub struct PowerStatusResponse {
    /// Whether power production is administratively disabled.
    pub power_forced_off: bool,
}

impl PowerStatusResponse {
    /// Logical state of a report: forced off means `Off`.
    pub open spec fn spec_power_state(self) -> PowerState {
        if self.power_forced_off {
            PowerState::Off
        } else {
            PowerState::On
        }
    }

    /// Whether power is on: the negation of the reported flag.
    pub fn is_powered_on(&self) -> (r: bool)
        ensures
            r == !self.power_forced_off,
    {
        !self.power_forced_off
    }

    /// Logical power state of the report.
    pub fn power_state(&self) -> (r: PowerState)
        ensures
            r == self.spec_power_state(),
    {
        if self.power_forced_off {
            PowerState::Off
        } else {
            PowerState::On
        }
    }
}

/// The wire level of a state, reported back as the forced-off flag, reads as
/// that same state: level 0 means on and level 1 means off.
pub proof fn lemma_payload_read_back(state: PowerState)
    ensures
        state.spec_payload_value() == 0 <==> state == PowerState::On,
        state.spec_payload_value() == 1 <==> state == PowerState::Off,
        (PowerStatusResponse {
            power_forced_off: state.spec_payload_value() == 1,
        }).spec_power_state() == state,
{
}

} // verus!
