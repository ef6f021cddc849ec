//! Verified core of the OSSM motion-control firmware: telemetry framing,
//! the motion-planner and motion-controller state machines, the pattern
//! engine, the BLE remote command language and the 57AIM servo protocol.

pub mod ble;
pub mod engine;
pub mod m57aim;
pub mod motion;
pub mod planner;
pub mod protocol;
pub mod stepper;
pub mod telemetry;
pub mod transport;

use vstd::prelude::*;

verus! {

/// Error reading the current-sense ADC.
#[derive(Debug, Clone, Copy, PartialEq, Eq, Structural)]
pub struct AdcError;

} // verus!
