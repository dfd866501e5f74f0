//! Errors of the driver core.
use vstd::prelude::*;

verus! {

/// Why a driver operation failed.
#[derive(Debug, Clone, Copy, PartialEq, Eq, Structural)]
pub enum DriverError {
    /// Every slot of the port table holds a port.
    NoFreePort,
    /// The device lacks its register resource or its interrupt line.
    NoResource,
    /// The device has no clock.
    NoClock,
    /// The port's clock could not be prepared or enabled.
    ClockError,
    /// A port or console index is out of range or names an empty slot.
    InvalidIndex,
    /// A console name does not fit its buffer.
    InvalidName,
    /// The driver was already registered with the serial core.
    AlreadyRegistered,
}

} // verus!
