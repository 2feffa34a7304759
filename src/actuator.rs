use vstd::prelude::*;

verus! {

/// A failure reported by the PWM channel driver when a duty command is
/// applied.
#[derive(Clone, Copy, Debug, PartialEq, Eq, Structural)]
pub enum DriverFault {
    /// The duty percentage is outside what the channel accepts.
    Duty,
    /// The timer behind the channel is not configured.
    Timer,
    /// The channel itself is not configured.
    Channel,
    /// A fade could not be started.
    Fade,
}

/// Errors of an actuator command.
#[derive(Clone, Copy, Debug, PartialEq, Eq, Structural)]
pub enum ActuatorError {
    /// The driver rejected the command; the last committed value is kept.
    HardwareFault(DriverFault),
}

} // verus!
