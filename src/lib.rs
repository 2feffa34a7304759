//! Control logic of a networked actuator node: a dimmable LED or a
//! bidirectional motor driven by PWM duty commands, the HTTP handlers that
//! read and write it, and the state machine that brings the wireless link up.

pub mod actuator;
pub mod api;
pub mod bringup;
pub mod led;
pub mod motor;
