//! Event-driven control engine for a networked building-automation controller.
//!
//! The crate holds the decision logic of the controller as plain state
//! machines: every function maps a state and an input to a next state and a
//! list of requests, and leaves the hardware access to its caller.

pub mod actuator;
pub mod boards;
pub mod buttonsmash;
pub mod components;
pub mod config;
pub mod io;
pub mod status;
