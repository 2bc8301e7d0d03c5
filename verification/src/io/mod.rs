//! Inputs and outputs: switch events, the input scanner, the output driver.

pub mod event_converter;
pub mod events;
pub mod expander_inputs;
pub mod indexed_outputs;
pub mod report;
