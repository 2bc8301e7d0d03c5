//! The binding engine: a small virtual machine that maps button events to
//! commands, and the shutter state machines that it commands.

pub mod bindings;
pub mod consts;
pub mod dispatch;
pub mod layers;
pub mod microvm;
pub mod opcodes;
pub mod program;
pub mod shutters;
