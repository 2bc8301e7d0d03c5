//! Messages of the bus, the transport policy, diagnostics and the host link.

pub mod can_id;
pub mod interconnect;
pub mod message;
pub mod status;
pub mod usb_connect;
