//! Constants that configure a node.

use vstd::prelude::*;

verus! {

/// Number of shutters that one node manages.
pub const MAX_SHUTTERS: usize = 8;

/// Bus address that every node listens to.
pub const BROADCAST_ADDRESS: u8 = 0x3f;

/// Bus address of the gateway node.
pub const GATE_ADDRESS: u8 = 0;

} // verus!
