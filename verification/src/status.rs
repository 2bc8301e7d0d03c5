//! The status light of a link adapter: what it tells and how it blinks.

use vstd::prelude::*;

verus! {

/// What the light of a link adapter tells.
#[derive(Clone, Copy, Debug, PartialEq, Eq, Structural)]
pub enum Message {
    /// The adapter just started.
    Init,
    /// Nothing happens.
    Idle,
    /// Data passes.
    Transfer,
    /// Something changed, such as a new connection.
    Attention,
}

impl Message {
    /// The times for which the light is on and off, in milliseconds.
    pub open spec fn spec_time(self) -> (u32, u32) {
        match self {
            Message::Init => (200, 200),
            Message::Idle => (50, 3000),
            Message::Transfer => (10, 50),
            Message::Attention => (100, 100),
        }
    }

    /// The times for which the light is on and off, in milliseconds.
    pub fn to_time(&self) -> (times: (u32, u32))
        ensures
            times == self.spec_time(),
    {
        match self {
            Message::Init => (200, 200),
            Message::Idle => (50, 3000),
            Message::Transfer => (10, 50),
            Message::Attention => (100, 100),
        }
    }
}

} // verus!
