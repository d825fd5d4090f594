//! The two speaker channels of a stereo endpoint.

use vstd::prelude::*;

verus! {

/// One speaker channel of the stereo endpoint.
#[derive(Clone, Copy, Debug, PartialEq, Eq, Structural)]
pub enum Channel {
    Left,
    Right,
}

impl Channel {
    /// The index by which the native volume interface addresses the channel.
    pub open spec fn spec_index(self) -> u32 {
        match self {
            Channel::Left => 0,
            Channel::Right => 1,
        }
    }

    /// The index by which the native volume interface addresses the channel:
    /// 0 for the left channel, 1 for the right.
    #[verifier::when_used_as_spec(spec_index)]
    pub fn index(self) -> (i: u32)
        ensures
            i == self.spec_index(),
    {
        match self {
            Channel::Left => 0,
            Channel::Right => 1,
        }
    }
}

} // verus!
