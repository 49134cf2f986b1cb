//! Outcome tags reported by handle operations.

use vstd::prelude::*;

verus! {

/// Outcome of running a script to completion.
#[derive(Debug, Clone, Copy, PartialEq, Eq, Structural)]
pub enum MontyResultTag {
    Success,
    Error,
}

impl MontyResultTag {
    /// The numeric code of the tag on the wire.
    pub open spec fn spec_code(self) -> int {
        match self {
            MontyResultTag::Success => 0,
            MontyResultTag::Error => 1,
        }
    }

    /// Returns the numeric code of the tag on the wire.
    pub fn code(self) -> (c: u32)
        ensures
            c == self.spec_code(),
    {
        match self {
            MontyResultTag::Success => 0,
            MontyResultTag::Error => 1,
        }
    }
}

/// Outcome of a transition of a handle.
#[derive(Debug, Clone, Copy, PartialEq, Eq, Structural)]
pub enum MontyProgressTag {
    Complete,
    Pending,
    Error,
    ResolveFutures,
}

impl MontyProgressTag {
    /// The numeric code of the tag on the wire.
    pub open spec fn spec_code(self) -> int {
        match self {
            MontyProgressTag::Complete => 0,
            MontyProgressTag::Pending => 1,
            MontyProgressTag::Error => 2,
            MontyProgressTag::ResolveFutures => 3,
        }
    }

    /// Returns the numeric code of the tag on the wire.
    pub fn code(self) -> (c: u32)
        ensures
            c == self.spec_code(),
    {
        match self {
            MontyProgressTag::Complete => 0,
            MontyProgressTag::Pending => 1,
            MontyProgressTag::Error => 2,
            MontyProgressTag::ResolveFutures => 3,
        }
    }
}

} // verus!
