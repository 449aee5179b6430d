use vstd::prelude::*;

verus! {

/// A ceiling on the serialized length of one message.
#[derive(Clone, Copy, Debug, PartialEq, Eq, Structural)]
pub enum SizeLimit {
    Infinite,
    Bounded(u64),
}

impl SizeLimit {
    /// Whether a message of `n` bytes fits under this limit.
    pub open spec fn admits_spec(self, n: nat) -> bool {
        match self {
            SizeLimit::Infinite => true,
            SizeLimit::Bounded(max) => n <= max,
        }
    }

    /// Whether a message of `n` bytes fits under this limit.
    pub fn admits(&self, n: u64) -> (r: bool)
        ensures
            r == self.admits_spec(n as nat),
    {
        match self {
            SizeLimit::Infinite => true,
            SizeLimit::Bounded(max) => n <= *max,
        }
    }
}

} // verus!
