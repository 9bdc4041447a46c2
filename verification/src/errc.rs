//! The status that the hypervisor's handlers return.

use vstd::prelude::*;

verus! {

/// Success or failure of an operation.
#[derive(Debug, Clone, Copy, PartialEq, Eq, Structural)]
pub enum ErrcType {
    Success,
    Failure,
}

impl ErrcType {
    /// Whether this status reports success.
    pub fn success(&self) -> (b: bool)
        ensures
            b == (*self == ErrcType::Success),
    {
        match self {
            ErrcType::Success => true,
            ErrcType::Failure => false,
        }
    }
}

} // verus!
