use vstd::prelude::*;

verus! {

/// The error taxonomy of the bridge.
#[derive(Clone, Copy, PartialEq, Eq, Structural, Debug)]
pub enum Error {
    /// Shell registration failed during construction; construction aborts
    /// and the partial resources are released.
    Construction,
    /// An individual native call failed at runtime; reported to the caller,
    /// never tears down the pump.
    Platform,
    /// The event channel has shut down; reported to late callers.
    Closed,
}

impl Error {
    /// A short description of the error.
    pub fn message(&self) -> (m: &'static str)
        ensures
            self is Construction ==> m@ == "shell registration failed"@,
            self is Platform ==> m@ == "native call failed"@,
            self is Closed ==> m@ == "channel closed"@,
    {
        match self {
            Error::Construction => "shell registration failed",
            Error::Platform => "native call failed",
            Error::Closed => "channel closed",
        }
    }
}

} // verus!
