//! The error taxonomy: construction errors, sequencing errors and lookup
//! failures are the only ways the engine reports a fault.

use vstd::prelude::*;

verus! {

/// Why an operation was refused.
#[derive(Clone, Copy, Debug, PartialEq, Eq, Structural)]
pub enum ErrorKind {
    /// A builder was given clamps with `min > max`, a negative or oversized
    /// fixed pixel amount, or clamps beyond the pixel bound.
    InvalidSizing,
    /// `arrange` was called on a node that was not measured in the current
    /// layout pass.
    NotMeasured,
    /// A font lookup found no candidate to return.
    NoMatch,
}

impl ErrorKind {
    /// A short name for the error, for hosts that log it.
    pub fn describe(&self) -> (s: &'static str)
        ensures
            s@ == match self {
                ErrorKind::InvalidSizing => "invalid sizing"@,
                ErrorKind::NotMeasured => "not measured"@,
                ErrorKind::NoMatch => "no match"@,
            },
    {
        match self {
            ErrorKind::InvalidSizing => "invalid sizing",
            ErrorKind::NotMeasured => "not measured",
            ErrorKind::NoMatch => "no match",
        }
    }
}

} // verus!
