use vstd::prelude::*;

verus! {

/// The kinds of failure this library distinguishes.
///
/// `PathOpenError` and `TimeApplicationError` arise at the operating-system
/// boundary (opening the file, applying a timestamp change) and are reported
/// by the surrounding program; `InvalidTimestamp` and `TimeConversionError`
/// are produced by the verified logic itself.
#[derive(Clone, Copy, Debug, PartialEq, Eq, Structural)]
pub enum TimeError {
    /// The path could not be opened, or its metadata could not be read.
    PathOpenError,
    /// A timestamp string is not a 10- or 13-digit decimal string.
    InvalidTimestamp,
    /// The operating system rejected a metadata write.
    TimeApplicationError,
    /// A native time value predates the Unix epoch.
    TimeConversionError,
}

impl TimeError {
    /// A human-readable description of the error kind.
    pub fn message(&self) -> (r: String)
        ensures
            *self is PathOpenError ==> r@ == "could not open the path"@,
            *self is InvalidTimestamp ==> r@ == "invalid timestamp: expected a 10 or 13 digit epoch string"@,
            *self is TimeApplicationError ==> r@ == "could not apply the requested file times"@,
            *self is TimeConversionError ==> r@ == "time predates the Unix epoch"@,
    {
        match self {
            TimeError::PathOpenError => String::from_str("could not open the path"),
            TimeError::InvalidTimestamp => String::from_str(
                "invalid timestamp: expected a 10 or 13 digit epoch string",
            ),
            TimeError::TimeApplicationError => String::from_str(
                "could not apply the requested file times",
            ),
            TimeError::TimeConversionError => String::from_str("time predates the Unix epoch"),
        }
    }
}

} // verus!
