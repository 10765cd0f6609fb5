use vstd::prelude::*;

verus! {

/// The failures an initialization attempt can surface to its caller.
///
/// A duplicate installation is deliberately not an error: a second attempt
/// leaves the installed logger in place and succeeds with no guards (see
/// `init`).
#[derive(Clone, Copy, Debug, PartialEq, Eq, Structural)]
pub enum InitError {
    /// The requested threshold string names no known severity.
    InvalidLevel,
    /// The rotating file sink could not be opened.
    SinkCreationFailed,
}

/// The text `InitError::message` returns for each failure.
pub open spec fn spec_message(e: InitError) -> Seq<char> {
    match e {
        InitError::InvalidLevel => "unrecognized log level"@,
        InitError::SinkCreationFailed => "failed to open the rotating log file sink"@,
    }
}

impl InitError {
    /// A human-readable description of the failure.
    pub fn message(&self) -> (r: &'static str)
        ensures
            r@ == spec_message(*self),
    {
        match self {
            InitError::InvalidLevel => "unrecognized log level",
            InitError::SinkCreationFailed => "failed to open the rotating log file sink",
        }
    }
}

} // verus!
