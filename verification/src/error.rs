//! What makes an operation of the volume control fail.
use vstd::prelude::*;
use vstd::string::StringExecFns;

verus! {

/// A failure of a whole operation. That one session turns a write down is
/// no failure of the operation: it is recorded as a
/// [`Diagnostic`](crate::volume::Diagnostic) there.
#[derive(Debug, PartialEq, Eq)]
pub enum VolumeError {
    /// The platform's mixer could not be queried. Carries the platform's
    /// description of what went wrong.
    Enumeration(String),
    /// The enumeration went through and yielded no session, where one was
    /// needed to write to.
    NoSessions,
}

impl VolumeError {
    /// The description shown to a caller.
    pub open spec fn text(self) -> Seq<char> {
        match self {
            VolumeError::Enumeration(description) => description@,
            VolumeError::NoSessions => "No audio sessions found"@,
        }
    }

    /// The description shown to a caller.
    pub fn message(&self) -> (message: String)
        ensures
            message@ == self.text(),
    {
        match self {
            VolumeError::Enumeration(description) => description.clone(),
            VolumeError::NoSessions => String::from_str("No audio sessions found"),
        }
    }
}

} // verus!
