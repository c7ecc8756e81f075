//! The error taxonomy of the package manager.

use vstd::prelude::*;

verus! {

/// Every failure the library reports, each with a human-readable message.
#[derive(Debug, Clone, PartialEq, Eq)]
pub enum PaketError {
    /// A malformed package identifier.
    InvalidReference(String),
    /// A configuration file that is not in the expected format.
    ConfigFormatError(String),
    /// A manifest that is missing required content or contradicts the input.
    ManifestError(String),
    /// A file-system traversal anomaly, such as an unreadable file name.
    PathError(String),
    /// An external binary that is missing, failed, or could not be spawned.
    SubprocessError(String),
    /// A malformed lifecycle-event binding.
    EventFormatError(String),
}

impl PaketError {
    /// The human-readable message carried by the error.
    pub fn message(&self) -> (r: &String)
        ensures
            r@ == self.message_view(),
    {
        match self {
            PaketError::InvalidReference(m) => m,
            PaketError::ConfigFormatError(m) => m,
            PaketError::ManifestError(m) => m,
            PaketError::PathError(m) => m,
            PaketError::SubprocessError(m) => m,
            PaketError::EventFormatError(m) => m,
        }
    }

    /// The message as a sequence of characters.
    pub open spec fn message_view(&self) -> Seq<char> {
        match self {
            PaketError::InvalidReference(m) => m@,
            PaketError::ConfigFormatError(m) => m@,
            PaketError::ManifestError(m) => m@,
            PaketError::PathError(m) => m@,
            PaketError::SubprocessError(m) => m@,
            PaketError::EventFormatError(m) => m@,
        }
    }
}

} // verus!
