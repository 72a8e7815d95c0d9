//! The ways in which an operation of the service fails.

use vstd::prelude::*;

verus! {

/// Why an operation did not go through.
#[derive(Clone, Copy, Debug, PartialEq, Eq, Structural)]
pub enum ServiceError {
    /// There is no session with the given identifier.
    NotFound,
    /// The session belongs to another user.
    Forbidden,
    /// Nothing was submitted, nothing is stored, and there is no recording
    /// to transcribe.
    MissingTranscriptSource,
    /// A new credential could not be stored.
    IssuanceFailed,
    /// The status and timing of the session could not be stored.
    FinalizeUpdateFailed,
    /// The transcript could not be stored.
    TranscriptPersistFailed,
    /// The transcription provider gave no transcript.
    TranscriptionFailed,
}

impl ServiceError {
    /// The HTTP status under which the error is reported: 404, 403, and 400
    /// for every other error.
    pub open spec fn http_status(self) -> u16 {
        match self {
            ServiceError::NotFound => 404,
            ServiceError::Forbidden => 403,
            _ => 400,
        }
    }

    /// The HTTP status under which the error is reported.
    pub fn status_code(&self) -> (code: u16)
        ensures
            code == self.http_status(),
    {
        match self {
            ServiceError::NotFound => 404,
            ServiceError::Forbidden => 403,
            _ => 400,
        }
    }
}

} // verus!
