//! The history of a user: what a lookup and a deletion come to.

use crate::models::transcript::{SegmentView, TranscriptSegment};
use vstd::prelude::*;

verus! {

/// Why a session of the history could not be shown or deleted.
#[derive(Clone, Copy, Debug, PartialEq, Eq, Structural)]
pub enum HistoryError {
    /// The user has no such session.
    SessionNotFound,
    /// The stored transcript could not be read as segments.
    TranscriptUnreadable,
}

impl HistoryError {
    /// The message of the error.
    pub open spec fn message_text(self) -> Seq<char> {
        match self {
            HistoryError::SessionNotFound => "session not found"@,
            HistoryError::TranscriptUnreadable => "parse transcript segments"@,
        }
    }

    /// The message of the error.
    pub fn message(&self) -> (message: &'static str)
        ensures
            message@ == self.message_text(),
    {
        match self {
            HistoryError::SessionNotFound => "session not found",
            HistoryError::TranscriptUnreadable => "parse transcript segments",
        }
    }
}

/// The transcript shown for a session: no segments where none is stored, the
/// stored segments where they can be read, and an error where they cannot.
/// `stored` is `None` for no transcript and `Some(None)` for one that could
/// not be read.
pub open spec fn shown_transcript(stored: Option<Option<Seq<SegmentView>>>) -> Result<
    Seq<SegmentView>,
    HistoryError,
> {
    match stored {
        None => Ok(Seq::empty()),
        Some(None) => Err(HistoryError::TranscriptUnreadable),
        Some(Some(segments)) => Ok(segments),
    }
}

/// The result of `detail_transcript`, as a view.
pub open spec fn shown_view(shown: Result<Vec<TranscriptSegment>, HistoryError>) -> Result<
    Seq<SegmentView>,
    HistoryError,
> {
    match shown {
        Ok(segments) => Ok(segments.deep_view()),
        Err(error) => Err(error),
    }
}

/// The transcript shown for a session.
pub fn detail_transcript(stored: Option<Option<Vec<TranscriptSegment>>>) -> (shown: Result<
    Vec<TranscriptSegment>,
    HistoryError,
>)
    ensures
        shown_view(shown) == shown_transcript(stored.deep_view()),
{
    match stored {
        None => {
            let empty: Vec<TranscriptSegment> = Vec::new();
            assert(empty.deep_view() =~= Seq::<SegmentView>::empty());
            Ok(empty)
        },
        Some(None) => Err(HistoryError::TranscriptUnreadable),
        Some(Some(segments)) => Ok(segments),
    }
}

/// What a deletion that removed `rows_affected` rows comes to: the session
/// is gone where a row was removed, and was not there where none was.
pub fn deletion_outcome(rows_affected: u64) -> (outcome: Result<(), HistoryError>)
    ensures
        outcome == if rows_affected == 0 {
            Err::<(), HistoryError>(HistoryError::SessionNotFound)
        } else {
            Ok::<(), HistoryError>(())
        },
{
    if rows_affected == 0 {
        Err(HistoryError::SessionNotFound)
    } else {
        Ok(())
    }
}

} // verus!
