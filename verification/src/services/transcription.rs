//! Transcription: what the answer of the provider means as a transcript.

use crate::models::transcript::{SegmentView, TranscriptSegment};
use vstd::prelude::*;
use vstd::string::StringExecFns;

verus! {

/// A piece of text of the provider with its place in the recording, in
/// milliseconds.
#[derive(Debug, PartialEq, Eq)]
pub struct TimedText {
    pub text: String,
    pub start_ms: i64,
    pub end_ms: i64,
}

/// The view of a [`TimedText`].
pub struct TimedTextView {
    pub text: Seq<char>,
    pub start_ms: i64,
    pub end_ms: i64,
}

impl View for TimedText {
    type V = TimedTextView;

    open spec fn view(&self) -> TimedTextView {
        TimedTextView { text: self.text@, start_ms: self.start_ms, end_ms: self.end_ms }
    }
}

impl DeepView for TimedText {
    type V = TimedTextView;

    open spec fn deep_view(&self) -> TimedTextView {
        self@
    }
}

/// The speaker of everything that is transcribed from a recording.
pub open spec fn transcribed_speaker() -> Seq<char> {
    "user"@
}

/// The segment of one piece of timed text.
pub open spec fn segment_of(piece: TimedTextView) -> SegmentView {
    SegmentView {
        speaker: transcribed_speaker(),
        text: piece.text,
        start_ms: piece.start_ms,
        end_ms: piece.end_ms,
    }
}

/// The length of a recording in milliseconds as far as the hint tells it:
/// nothing for no hint and for a hint below zero.
pub open spec fn hinted_millis(duration_seconds: Option<i32>) -> int {
    match duration_seconds {
        Some(seconds) => if seconds > 0 {
            seconds * 1000
        } else {
            0
        },
        None => 0,
    }
}

/// The transcript that an answer of the provider stands for: one segment for
/// each timed piece, in order; or, where the answer has no timed pieces, one
/// segment with the whole text that runs from the start to the hinted
/// length.
pub open spec fn transcript_of(
    text: Seq<char>,
    pieces: Option<Seq<TimedTextView>>,
    duration_seconds: Option<i32>,
) -> Seq<SegmentView> {
    match pieces {
        Some(pieces) => Seq::new(pieces.len(), |i: int| segment_of(pieces[i])),
        None => seq![
            SegmentView {
                speaker: transcribed_speaker(),
                text,
                start_ms: 0,
                end_ms: hinted_millis(duration_seconds) as i64,
            },
        ],
    }
}

/// The transcript that an answer of the provider stands for.
pub fn segments_from_response(
    text: String,
    pieces: Option<Vec<TimedText>>,
    duration_seconds: Option<i32>,
) -> (segments: Vec<TranscriptSegment>)
    ensures
        segments.deep_view() == transcript_of(text@, pieces.deep_view(), duration_seconds),
{
    match pieces {
        Some(pieces) => {
            let mut segments: Vec<TranscriptSegment> = Vec::new();
            let mut i: usize = 0;
            while i < pieces.len()
                invariant
                    i <= pieces.len(),
                    segments.len() == i,
                    forall|k: int| 0 <= k < i ==> segments[k]@ == segment_of(pieces[k]@),
                decreases pieces.len() - i,
            {
                segments.push(
                    TranscriptSegment {
                        speaker: String::from_str("user"),
                        text: pieces[i].text.clone(),
                        start_ms: pieces[i].start_ms,
                        end_ms: pieces[i].end_ms,
                    },
                );
                i += 1;
            }
            assert(segments.deep_view() =~= transcript_of(
                text@,
                Some(pieces.deep_view()),
                duration_seconds,
            ));
            segments
        },
        None => {
            let seconds: i64 = match duration_seconds {
                Some(seconds) => if seconds > 0 {
                    seconds as i64
                } else {
                    0
                },
                None => 0,
            };
            let mut segments: Vec<TranscriptSegment> = Vec::new();
            segments.push(
                TranscriptSegment {
                    speaker: String::from_str("user"),
                    text,
                    start_ms: 0,
                    end_ms: seconds * 1000,
                },
            );
            assert(segments.deep_view() =~= transcript_of(text@, None, duration_seconds));
            segments
        },
    }
}

} // verus!
