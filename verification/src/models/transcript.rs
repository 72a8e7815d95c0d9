//! Transcripts: the ordered segments of what was said in a session.

use crate::time::Timestamp;
use vstd::prelude::*;

verus! {

/// One stretch of speech: who spoke, what was said, and where in the
/// recording it starts and ends, in milliseconds.
#[derive(Debug, PartialEq, Eq)]
pub struct TranscriptSegment {
    pub speaker: String,
    pub text: String,
    pub start_ms: i64,
    pub end_ms: i64,
}

/// The view of a [`TranscriptSegment`].
pub struct SegmentView {
    pub speaker: Seq<char>,
    pub text: Seq<char>,
    pub start_ms: i64,
    pub end_ms: i64,
}

impl View for TranscriptSegment {
    type V = SegmentView;

    open spec fn view(&self) -> SegmentView {
        SegmentView {
            speaker: self.speaker@,
            text: self.text@,
            start_ms: self.start_ms,
            end_ms: self.end_ms,
        }
    }
}

impl DeepView for TranscriptSegment {
    type V = SegmentView;

    open spec fn deep_view(&self) -> SegmentView {
        self@
    }
}

impl Clone for TranscriptSegment {
    fn clone(&self) -> (copy: Self)
        ensures
            copy@ == self@,
    {
        TranscriptSegment {
            speaker: self.speaker.clone(),
            text: self.text.clone(),
            start_ms: self.start_ms,
            end_ms: self.end_ms,
        }
    }
}

impl TranscriptSegment {
    /// Whether two segments hold the same speaker, text and offsets.
    pub fn same_as(&self, other: &TranscriptSegment) -> (r: bool)
        ensures
            r == (self@ == other@),
    {
        self.speaker == other.speaker && self.text == other.text && self.start_ms
            == other.start_ms && self.end_ms == other.end_ms
    }
}

/// A copy of a sequence of segments, in the same order.
pub fn clone_segments(segments: &Vec<TranscriptSegment>) -> (copy: Vec<TranscriptSegment>)
    ensures
        copy.deep_view() == segments.deep_view(),
{
    let mut copy: Vec<TranscriptSegment> = Vec::new();
    let mut i: usize = 0;
    while i < segments.len()
        invariant
            i <= segments.len(),
            copy.len() == i,
            forall|k: int| 0 <= k < i ==> copy[k]@ == segments[k]@,
        decreases segments.len() - i,
    {
        copy.push(segments[i].clone());
        i += 1;
    }
    assert(copy.deep_view() =~= segments.deep_view());
    copy
}

/// Whether two sequences of segments are equal in content: the same number
/// of segments, and the same segment at every place.
pub fn same_segments(a: &Vec<TranscriptSegment>, b: &Vec<TranscriptSegment>) -> (r: bool)
    ensures
        r == (a.deep_view() == b.deep_view()),
{
    if a.len() != b.len() {
        assert(a.deep_view().len() != b.deep_view().len());
        return false;
    }
    let mut i: usize = 0;
    while i < a.len()
        invariant
            i <= a.len(),
            a.len() == b.len(),
            forall|k: int| 0 <= k < i ==> a[k]@ == b[k]@,
        decreases a.len() - i,
    {
        if !a[i].same_as(&b[i]) {
            assert(a.deep_view()[i as int] != b.deep_view()[i as int]);
            return false;
        }
        i += 1;
    }
    assert(a.deep_view() =~= b.deep_view());
    true
}

/// The transcript stored for a session. `segments` is `None` where the stored
/// value could not be read as a sequence of segments.
#[derive(Debug, PartialEq, Eq)]
pub struct Transcript {
    pub id: u128,
    pub session_id: u128,
    pub finalized: bool,
    pub segments: Option<Vec<TranscriptSegment>>,
    pub created_at: Timestamp,
}

/// The view of a [`Transcript`].
pub struct TranscriptView {
    pub id: u128,
    pub session_id: u128,
    pub finalized: bool,
    pub segments: Option<Seq<SegmentView>>,
    pub created_at: Timestamp,
}

impl View for Transcript {
    type V = TranscriptView;

    open spec fn view(&self) -> TranscriptView {
        TranscriptView {
            id: self.id,
            session_id: self.session_id,
            finalized: self.finalized,
            segments: self.segments.deep_view(),
            created_at: self.created_at,
        }
    }
}

impl DeepView for Transcript {
    type V = TranscriptView;

    open spec fn deep_view(&self) -> TranscriptView {
        self@
    }
}

impl Clone for Transcript {
    fn clone(&self) -> (copy: Self)
        ensures
            copy@ == self@,
    {
        Transcript {
            id: self.id,
            session_id: self.session_id,
            finalized: self.finalized,
            segments: match &self.segments {
                Some(segments) => Some(clone_segments(segments)),
                None => None,
            },
            created_at: self.created_at,
        }
    }
}

} // verus!
