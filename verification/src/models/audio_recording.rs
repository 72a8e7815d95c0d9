//! Audio recordings: where the recorded speech of a session is kept.

use crate::time::Timestamp;
use vstd::prelude::*;

verus! {

/// A stored pointer to the recording of a session.
#[derive(Debug, PartialEq, Eq)]
pub struct AudioRecording {
    pub id: u128,
    pub session_id: u128,
    pub storage_url: String,
    pub duration_seconds: Option<i32>,
    pub mime_type: Option<String>,
    pub size_bytes: Option<i64>,
    pub quality_status: Option<String>,
    pub created_at: Timestamp,
}

/// The view of an [`AudioRecording`].
pub struct AudioRecordingView {
    pub id: u128,
    pub session_id: u128,
    pub storage_url: Seq<char>,
    pub duration_seconds: Option<i32>,
    pub mime_type: Option<Seq<char>>,
    pub size_bytes: Option<i64>,
    pub quality_status: Option<Seq<char>>,
    pub created_at: Timestamp,
}

impl View for AudioRecording {
    type V = AudioRecordingView;

    open spec fn view(&self) -> AudioRecordingView {
        AudioRecordingView {
            id: self.id,
            session_id: self.session_id,
            storage_url: self.storage_url@,
            duration_seconds: self.duration_seconds,
            mime_type: self.mime_type.deep_view(),
            size_bytes: self.size_bytes,
            quality_status: self.quality_status.deep_view(),
            created_at: self.created_at,
        }
    }
}

impl DeepView for AudioRecording {
    type V = AudioRecordingView;

    open spec fn deep_view(&self) -> AudioRecordingView {
        self@
    }
}

/// A copy of a text that may be missing.
pub fn clone_text(text: &Option<String>) -> (copy: Option<String>)
    ensures
        copy.deep_view() == text.deep_view(),
{
    match text {
        Some(text) => Some(text.clone()),
        None => None,
    }
}

impl Clone for AudioRecording {
    fn clone(&self) -> (copy: Self)
        ensures
            copy@ == self@,
    {
        AudioRecording {
            id: self.id,
            session_id: self.session_id,
            storage_url: self.storage_url.clone(),
            duration_seconds: self.duration_seconds,
            mime_type: clone_text(&self.mime_type),
            size_bytes: self.size_bytes,
            quality_status: clone_text(&self.quality_status),
            created_at: self.created_at,
        }
    }
}

/// A recording that is to be stored.
#[derive(Debug, PartialEq, Eq)]
pub struct NewAudioRecording {
    pub session_id: u128,
    pub storage_url: String,
    pub duration_seconds: Option<i32>,
    pub mime_type: Option<String>,
    pub size_bytes: Option<i64>,
    pub quality_status: Option<String>,
}

/// The view of a [`NewAudioRecording`].
pub struct NewAudioRecordingView {
    pub session_id: u128,
    pub storage_url: Seq<char>,
    pub duration_seconds: Option<i32>,
    pub mime_type: Option<Seq<char>>,
    pub size_bytes: Option<i64>,
    pub quality_status: Option<Seq<char>>,
}

impl View for NewAudioRecording {
    type V = NewAudioRecordingView;

    open spec fn view(&self) -> NewAudioRecordingView {
        NewAudioRecordingView {
            session_id: self.session_id,
            storage_url: self.storage_url@,
            duration_seconds: self.duration_seconds,
            mime_type: self.mime_type.deep_view(),
            size_bytes: self.size_bytes,
            quality_status: self.quality_status.deep_view(),
        }
    }
}

} // verus!
