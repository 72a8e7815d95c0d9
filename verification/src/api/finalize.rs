//! The finalization reconciler: seals the end of a session into one record.
//!
//! The transcript is what the caller submits, else what is stored, else what
//! the transcription provider makes of the recording. The recording is the
//! one the caller names, else the stored one. A session that is settled
//! keeps its status, and an end that is set is never set again. A stored
//! transcript that is finalized and holds the same segments is not written a
//! second time.

use crate::api::reply::{found_view, owned, written_view};
use crate::error::ServiceError;
use crate::models::audio_recording::{AudioRecording, AudioRecordingView};
use crate::models::session::{FinalizeSession, FinalizeSessionView, Session, SessionView};
use crate::models::transcript::{
    clone_segments,
    same_segments,
    SegmentView,
    Transcript,
    TranscriptSegment,
    TranscriptView,
};
use crate::ident::id_text;
use crate::telemetry::{failure, log_failure, Event, LogEntry, LogEntryView, LogKind};
use crate::time::{read_clock, Timestamp};
use vstd::prelude::*;
use vstd::string::StringExecFns;

verus! {

/// What a caller submits to finalize a session.
#[derive(Debug, PartialEq, Eq)]
pub struct FinalizeRequest {
    pub transcript: Vec<TranscriptSegment>,
    pub status: String,
    pub duration_seconds: Option<i32>,
    pub audio_url: Option<String>,
}

/// The view of a [`FinalizeRequest`].
pub struct FinalizeRequestView {
    pub transcript: Seq<SegmentView>,
    pub status: Seq<char>,
    pub duration_seconds: Option<i32>,
    pub audio_url: Option<Seq<char>>,
}

impl View for FinalizeRequest {
    type V = FinalizeRequestView;

    open spec fn view(&self) -> FinalizeRequestView {
        FinalizeRequestView {
            transcript: self.transcript.deep_view(),
            status: self.status@,
            duration_seconds: self.duration_seconds,
            audio_url: self.audio_url.deep_view(),
        }
    }
}

/// The record that a finalize ends with.
#[derive(Debug, PartialEq, Eq)]
pub struct FinalizeResponse {
    pub session_id: u128,
    pub status: String,
    pub transcript: Vec<TranscriptSegment>,
    pub audio_url: Option<String>,
    pub duration_seconds: Option<i32>,
}

/// The view of a [`FinalizeResponse`].
pub struct FinalizeResponseView {
    pub session_id: u128,
    pub status: Seq<char>,
    pub transcript: Seq<SegmentView>,
    pub audio_url: Option<Seq<char>>,
    pub duration_seconds: Option<i32>,
}

impl View for FinalizeResponse {
    type V = FinalizeResponseView;

    open spec fn view(&self) -> FinalizeResponseView {
        FinalizeResponseView {
            session_id: self.session_id,
            status: self.status@,
            transcript: self.transcript.deep_view(),
            audio_url: self.audio_url.deep_view(),
            duration_seconds: self.duration_seconds,
        }
    }
}

// ---------------------------------------------------------------------------
// The rules of reconciliation
// ---------------------------------------------------------------------------
/// The segments that a stored transcript offers: none where nothing is
/// stored or the stored value could not be read.
pub open spec fn stored_segments(stored: Option<TranscriptView>) -> Seq<SegmentView> {
    match stored {
        Some(transcript) => match transcript.segments {
            Some(segments) => segments,
            None => Seq::empty(),
        },
        None => Seq::empty(),
    }
}

/// The transcript before the provider is asked: what was submitted, or, where
/// that is empty, what is stored.
pub open spec fn transcript_at_hand(
    submitted: Seq<SegmentView>,
    stored: Option<TranscriptView>,
) -> Seq<SegmentView> {
    if submitted.len() > 0 {
        submitted
    } else {
        stored_segments(stored)
    }
}

/// The recording of the record: the one submitted, else the stored one.
pub open spec fn effective_audio_url(
    submitted: Option<Seq<char>>,
    recording: Option<AudioRecordingView>,
) -> Option<Seq<char>> {
    match submitted {
        Some(url) => Some(url),
        None => match recording {
            Some(stored) => Some(stored.storage_url),
            None => None,
        },
    }
}

/// The status of the record: a settled session keeps its status, a running
/// one takes the submitted status.
pub open spec fn effective_status(session: SessionView, submitted: Seq<char>) -> Seq<char> {
    if session.settled() {
        session.status
    } else {
        submitted
    }
}

/// The length of the record: the stored one, else the submitted one.
pub open spec fn effective_duration(session: SessionView, submitted: Option<i32>) -> Option<i32> {
    match session.duration_seconds {
        Some(seconds) => Some(seconds),
        None => submitted,
    }
}

/// The end of the record: the stored one, else `now`.
pub open spec fn effective_end_time(stored: Option<Timestamp>, now: Timestamp) -> Timestamp {
    match stored {
        Some(end) => end,
        None => now,
    }
}

/// Whether the transcript has to be written: always, but where the stored
/// transcript is finalized and holds the same segments.
pub open spec fn must_persist(stored: Option<TranscriptView>, transcript: Seq<SegmentView>) -> bool {
    !(stored matches Some(existing) && existing.finalized && existing.segments == Some(transcript))
}

/// The transcript before the provider is asked.
pub fn resolve_transcript(submitted: Vec<TranscriptSegment>, stored: &Option<Transcript>) -> (transcript:
    Vec<TranscriptSegment>)
    ensures
        transcript.deep_view() == transcript_at_hand(submitted.deep_view(), stored.deep_view()),
{
    if submitted.len() > 0 {
        return submitted;
    }
    assert(submitted.deep_view() =~= Seq::<SegmentView>::empty());
    match stored {
        Some(existing) => match &existing.segments {
            Some(segments) => clone_segments(segments),
            None => submitted,
        },
        None => submitted,
    }
}

/// The recording of the record.
pub fn resolve_audio_url(submitted: Option<String>, recording: &Option<AudioRecording>) -> (url:
    Option<String>)
    ensures
        url.deep_view() == effective_audio_url(submitted.deep_view(), recording.deep_view()),
{
    match submitted {
        Some(url) => Some(url),
        None => match recording {
            Some(stored) => Some(stored.storage_url.clone()),
            None => None,
        },
    }
}

/// The status of the record.
pub fn resolve_status(session: &Session, submitted: String) -> (status: String)
    ensures
        status@ == effective_status(session@, submitted@),
{
    if session.is_active() {
        submitted
    } else {
        session.status.clone()
    }
}

/// The length of the record.
pub fn resolve_duration(session: &Session, submitted: Option<i32>) -> (duration: Option<i32>)
    ensures
        duration == effective_duration(session@, submitted),
{
    match session.duration_seconds {
        Some(seconds) => Some(seconds),
        None => submitted,
    }
}

/// Whether the transcript has to be written.
pub fn needs_write(stored: &Option<Transcript>, transcript: &Vec<TranscriptSegment>) -> (write: bool)
    ensures
        write == must_persist(stored.deep_view(), transcript.deep_view()),
{
    match stored {
        Some(existing) => {
            if existing.finalized {
                match &existing.segments {
                    Some(segments) => !same_segments(segments, transcript),
                    None => true,
                }
            } else {
                true
            }
        },
        None => true,
    }
}

// ---------------------------------------------------------------------------
// Phases
// ---------------------------------------------------------------------------
/// Status, timing and recording of the record, as resolved from the session,
/// the request and the stored recording. `end_time` is the end that the
/// session already has.
#[derive(Debug, PartialEq, Eq)]
pub struct Settlement {
    pub session_id: u128,
    pub status: String,
    pub duration_seconds: Option<i32>,
    pub end_time: Option<Timestamp>,
    pub audio_url: Option<String>,
}

/// The view of a [`Settlement`].
pub struct SettlementView {
    pub session_id: u128,
    pub status: Seq<char>,
    pub duration_seconds: Option<i32>,
    pub end_time: Option<Timestamp>,
    pub audio_url: Option<Seq<char>>,
}

impl View for Settlement {
    type V = SettlementView;

    open spec fn view(&self) -> SettlementView {
        SettlementView {
            session_id: self.session_id,
            status: self.status@,
            duration_seconds: self.duration_seconds,
            end_time: self.end_time,
            audio_url: self.audio_url.deep_view(),
        }
    }
}

/// The session has been asked for.
#[derive(Debug, PartialEq, Eq)]
pub struct AwaitSession {
    pub session_id: u128,
    pub user_id: u128,
    pub request: FinalizeRequest,
}

/// The view of an [`AwaitSession`].
pub struct AwaitSessionView {
    pub session_id: u128,
    pub user_id: u128,
    pub request: FinalizeRequestView,
}

impl View for AwaitSession {
    type V = AwaitSessionView;

    open spec fn view(&self) -> AwaitSessionView {
        AwaitSessionView {
            session_id: self.session_id,
            user_id: self.user_id,
            request: self.request@,
        }
    }
}

/// The stored transcript and the stored recording have been asked for.
#[derive(Debug, PartialEq, Eq)]
pub struct AwaitRecords {
    pub session_id: u128,
    pub session: Session,
    pub request: FinalizeRequest,
}

/// The view of an [`AwaitRecords`].
pub struct AwaitRecordsView {
    pub session_id: u128,
    pub session: SessionView,
    pub request: FinalizeRequestView,
}

impl View for AwaitRecords {
    type V = AwaitRecordsView;

    open spec fn view(&self) -> AwaitRecordsView {
        AwaitRecordsView {
            session_id: self.session_id,
            session: self.session@,
            request: self.request@,
        }
    }
}

/// The transcription of the recording has been asked for.
#[derive(Debug, PartialEq, Eq)]
pub struct AwaitTranscription {
    pub settlement: Settlement,
    pub stored: Option<Transcript>,
}

/// The view of an [`AwaitTranscription`].
pub struct AwaitTranscriptionView {
    pub settlement: SettlementView,
    pub stored: Option<TranscriptView>,
}

impl View for AwaitTranscription {
    type V = AwaitTranscriptionView;

    open spec fn view(&self) -> AwaitTranscriptionView {
        AwaitTranscriptionView { settlement: self.settlement@, stored: self.stored.deep_view() }
    }
}

/// The record is resolved and nothing has been written yet. `persist` tells
/// whether the transcript has to be written.
#[derive(Debug, PartialEq, Eq)]
pub struct Resolved {
    pub settlement: Settlement,
    pub transcript: Vec<TranscriptSegment>,
    pub persist: bool,
}

/// The view of a [`Resolved`].
pub struct ResolvedView {
    pub settlement: SettlementView,
    pub transcript: Seq<SegmentView>,
    pub persist: bool,
}

impl View for Resolved {
    type V = ResolvedView;

    open spec fn view(&self) -> ResolvedView {
        ResolvedView {
            settlement: self.settlement@,
            transcript: self.transcript.deep_view(),
            persist: self.persist,
        }
    }
}

/// The update of the session has been asked for.
#[derive(Debug, PartialEq, Eq)]
pub struct AwaitUpdate {
    pub response: FinalizeResponse,
    pub persist: bool,
}

/// The view of an [`AwaitUpdate`].
pub struct AwaitUpdateView {
    pub response: FinalizeResponseView,
    pub persist: bool,
}

impl View for AwaitUpdate {
    type V = AwaitUpdateView;

    open spec fn view(&self) -> AwaitUpdateView {
        AwaitUpdateView { response: self.response@, persist: self.persist }
    }
}

/// The write of the transcript has been asked for.
#[derive(Debug, PartialEq, Eq)]
pub struct AwaitUpsert {
    pub response: FinalizeResponse,
}

/// The view of an [`AwaitUpsert`].
pub struct AwaitUpsertView {
    pub response: FinalizeResponseView,
}

impl View for AwaitUpsert {
    type V = AwaitUpsertView;

    open spec fn view(&self) -> AwaitUpsertView {
        AwaitUpsertView { response: self.response@ }
    }
}

/// Where a finalize stands once the session has been looked up.
#[derive(Debug, PartialEq, Eq)]
pub enum AfterSession {
    /// The finalize ends here, before anything was written.
    Rejected { error: ServiceError, log: LogEntry },
    /// Next, read the stored transcript and the stored recording.
    Load { load: AwaitRecords },
}

/// The view of an [`AfterSession`].
pub enum AfterSessionView {
    Rejected { error: ServiceError, log: LogEntryView },
    Load { load: AwaitRecordsView },
}

impl View for AfterSession {
    type V = AfterSessionView;

    open spec fn view(&self) -> AfterSessionView {
        match self {
            AfterSession::Rejected { error, log } => AfterSessionView::Rejected {
                error: *error,
                log: log@,
            },
            AfterSession::Load { load } => AfterSessionView::Load { load: load@ },
        }
    }
}

/// Where a finalize stands once the stored transcript and recording are
/// read.
#[derive(Debug, PartialEq, Eq)]
pub enum AfterRecords {
    /// There is no transcript and nothing to make one from.
    Rejected { error: ServiceError, log: LogEntry },
    /// Next, have the recording at `audio_url` transcribed.
    Transcribe { audio_url: String, duration_hint: Option<i32>, transcribe: AwaitTranscription },
    /// The record is resolved.
    Resolved { resolved: Resolved },
}

/// The view of an [`AfterRecords`].
pub enum AfterRecordsView {
    Rejected { error: ServiceError, log: LogEntryView },
    Transcribe {
        audio_url: Seq<char>,
        duration_hint: Option<i32>,
        transcribe: AwaitTranscriptionView,
    },
    Resolved { resolved: ResolvedView },
}

impl View for AfterRecords {
    type V = AfterRecordsView;

    open spec fn view(&self) -> AfterRecordsView {
        match self {
            AfterRecords::Rejected { error, log } => AfterRecordsView::Rejected {
                error: *error,
                log: log@,
            },
            AfterRecords::Transcribe {
                audio_url,
                duration_hint,
                transcribe,
            } => AfterRecordsView::Transcribe {
                audio_url: audio_url@,
                duration_hint: *duration_hint,
                transcribe: transcribe@,
            },
            AfterRecords::Resolved { resolved } => AfterRecordsView::Resolved {
                resolved: resolved@,
            },
        }
    }
}

/// Where a finalize stands once the provider has answered.
#[derive(Debug, PartialEq, Eq)]
pub enum AfterTranscription {
    Failed { error: ServiceError, log: LogEntry },
    Resolved { resolved: Resolved },
}

/// The view of an [`AfterTranscription`].
pub enum AfterTranscriptionView {
    Failed { error: ServiceError, log: LogEntryView },
    Resolved { resolved: ResolvedView },
}

impl View for AfterTranscription {
    type V = AfterTranscriptionView;

    open spec fn view(&self) -> AfterTranscriptionView {
        match self {
            AfterTranscription::Failed { error, log } => AfterTranscriptionView::Failed {
                error: *error,
                log: log@,
            },
            AfterTranscription::Resolved { resolved } => AfterTranscriptionView::Resolved {
                resolved: resolved@,
            },
        }
    }
}

/// Where a finalize stands once the session has been updated.
#[derive(Debug, PartialEq, Eq)]
pub enum AfterUpdate {
    Failed { error: ServiceError, log: LogEntry },
    /// Next, store `segments` as the finalized transcript of the session.
    Upsert { segments: Vec<TranscriptSegment>, upsert: AwaitUpsert },
    /// The transcript is stored already; the finalize ends here.
    Done { response: FinalizeResponse },
}

/// The view of an [`AfterUpdate`].
pub enum AfterUpdateView {
    Failed { error: ServiceError, log: LogEntryView },
    Upsert { segments: Seq<SegmentView>, upsert: AwaitUpsertView },
    Done { response: FinalizeResponseView },
}

impl View for AfterUpdate {
    type V = AfterUpdateView;

    open spec fn view(&self) -> AfterUpdateView {
        match self {
            AfterUpdate::Failed { error, log } => AfterUpdateView::Failed {
                error: *error,
                log: log@,
            },
            AfterUpdate::Upsert { segments, upsert } => AfterUpdateView::Upsert {
                segments: segments.deep_view(),
                upsert: upsert@,
            },
            AfterUpdate::Done { response } => AfterUpdateView::Done { response: response@ },
        }
    }
}

/// How a finalize that wrote the transcript ends.
#[derive(Debug, PartialEq, Eq)]
pub enum AfterUpsert {
    Failed { error: ServiceError, log: LogEntry },
    Done { response: FinalizeResponse },
}

/// The view of an [`AfterUpsert`].
pub enum AfterUpsertView {
    Failed { error: ServiceError, log: LogEntryView },
    Done { response: FinalizeResponseView },
}

impl View for AfterUpsert {
    type V = AfterUpsertView;

    open spec fn view(&self) -> AfterUpsertView {
        match self {
            AfterUpsert::Failed { error, log } => AfterUpsertView::Failed {
                error: *error,
                log: log@,
            },
            AfterUpsert::Done { response } => AfterUpsertView::Done { response: response@ },
        }
    }
}

/// The answer of the transcription provider, as a view.
pub open spec fn transcribed_view(transcribed: Result<Vec<TranscriptSegment>, String>) -> Result<
    Seq<SegmentView>,
    Seq<char>,
> {
    match transcribed {
        Ok(segments) => Ok(segments.deep_view()),
        Err(reason) => Err(reason@),
    }
}

// ---------------------------------------------------------------------------
// Transitions, as functions of the views
// ---------------------------------------------------------------------------
/// Status, timing and recording of the record.
pub open spec fn settlement_of(
    session_id: u128,
    session: SessionView,
    request: FinalizeRequestView,
    recording: Option<AudioRecordingView>,
) -> SettlementView {
    SettlementView {
        session_id,
        status: effective_status(session, request.status),
        duration_seconds: effective_duration(session, request.duration_seconds),
        end_time: session.end_time,
        audio_url: effective_audio_url(request.audio_url, recording),
    }
}

/// The step after the lookup of the session: a missing session and a session
/// of another user end the finalize; otherwise the stored transcript and
/// recording are read.
pub open spec fn after_session(
    phase: AwaitSessionView,
    found: Result<SessionView, Seq<char>>,
) -> AfterSessionView {
    match found {
        Err(reason) => AfterSessionView::Rejected {
            error: ServiceError::NotFound,
            log: failure(
                Event::FinalizeSessionMissing,
                Some(phase.session_id),
                "session missing: "@ + reason,
            ),
        },
        Ok(session) => if session.user_id != phase.user_id {
            AfterSessionView::Rejected {
                error: ServiceError::Forbidden,
                log: failure(Event::FinalizeForbidden, Some(phase.session_id), "user mismatch"@),
            }
        } else {
            AfterSessionView::Load {
                load: AwaitRecordsView {
                    session_id: phase.session_id,
                    session,
                    request: phase.request,
                },
            }
        },
    }
}

/// The step after the stored transcript and recording are read: the record
/// is resolved where a transcript is at hand; else the recording is sent to
/// the provider; else the finalize ends for want of a source.
pub open spec fn after_records(
    phase: AwaitRecordsView,
    stored: Option<TranscriptView>,
    recording: Option<AudioRecordingView>,
) -> AfterRecordsView {
    let transcript = transcript_at_hand(phase.request.transcript, stored);
    let settlement = settlement_of(phase.session_id, phase.session, phase.request, recording);
    if transcript.len() > 0 {
        AfterRecordsView::Resolved {
            resolved: ResolvedView {
                settlement,
                transcript,
                persist: must_persist(stored, transcript),
            },
        }
    } else {
        match settlement.audio_url {
            Some(audio_url) => AfterRecordsView::Transcribe {
                audio_url,
                duration_hint: phase.request.duration_seconds,
                transcribe: AwaitTranscriptionView { settlement, stored },
            },
            None => AfterRecordsView::Rejected {
                error: ServiceError::MissingTranscriptSource,
                log: failure(
                    Event::FinalizeMissingTranscript,
                    Some(phase.session_id),
                    "no transcript and no audio_url provided"@,
                ),
            },
        }
    }
}

/// The step after the answer of the provider: its segments become the
/// transcript, or the finalize fails.
pub open spec fn after_transcription(
    phase: AwaitTranscriptionView,
    transcribed: Result<Seq<SegmentView>, Seq<char>>,
) -> AfterTranscriptionView {
    match transcribed {
        Ok(segments) => AfterTranscriptionView::Resolved {
            resolved: ResolvedView {
                settlement: phase.settlement,
                transcript: segments,
                persist: must_persist(phase.stored, segments),
            },
        },
        Err(reason) => AfterTranscriptionView::Failed {
            error: ServiceError::TranscriptionFailed,
            log: failure(
                Event::FinalizeTranscriptionFailed,
                Some(phase.settlement.session_id),
                reason,
            ),
        },
    }
}

/// The record that `resolved` ends with.
pub open spec fn response_of(resolved: ResolvedView) -> FinalizeResponseView {
    FinalizeResponseView {
        session_id: resolved.settlement.session_id,
        status: resolved.settlement.status,
        transcript: resolved.transcript,
        audio_url: resolved.settlement.audio_url,
        duration_seconds: resolved.settlement.duration_seconds,
    }
}

/// What is written to the session for `resolved` at `now`.
pub open spec fn update_of(resolved: ResolvedView, now: Timestamp) -> FinalizeSessionView {
    FinalizeSessionView {
        end_time: effective_end_time(resolved.settlement.end_time, now),
        duration_seconds: resolved.settlement.duration_seconds,
        status: resolved.settlement.status,
    }
}

/// The update of the session for `resolved` at `now`, and the phase that
/// waits for it.
pub open spec fn started(resolved: ResolvedView, now: Timestamp) -> (
    FinalizeSessionView,
    AwaitUpdateView,
) {
    (
        update_of(resolved, now),
        AwaitUpdateView { response: response_of(resolved), persist: resolved.persist },
    )
}

/// The step after the update of the session: the transcript is written
/// where it has to be, else the finalize is done; a failed update ends it.
pub open spec fn after_update(phase: AwaitUpdateView, written: Result<(), Seq<char>>) -> AfterUpdateView {
    match written {
        Err(reason) => AfterUpdateView::Failed {
            error: ServiceError::FinalizeUpdateFailed,
            log: failure(
                Event::FinalizeUpdateFailed,
                Some(phase.response.session_id),
                "finalize failed: "@ + reason,
            ),
        },
        Ok(_) => if phase.persist {
            AfterUpdateView::Upsert {
                segments: phase.response.transcript,
                upsert: AwaitUpsertView { response: phase.response },
            }
        } else {
            AfterUpdateView::Done { response: phase.response }
        },
    }
}

/// The step after the write of the transcript.
pub open spec fn after_upsert(phase: AwaitUpsertView, written: Result<(), Seq<char>>) -> AfterUpsertView {
    match written {
        Ok(_) => AfterUpsertView::Done { response: phase.response },
        Err(reason) => AfterUpsertView::Failed {
            error: ServiceError::TranscriptPersistFailed,
            log: failure(
                Event::FinalizeTranscriptPersistFailed,
                Some(phase.response.session_id),
                reason,
            ),
        },
    }
}

// ---------------------------------------------------------------------------
// Transitions
// ---------------------------------------------------------------------------
/// Starts a finalize of the session `session_id` for the caller `user_id`.
/// The first request is the lookup of the session.
pub fn finalize_session(session_id: u128, user_id: u128, request: FinalizeRequest) -> (phase:
    AwaitSession)
    ensures
        phase@ == (AwaitSessionView { session_id, user_id, request: request@ }),
{
    AwaitSession { session_id, user_id, request }
}

impl AwaitSession {
    /// Takes the reply to the lookup of the session; an error of the store
    /// carries its reason.
    pub fn on_session(self, found: Result<Session, String>) -> (next: AfterSession)
        ensures
            next@ == after_session(self@, found_view(found)),
    {
        match found {
            Err(reason) => {
                let mut text = String::from_str("session missing: ");
                text.append(reason.as_str());
                AfterSession::Rejected {
                    error: ServiceError::NotFound,
                    log: log_failure(
                        Event::FinalizeSessionMissing,
                        Some(self.session_id),
                        text.as_str(),
                    ),
                }
            },
            Ok(session) => {
                if session.user_id != self.user_id {
                    AfterSession::Rejected {
                        error: ServiceError::Forbidden,
                        log: log_failure(
                            Event::FinalizeForbidden,
                            Some(self.session_id),
                            "user mismatch",
                        ),
                    }
                } else {
                    AfterSession::Load {
                        load: AwaitRecords {
                            session_id: self.session_id,
                            session,
                            request: self.request,
                        },
                    }
                }
            },
        }
    }
}

impl AwaitRecords {
    /// Takes the stored transcript and the stored recording of the session,
    /// each `None` where there is none or the store gave none.
    pub fn on_records(self, stored: Option<Transcript>, recording: Option<AudioRecording>) -> (next:
        AfterRecords)
        ensures
            next@ == after_records(self@, stored.deep_view(), recording.deep_view()),
    {
        let session_id = self.session_id;
        let session = self.session;
        let request = self.request;
        let duration_hint = request.duration_seconds;
        let transcript = resolve_transcript(request.transcript, &stored);
        let settlement = Settlement {
            session_id,
            status: resolve_status(&session, request.status),
            duration_seconds: resolve_duration(&session, request.duration_seconds),
            end_time: session.end_time,
            audio_url: resolve_audio_url(request.audio_url, &recording),
        };
        if transcript.len() > 0 {
            let persist = needs_write(&stored, &transcript);
            AfterRecords::Resolved { resolved: Resolved { settlement, transcript, persist } }
        } else {
            match &settlement.audio_url {
                Some(url) => {
                    let audio_url = url.clone();
                    AfterRecords::Transcribe {
                        audio_url,
                        duration_hint,
                        transcribe: AwaitTranscription { settlement, stored },
                    }
                },
                None => AfterRecords::Rejected {
                    error: ServiceError::MissingTranscriptSource,
                    log: log_failure(
                        Event::FinalizeMissingTranscript,
                        Some(session_id),
                        "no transcript and no audio_url provided",
                    ),
                },
            }
        }
    }
}

impl AwaitTranscription {
    /// Takes the answer of the transcription provider.
    pub fn on_transcribed(self, transcribed: Result<Vec<TranscriptSegment>, String>) -> (next:
        AfterTranscription)
        ensures
            next@ == after_transcription(self@, transcribed_view(transcribed)),
    {
        match transcribed {
            Ok(segments) => {
                let persist = needs_write(&self.stored, &segments);
                AfterTranscription::Resolved {
                    resolved: Resolved { settlement: self.settlement, transcript: segments, persist },
                }
            },
            Err(reason) => AfterTranscription::Failed {
                error: ServiceError::TranscriptionFailed,
                log: log_failure(
                    Event::FinalizeTranscriptionFailed,
                    Some(self.settlement.session_id),
                    reason.as_str(),
                ),
            },
        }
    }
}

impl Resolved {
    /// The update of the session at `now`, which is the next request, and
    /// the phase that waits for its reply.
    pub fn start_at(self, now: Timestamp) -> (next: (FinalizeSession, AwaitUpdate))
        ensures
            (next.0@, next.1@) == started(self@, now),
    {
        let settlement = self.settlement;
        let end_time = match settlement.end_time {
            Some(end) => end,
            None => now,
        };
        let update = crate::services::sessions::finalize_session(
            end_time,
            settlement.duration_seconds,
            settlement.status.as_str(),
        );
        let response = FinalizeResponse {
            session_id: settlement.session_id,
            status: settlement.status,
            transcript: self.transcript,
            audio_url: settlement.audio_url,
            duration_seconds: settlement.duration_seconds,
        };
        (update, AwaitUpdate { response, persist: self.persist })
    }

    /// The update of the session, which is the next request, and the phase
    /// that waits for its reply. Where the session has no end yet, the end
    /// is read from the clock.
    pub fn start(self) -> (next: (FinalizeSession, AwaitUpdate))
        ensures
            exists|now: Timestamp| (next.0@, next.1@) == #[trigger] started(self@, now),
    {
        let now = match self.settlement.end_time {
            Some(end) => end,
            None => read_clock(),
        };
        let ghost before = self@;
        let next = self.start_at(now);
        assert((next.0@, next.1@) == started(before, now));
        next
    }
}

impl AwaitUpdate {
    /// Takes the reply to the update of the session.
    pub fn on_updated(self, written: Result<(), String>) -> (next: AfterUpdate)
        ensures
            next@ == after_update(self@, written_view(written)),
    {
        match written {
            Err(reason) => {
                let mut text = String::from_str("finalize failed: ");
                text.append(reason.as_str());
                AfterUpdate::Failed {
                    error: ServiceError::FinalizeUpdateFailed,
                    log: log_failure(
                        Event::FinalizeUpdateFailed,
                        Some(self.response.session_id),
                        text.as_str(),
                    ),
                }
            },
            Ok(_) => {
                if self.persist {
                    let segments = clone_segments(&self.response.transcript);
                    AfterUpdate::Upsert { segments, upsert: AwaitUpsert { response: self.response } }
                } else {
                    AfterUpdate::Done { response: self.response }
                }
            },
        }
    }
}

impl AwaitUpsert {
    /// Takes the reply to the write of the transcript.
    pub fn on_upserted(self, written: Result<(), String>) -> (next: AfterUpsert)
        ensures
            next@ == after_upsert(self@, written_view(written)),
    {
        match written {
            Ok(_) => AfterUpsert::Done { response: self.response },
            Err(reason) => AfterUpsert::Failed {
                error: ServiceError::TranscriptPersistFailed,
                log: log_failure(
                    Event::FinalizeTranscriptPersistFailed,
                    Some(self.response.session_id),
                    reason.as_str(),
                ),
            },
        }
    }
}

// ---------------------------------------------------------------------------
// A whole finalize
// ---------------------------------------------------------------------------
/// What the store, the provider and the clock answer in the course of one
/// finalize.
pub struct FinalizeWorld {
    pub session: Result<SessionView, Seq<char>>,
    pub stored: Option<TranscriptView>,
    pub recording: Option<AudioRecordingView>,
    pub transcription: Result<Seq<SegmentView>, Seq<char>>,
    pub now: Timestamp,
    pub update: Result<(), Seq<char>>,
    pub upsert: Result<(), Seq<char>>,
}

/// What a finalize asks of the provider and of the store beyond reading.
pub enum FinalizeEffect {
    Transcribe { audio_url: Seq<char>, duration_hint: Option<i32> },
    SessionUpdate { session_id: u128, update: FinalizeSessionView },
    TranscriptUpsert { session_id: u128, segments: Seq<SegmentView> },
}

/// One finalize from its first request to its end: how it ends, what it
/// asked of the provider and the store, and what it logged, each in order.
pub struct FinalizeRun {
    pub outcome: Result<FinalizeResponseView, ServiceError>,
    pub effects: Seq<FinalizeEffect>,
    pub log: Seq<LogEntryView>,
}

/// The rest of a finalize from the resolved record on, after the effects
/// `effects`.
pub open spec fn run_from_resolved(
    resolved: ResolvedView,
    world: FinalizeWorld,
    effects: Seq<FinalizeEffect>,
) -> FinalizeRun {
    let session_id = resolved.settlement.session_id;
    let (update, pending) = started(resolved, world.now);
    let updated = effects.push(FinalizeEffect::SessionUpdate { session_id, update });
    match after_update(pending, world.update) {
        AfterUpdateView::Failed { error, log } => FinalizeRun {
            outcome: Err(error),
            effects: updated,
            log: seq![log],
        },
        AfterUpdateView::Done { response } => FinalizeRun {
            outcome: Ok(response),
            effects: updated,
            log: Seq::empty(),
        },
        AfterUpdateView::Upsert { segments, upsert } => {
            let written = updated.push(FinalizeEffect::TranscriptUpsert { session_id, segments });
            match after_upsert(upsert, world.upsert) {
                AfterUpsertView::Done { response } => FinalizeRun {
                    outcome: Ok(response),
                    effects: written,
                    log: Seq::empty(),
                },
                AfterUpsertView::Failed { error, log } => FinalizeRun {
                    outcome: Err(error),
                    effects: written,
                    log: seq![log],
                },
            }
        },
    }
}

/// The finalize that `request` of the caller `user_id` runs to in `world`:
/// the transitions in their order, each fed the answer that `world` holds.
pub open spec fn finalize_run(
    session_id: u128,
    user_id: u128,
    request: FinalizeRequestView,
    world: FinalizeWorld,
) -> FinalizeRun {
    match after_session(AwaitSessionView { session_id, user_id, request }, world.session) {
        AfterSessionView::Rejected { error, log } => FinalizeRun {
            outcome: Err(error),
            effects: Seq::empty(),
            log: seq![log],
        },
        AfterSessionView::Load { load } => match after_records(
            load,
            world.stored,
            world.recording,
        ) {
            AfterRecordsView::Rejected { error, log } => FinalizeRun {
                outcome: Err(error),
                effects: Seq::empty(),
                log: seq![log],
            },
            AfterRecordsView::Resolved { resolved } => run_from_resolved(
                resolved,
                world,
                Seq::empty(),
            ),
            AfterRecordsView::Transcribe { audio_url, duration_hint, transcribe } => {
                let asked = seq![FinalizeEffect::Transcribe { audio_url, duration_hint }];
                match after_transcription(transcribe, world.transcription) {
                    AfterTranscriptionView::Failed { error, log } => FinalizeRun {
                        outcome: Err(error),
                        effects: asked,
                        log: seq![log],
                    },
                    AfterTranscriptionView::Resolved { resolved } => run_from_resolved(
                        resolved,
                        world,
                        asked,
                    ),
                }
            },
        },
    }
}

/// Whether a run writes the transcript.
pub open spec fn writes_transcript(run: FinalizeRun) -> bool {
    exists|i: int| 0 <= i < run.effects.len() && #[trigger] run.effects[i] is TranscriptUpsert
}

/// Whether a run asks the provider for a transcription.
pub open spec fn asks_provider(run: FinalizeRun) -> bool {
    exists|i: int| 0 <= i < run.effects.len() && #[trigger] run.effects[i] is Transcribe
}

/// A finalize of a session that does not exist ends with `NotFound` and has
/// no effect.
pub proof fn law_missing_session_is_not_found(
    session_id: u128,
    user_id: u128,
    request: FinalizeRequestView,
    world: FinalizeWorld,
)
    requires
        world.session is Err,
    ensures
        finalize_run(session_id, user_id, request, world).outcome == Err::<
            FinalizeResponseView,
            ServiceError,
        >(ServiceError::NotFound),
        finalize_run(session_id, user_id, request, world).effects == Seq::<FinalizeEffect>::empty(),
{
}

/// A finalize of a session of another user ends with `Forbidden` and has no
/// effect: nothing is transcribed and nothing is written.
pub proof fn law_foreign_session_is_forbidden(
    session_id: u128,
    user_id: u128,
    request: FinalizeRequestView,
    world: FinalizeWorld,
)
    requires
        world.session matches Ok(session) && session.user_id != user_id,
    ensures
        finalize_run(session_id, user_id, request, world).outcome == Err::<
            FinalizeResponseView,
            ServiceError,
        >(ServiceError::Forbidden),
        finalize_run(session_id, user_id, request, world).effects == Seq::<FinalizeEffect>::empty(),
{
}

/// With nothing submitted, nothing stored and no recording, a finalize ends
/// with `MissingTranscriptSource` and has no effect.
pub proof fn law_no_source_is_rejected(
    session_id: u128,
    user_id: u128,
    request: FinalizeRequestView,
    world: FinalizeWorld,
)
    requires
        owned(world.session, user_id),
        request.transcript.len() == 0,
        stored_segments(world.stored).len() == 0,
        request.audio_url is None,
        world.recording is None,
    ensures
        finalize_run(session_id, user_id, request, world).outcome == Err::<
            FinalizeResponseView,
            ServiceError,
        >(ServiceError::MissingTranscriptSource),
        finalize_run(session_id, user_id, request, world).effects == Seq::<FinalizeEffect>::empty(),
{
}

/// A submitted transcript is sealed as it stands: where the store takes the
/// writes, the record holds the submitted segments in their order, beside
/// the status, length and recording that the rules give; the session is
/// updated first, with the end that the session has or else `now`.
pub proof fn law_submitted_transcript_is_sealed(
    session_id: u128,
    user_id: u128,
    request: FinalizeRequestView,
    world: FinalizeWorld,
)
    requires
        owned(world.session, user_id),
        request.transcript.len() > 0,
        world.update is Ok,
        world.upsert is Ok,
    ensures
        finalize_run(session_id, user_id, request, world).outcome == Ok::<
            FinalizeResponseView,
            ServiceError,
        >(
            FinalizeResponseView {
                session_id,
                status: effective_status(world.session->Ok_0, request.status),
                transcript: request.transcript,
                audio_url: effective_audio_url(request.audio_url, world.recording),
                duration_seconds: effective_duration(
                    world.session->Ok_0,
                    request.duration_seconds,
                ),
            },
        ),
        finalize_run(session_id, user_id, request, world).effects[0]
            == (FinalizeEffect::SessionUpdate {
            session_id,
            update: FinalizeSessionView {
                end_time: effective_end_time(world.session->Ok_0.end_time, world.now),
                duration_seconds: effective_duration(
                    world.session->Ok_0,
                    request.duration_seconds,
                ),
                status: effective_status(world.session->Ok_0, request.status),
            },
        }),
        !asks_provider(finalize_run(session_id, user_id, request, world)),
        writes_transcript(finalize_run(session_id, user_id, request, world)) == must_persist(
            world.stored,
            request.transcript,
        ),
{
    let run = finalize_run(session_id, user_id, request, world);
    if must_persist(world.stored, request.transcript) {
        assert(run.effects[1] is TranscriptUpsert);
    }
}

/// A write that the store refuses ends the finalize with the error of that
/// write: a refused update of the session with `FinalizeUpdateFailed`, and
/// then the transcript is not written; a refused write of the transcript
/// with `TranscriptPersistFailed`.
pub proof fn law_refused_write_fails(
    session_id: u128,
    user_id: u128,
    request: FinalizeRequestView,
    world: FinalizeWorld,
)
    requires
        owned(world.session, user_id),
        request.transcript.len() > 0,
    ensures
        world.update is Err ==> finalize_run(session_id, user_id, request, world).outcome == Err::<
            FinalizeResponseView,
            ServiceError,
        >(ServiceError::FinalizeUpdateFailed) && !writes_transcript(
            finalize_run(session_id, user_id, request, world),
        ),
        world.update is Ok && world.upsert is Err && must_persist(world.stored, request.transcript)
            ==> finalize_run(session_id, user_id, request, world).outcome == Err::<
            FinalizeResponseView,
            ServiceError,
        >(ServiceError::TranscriptPersistFailed),
{
}

/// With nothing submitted and nothing stored, a recording is transcribed:
/// the first effect asks the provider for the recording that the rules
/// give, with the submitted length as the hint. What the provider returns
/// becomes the transcript of the record and is written to the store, unless
/// the stored transcript is finalized and holds just that. Where the
/// provider fails, the finalize ends with `TranscriptionFailed` and nothing
/// is written.
pub proof fn law_recording_is_transcribed(
    session_id: u128,
    user_id: u128,
    request: FinalizeRequestView,
    world: FinalizeWorld,
)
    requires
        owned(world.session, user_id),
        request.transcript.len() == 0,
        stored_segments(world.stored).len() == 0,
        effective_audio_url(request.audio_url, world.recording) is Some,
    ensures
        finalize_run(session_id, user_id, request, world).effects.len() >= 1,
        finalize_run(session_id, user_id, request, world).effects[0] == (FinalizeEffect::Transcribe {
            audio_url: effective_audio_url(request.audio_url, world.recording)->0,
            duration_hint: request.duration_seconds,
        }),
        world.transcription is Err ==> finalize_run(session_id, user_id, request, world).outcome
            == Err::<FinalizeResponseView, ServiceError>(ServiceError::TranscriptionFailed)
            && finalize_run(session_id, user_id, request, world).effects.len() == 1,
        world.transcription is Ok && world.update is Ok && world.upsert is Ok ==> finalize_run(
            session_id,
            user_id,
            request,
            world,
        ).outcome is Ok && finalize_run(session_id, user_id, request, world).outcome->Ok_0.transcript
            == world.transcription->Ok_0,
        world.transcription is Ok && world.update is Ok && must_persist(
            world.stored,
            world.transcription->Ok_0,
        ) ==> finalize_run(session_id, user_id, request, world).effects.last()
            == (FinalizeEffect::TranscriptUpsert {
            session_id,
            segments: world.transcription->Ok_0,
        }),
{
}

/// A finalized transcript with unchanged content is not written again: where
/// the stored transcript is finalized and the caller submits the same
/// segments, or none, the finalize neither writes the transcript nor asks
/// the provider, and its record holds the stored segments.
pub proof fn law_unchanged_transcript_is_not_rewritten(
    session_id: u128,
    user_id: u128,
    request: FinalizeRequestView,
    world: FinalizeWorld,
    content: Seq<SegmentView>,
)
    requires
        owned(world.session, user_id),
        content.len() > 0,
        world.stored matches Some(existing) && existing.finalized && existing.segments == Some(
            content,
        ),
        request.transcript == content || request.transcript.len() == 0,
    ensures
        !writes_transcript(finalize_run(session_id, user_id, request, world)),
        !asks_provider(finalize_run(session_id, user_id, request, world)),
        world.update is Ok ==> finalize_run(session_id, user_id, request, world).outcome is Ok
            && finalize_run(session_id, user_id, request, world).outcome->Ok_0.transcript == content,
{
}

/// Finalize is idempotent: after a finalize that went through with a
/// transcript that is not empty, the same request on the store as that
/// finalize left it (the session with the status, length and an end as
/// written, the transcript finalized with the segments of the record, the
/// recording as before) ends with the same record, writes no transcript and
/// asks the provider for nothing.
pub proof fn law_repeated_finalize_is_stable(
    session_id: u128,
    user_id: u128,
    request: FinalizeRequestView,
    first: FinalizeWorld,
    second: FinalizeWorld,
)
    requires
        finalize_run(session_id, user_id, request, first).outcome matches Ok(record)
            && record.transcript.len() > 0 && (second.session matches Ok(session)
            && session.user_id == user_id && session.status == record.status
            && session.duration_seconds == record.duration_seconds && session.end_time is Some)
            && (second.stored matches Some(transcript) && transcript.finalized
            && transcript.segments == Some(record.transcript)),
        second.recording == first.recording,
        second.update is Ok,
    ensures
        finalize_run(session_id, user_id, request, second).outcome == finalize_run(
            session_id,
            user_id,
            request,
            first,
        ).outcome,
        !writes_transcript(finalize_run(session_id, user_id, request, second)),
        !asks_provider(finalize_run(session_id, user_id, request, second)),
{
}

/// A settled session is not regressed: whatever status and length the
/// caller submits, every update that a finalize writes to a session whose
/// status is not `active` carries the status of the session, and the end of
/// the session where it has one; and the record carries that status.
pub proof fn law_settled_session_is_not_regressed(
    session_id: u128,
    user_id: u128,
    request: FinalizeRequestView,
    world: FinalizeWorld,
)
    requires
        world.session matches Ok(session) && session.user_id == user_id && session.settled(),
    ensures
        forall|i: int|
            0 <= i < finalize_run(session_id, user_id, request, world).effects.len() ==> (
            #[trigger] finalize_run(session_id, user_id, request, world).effects[i]
                matches FinalizeEffect::SessionUpdate { update, .. } ==> update.status
                == world.session->Ok_0.status && (world.session->Ok_0.end_time matches Some(end)
                ==> update.end_time == end)),
        finalize_run(session_id, user_id, request, world).outcome is Ok ==> finalize_run(
            session_id,
            user_id,
            request,
            world,
        ).outcome->Ok_0.status == world.session->Ok_0.status,
{
}

/// An end that is set is never set again: every update that a finalize
/// writes to a session that has an end carries that end.
pub proof fn law_end_time_is_kept(
    session_id: u128,
    user_id: u128,
    request: FinalizeRequestView,
    world: FinalizeWorld,
)
    requires
        world.session matches Ok(session) && session.user_id == user_id && session.end_time is Some,
    ensures
        forall|i: int|
            0 <= i < finalize_run(session_id, user_id, request, world).effects.len() ==> (
            #[trigger] finalize_run(session_id, user_id, request, world).effects[i]
                matches FinalizeEffect::SessionUpdate { update, .. } ==> update.end_time
                == world.session->Ok_0.end_time->0),
{
}

/// A finalize asks for at most three things, each at most once and in this
/// order: the transcription, the update of the session, the write of the
/// transcript. The transcript is only written after the session was
/// updated.
pub proof fn law_effects_come_in_order(
    session_id: u128,
    user_id: u128,
    request: FinalizeRequestView,
    world: FinalizeWorld,
)
    ensures
        ({
            let effects = finalize_run(session_id, user_id, request, world).effects;
            &&& effects.len() <= 3
            &&& forall|i: int|
                0 <= i < effects.len() && #[trigger] effects[i] is Transcribe ==> i == 0
            &&& forall|i: int|
                0 <= i < effects.len() && #[trigger] effects[i] is SessionUpdate ==> i == 0 || (i
                    == 1 && effects[0] is Transcribe)
            &&& forall|i: int|
                0 <= i < effects.len() && #[trigger] effects[i] is TranscriptUpsert ==> i >= 1
                    && i == effects.len() - 1 && effects[i - 1] is SessionUpdate
        }),
{
}

/// Every failure of a finalize is reported, and nothing else is: the log of
/// a finalize that fails holds one entry, a failure about the session; the
/// log of one that goes through is empty.
pub proof fn law_failure_is_reported(
    session_id: u128,
    user_id: u128,
    request: FinalizeRequestView,
    world: FinalizeWorld,
)
    ensures
        ({
            let run = finalize_run(session_id, user_id, request, world);
            &&& run.outcome is Ok ==> run.log.len() == 0
            &&& run.outcome is Err ==> run.log.len() == 1 && run.log[0].kind == LogKind::Failure
                && run.log[0].session_id == Some(id_text(session_id))
        }),
{
}

/// What a finalize writes is what its record holds: in a finalize that goes
/// through, the update of the session carries the status and the length of
/// the record, and a write of the transcript carries its segments, under the
/// session of the request.
pub proof fn law_record_is_what_was_written(
    session_id: u128,
    user_id: u128,
    request: FinalizeRequestView,
    world: FinalizeWorld,
)
    requires
        finalize_run(session_id, user_id, request, world).outcome is Ok,
    ensures
        ({
            let run = finalize_run(session_id, user_id, request, world);
            let record = run.outcome->Ok_0;
            &&& record.session_id == session_id
            &&& forall|i: int|
                0 <= i < run.effects.len() ==> (#[trigger] run.effects[i]
                    matches FinalizeEffect::SessionUpdate { session_id: written, update }
                    ==> written == session_id && update.status == record.status
                    && update.duration_seconds == record.duration_seconds)
            &&& forall|i: int|
                0 <= i < run.effects.len() ==> (#[trigger] run.effects[i]
                    matches FinalizeEffect::TranscriptUpsert { session_id: written, segments }
                    ==> written == session_id && segments == record.transcript)
        }),
{
}

} // verus!
