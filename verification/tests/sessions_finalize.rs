use backend::api::finalize::{
    finalize_session, needs_write, resolve_audio_url, resolve_duration, resolve_status,
    resolve_transcript, AfterRecords, AfterSession, AfterTranscription, AfterUpdate, AfterUpsert,
    FinalizeRequest, FinalizeResponse,
};
use backend::error::ServiceError;
use backend::models::audio_recording::AudioRecording;
use backend::models::session::{FinalizeSession, Session};
use backend::models::transcript::{clone_segments, same_segments, Transcript, TranscriptSegment};
use backend::telemetry::{Event, LogEntry, LogKind};
use backend::time::Timestamp;

const USER: u128 = 11;
const OTHER: u128 = 12;
const SESSION: u128 = 0x10;

struct Store {
    session: Option<Session>,
    transcript: Option<Transcript>,
    recording: Option<AudioRecording>,
    provider: Result<Vec<TranscriptSegment>, String>,
    refuse_update: bool,
    refuse_upsert: bool,
    transcriptions: Vec<(String, Option<i32>)>,
    updates: u32,
    upserts: u32,
    log: Vec<LogEntry>,
}

fn at(secs: i64) -> Timestamp {
    Timestamp::new(secs, 0)
}

fn segment(speaker: &str, text: &str, start_ms: i64, end_ms: i64) -> TranscriptSegment {
    TranscriptSegment { speaker: speaker.to_string(), text: text.to_string(), start_ms, end_ms }
}

fn hi() -> Vec<TranscriptSegment> {
    vec![segment("user", "hi", 0, 500)]
}

fn session(status: &str, end_time: Option<Timestamp>, duration: Option<i32>) -> Session {
    Session {
        id: SESSION,
        user_id: USER,
        topic_id: 3,
        start_time: at(100),
        end_time,
        duration_seconds: duration,
        status: status.to_string(),
        privacy: "private".to_string(),
        created_at: at(100),
        updated_at: at(100),
    }
}

fn store(status: &str) -> Store {
    Store {
        session: Some(session(status, None, None)),
        transcript: None,
        recording: None,
        provider: Err("provider not reachable".to_string()),
        refuse_update: false,
        refuse_upsert: false,
        transcriptions: Vec::new(),
        updates: 0,
        upserts: 0,
        log: Vec::new(),
    }
}

fn recording(url: &str) -> AudioRecording {
    AudioRecording {
        id: 5,
        session_id: SESSION,
        storage_url: url.to_string(),
        duration_seconds: Some(5),
        mime_type: Some("audio/webm".to_string()),
        size_bytes: None,
        quality_status: None,
        created_at: at(150),
    }
}

fn stored(finalized: bool, segments: Option<Vec<TranscriptSegment>>) -> Transcript {
    Transcript { id: 9, session_id: SESSION, finalized, segments, created_at: at(160) }
}

fn request(
    transcript: Vec<TranscriptSegment>,
    status: &str,
    duration: Option<i32>,
    audio_url: Option<&str>,
) -> FinalizeRequest {
    FinalizeRequest {
        transcript,
        status: status.to_string(),
        duration_seconds: duration,
        audio_url: audio_url.map(|u| u.to_string()),
    }
}

fn apply_update(store: &mut Store, update: FinalizeSession) -> Result<(), String> {
    if store.refuse_update {
        return Err("update refused".to_string());
    }
    store.updates += 1;
    if let Some(session) = store.session.as_mut() {
        session.end_time = Some(update.end_time);
        session.duration_seconds = update.duration_seconds;
        session.status = update.status;
    }
    Ok(())
}

fn apply_upsert(store: &mut Store, segments: Vec<TranscriptSegment>) -> Result<(), String> {
    if store.refuse_upsert {
        return Err("upsert refused".to_string());
    }
    store.upserts += 1;
    store.transcript = Some(stored(true, Some(segments)));
    Ok(())
}

/// Runs one finalize against the store; `now` is the instant of the run, or
/// the clock where it is `None`.
fn finalize(
    store: &mut Store,
    user: u128,
    request: FinalizeRequest,
    now: Option<Timestamp>,
) -> Result<FinalizeResponse, ServiceError> {
    let pending = finalize_session(SESSION, user, request);
    let found = match &store.session {
        Some(session) => Ok(session.clone()),
        None => Err("RowNotFound".to_string()),
    };
    let load = match pending.on_session(found) {
        AfterSession::Rejected { error, log } => {
            store.log.push(log);
            return Err(error);
        }
        AfterSession::Load { load } => load,
    };
    let resolved = match load.on_records(store.transcript.clone(), store.recording.clone()) {
        AfterRecords::Rejected { error, log } => {
            store.log.push(log);
            return Err(error);
        }
        AfterRecords::Transcribe { audio_url, duration_hint, transcribe } => {
            store.transcriptions.push((audio_url, duration_hint));
            let answer = match &store.provider {
                Ok(segments) => Ok(clone_segments(segments)),
                Err(reason) => Err(reason.clone()),
            };
            match transcribe.on_transcribed(answer) {
                AfterTranscription::Failed { error, log } => {
                    store.log.push(log);
                    return Err(error);
                }
                AfterTranscription::Resolved { resolved } => resolved,
            }
        }
        AfterRecords::Resolved { resolved } => resolved,
    };
    let (update, waiting) = match now {
        Some(now) => resolved.start_at(now),
        None => resolved.start(),
    };
    match waiting.on_updated(apply_update(store, update)) {
        AfterUpdate::Failed { error, log } => {
            store.log.push(log);
            Err(error)
        }
        AfterUpdate::Done { response } => Ok(response),
        AfterUpdate::Upsert { segments, upsert } => {
            match upsert.on_upserted(apply_upsert(store, segments)) {
                AfterUpsert::Done { response } => Ok(response),
                AfterUpsert::Failed { error, log } => {
                    store.log.push(log);
                    Err(error)
                }
            }
        }
    }
}

#[test]
fn finalize_with_explicit_transcript_seals_the_session() {
    let mut store = store("active");
    let record = finalize(&mut store, USER, request(hi(), "ended", None, None), Some(at(900)))
        .unwrap();
    assert_eq!(
        record,
        FinalizeResponse {
            session_id: SESSION,
            status: "ended".to_string(),
            transcript: hi(),
            audio_url: None,
            duration_seconds: None,
        }
    );
    let transcript = store.transcript.as_ref().unwrap();
    assert!(transcript.finalized);
    assert_eq!(transcript.segments, Some(hi()));
    let session = store.session.as_ref().unwrap();
    assert_eq!(session.status, "ended");
    assert_eq!(session.end_time, Some(at(900)));
    assert_eq!(store.updates, 1);
    assert_eq!(store.upserts, 1);
    assert!(store.transcriptions.is_empty());
    assert!(store.log.is_empty());
}

#[test]
fn finalize_reads_the_clock_for_the_end() {
    let mut store = store("active");
    let before = std::time::SystemTime::now()
        .duration_since(std::time::UNIX_EPOCH)
        .unwrap()
        .as_secs() as i64;
    finalize(&mut store, USER, request(hi(), "ended", None, None), None).unwrap();
    let end = store.session.as_ref().unwrap().end_time.unwrap();
    assert!(end.secs >= before && end.secs <= before + 5);
}

#[test]
fn finalize_keeps_the_order_of_segments() {
    let mut store = store("active");
    let segments = vec![
        segment("user", "one", 0, 10),
        segment("coach", "two", 10, 20),
        segment("user", "one", 20, 30),
    ];
    let record = finalize(
        &mut store,
        USER,
        request(clone_segments(&segments), "ended", Some(3), None),
        Some(at(900)),
    )
    .unwrap();
    assert_eq!(record.transcript, segments);
    assert_eq!(store.transcript.unwrap().segments, Some(segments));
}

#[test]
fn finalize_twice_writes_the_transcript_once() {
    let mut store = store("active");
    let first = finalize(&mut store, USER, request(hi(), "ended", Some(40), None), Some(at(900)))
        .unwrap();
    let second = finalize(&mut store, USER, request(hi(), "ended", Some(40), None), Some(at(950)))
        .unwrap();
    assert_eq!(first, second);
    assert_eq!(store.upserts, 1);
    assert_eq!(store.updates, 2);
    let session = store.session.as_ref().unwrap();
    assert_eq!(session.end_time, Some(at(900)));
    assert_eq!(session.status, "ended");
    assert_eq!(session.duration_seconds, Some(40));
}

#[test]
fn finalize_again_with_nothing_submitted_uses_the_stored_transcript() {
    let mut store = store("active");
    let first = finalize(&mut store, USER, request(hi(), "ended", None, None), Some(at(900)))
        .unwrap();
    let second = finalize(&mut store, USER, request(Vec::new(), "ended", None, None), Some(at(950)))
        .unwrap();
    assert_eq!(second.transcript, first.transcript);
    assert_eq!(store.upserts, 1);
    assert!(store.transcriptions.is_empty());
}

#[test]
fn changed_transcript_is_written_again() {
    let mut store = store("active");
    finalize(&mut store, USER, request(hi(), "ended", None, None), Some(at(900))).unwrap();
    let other = vec![segment("user", "hi there", 0, 500)];
    let record = finalize(
        &mut store,
        USER,
        request(clone_segments(&other), "ended", None, None),
        Some(at(950)),
    )
    .unwrap();
    assert_eq!(record.transcript, other);
    assert_eq!(store.upserts, 2);
    assert_eq!(store.transcript.unwrap().segments, Some(other));
}

#[test]
fn unfinalized_transcript_is_written_even_if_equal() {
    let mut store = store("active");
    store.transcript = Some(stored(false, Some(hi())));
    finalize(&mut store, USER, request(hi(), "ended", None, None), Some(at(900))).unwrap();
    assert_eq!(store.upserts, 1);
    assert!(store.transcript.unwrap().finalized);
}

#[test]
fn settled_session_is_not_regressed() {
    let mut store = store("active");
    finalize(&mut store, USER, request(hi(), "ended", Some(40), None), Some(at(900))).unwrap();
    let record = finalize(
        &mut store,
        USER,
        request(hi(), "abandoned", Some(99), None),
        Some(at(2_000)),
    )
    .unwrap();
    assert_eq!(record.status, "ended");
    assert_eq!(record.duration_seconds, Some(40));
    let session = store.session.as_ref().unwrap();
    assert_eq!(session.status, "ended");
    assert_eq!(session.end_time, Some(at(900)));
    assert_eq!(session.duration_seconds, Some(40));
}

#[test]
fn settled_session_without_end_gets_one_and_keeps_its_status() {
    let mut store = store("recovering");
    let record = finalize(&mut store, USER, request(hi(), "ended", Some(12), None), Some(at(900)))
        .unwrap();
    assert_eq!(record.status, "recovering");
    assert_eq!(record.duration_seconds, Some(12));
    let session = store.session.as_ref().unwrap();
    assert_eq!(session.status, "recovering");
    assert_eq!(session.end_time, Some(at(900)));
}

#[test]
fn stored_duration_wins_over_the_submitted_one() {
    let mut store = store("active");
    store.session = Some(session("active", None, Some(77)));
    let record = finalize(&mut store, USER, request(hi(), "ended", Some(12), None), Some(at(900)))
        .unwrap();
    assert_eq!(record.duration_seconds, Some(77));
    assert_eq!(store.session.unwrap().duration_seconds, Some(77));
}

#[test]
fn missing_session_is_not_found() {
    let mut store = store("active");
    store.session = None;
    let outcome = finalize(&mut store, USER, request(hi(), "ended", None, None), Some(at(900)));
    assert_eq!(outcome, Err(ServiceError::NotFound));
    assert_eq!(store.updates + store.upserts, 0);
    assert_eq!(store.log.len(), 1);
    assert_eq!(store.log[0].kind, LogKind::Failure);
    assert_eq!(store.log[0].event, Event::FinalizeSessionMissing);
    assert_eq!(store.log[0].detail, "session missing: RowNotFound");
    assert_eq!(
        store.log[0].session_id.as_deref(),
        Some("00000000-0000-0000-0000-000000000010")
    );
}

#[test]
fn foreign_session_is_forbidden_and_nothing_is_written() {
    let mut store = store("active");
    store.recording = Some(recording("http://example.com/audio.webm"));
    let outcome =
        finalize(&mut store, OTHER, request(hi(), "ended", None, None), Some(at(900)));
    assert_eq!(outcome, Err(ServiceError::Forbidden));
    assert_eq!(store.updates + store.upserts, 0);
    assert!(store.transcriptions.is_empty());
    assert!(store.transcript.is_none());
    assert_eq!(store.session.as_ref().unwrap().status, "active");
    assert_eq!(store.log[0].event, Event::FinalizeForbidden);
    assert_eq!(store.log[0].detail, "user mismatch");
}

#[test]
fn nothing_to_transcribe_is_missing_source() {
    let mut store = store("active");
    let outcome =
        finalize(&mut store, USER, request(Vec::new(), "ended", None, None), Some(at(900)));
    assert_eq!(outcome, Err(ServiceError::MissingTranscriptSource));
    assert_eq!(store.updates + store.upserts, 0);
    assert!(store.transcriptions.is_empty());
    assert_eq!(store.session.as_ref().unwrap().status, "active");
    assert_eq!(store.session.as_ref().unwrap().end_time, None);
    assert_eq!(store.log[0].kind, LogKind::Failure);
    assert_eq!(store.log[0].event, Event::FinalizeMissingTranscript);
    assert_eq!(store.log[0].detail, "no transcript and no audio_url provided");
}

#[test]
fn unreadable_stored_transcript_counts_as_none() {
    let mut store = store("active");
    store.transcript = Some(stored(true, None));
    let outcome =
        finalize(&mut store, USER, request(Vec::new(), "ended", None, None), Some(at(900)));
    assert_eq!(outcome, Err(ServiceError::MissingTranscriptSource));
}

#[test]
fn stored_recording_is_transcribed_and_persisted() {
    let mut store = store("active");
    store.recording = Some(recording("http://example.com/audio.webm"));
    let spoken = vec![segment("user", "hello history", 0, 1000)];
    store.provider = Ok(clone_segments(&spoken));
    let record = finalize(
        &mut store,
        USER,
        request(Vec::new(), "ended", Some(8), None),
        Some(at(900)),
    )
    .unwrap();
    assert_eq!(
        store.transcriptions,
        vec![("http://example.com/audio.webm".to_string(), Some(8))]
    );
    assert_eq!(record.transcript, spoken);
    assert_eq!(record.audio_url.as_deref(), Some("http://example.com/audio.webm"));
    assert_eq!(store.upserts, 1);
    let transcript = store.transcript.unwrap();
    assert!(transcript.finalized);
    assert_eq!(transcript.segments, Some(spoken));
}

#[test]
fn submitted_recording_wins_over_the_stored_one() {
    let mut store = store("active");
    store.recording = Some(recording("http://example.com/stored.webm"));
    store.provider = Ok(hi());
    let record = finalize(
        &mut store,
        USER,
        request(Vec::new(), "ended", None, Some("http://example.com/sent.webm")),
        Some(at(900)),
    )
    .unwrap();
    assert_eq!(store.transcriptions, vec![("http://example.com/sent.webm".to_string(), None)]);
    assert_eq!(record.audio_url.as_deref(), Some("http://example.com/sent.webm"));
}

#[test]
fn failed_transcription_ends_the_finalize_without_writes() {
    let mut store = store("active");
    store.recording = Some(recording("http://example.com/audio.webm"));
    let outcome =
        finalize(&mut store, USER, request(Vec::new(), "ended", None, None), Some(at(900)));
    assert_eq!(outcome, Err(ServiceError::TranscriptionFailed));
    assert_eq!(store.transcriptions.len(), 1);
    assert_eq!(store.updates + store.upserts, 0);
    assert_eq!(store.log[0].event, Event::FinalizeTranscriptionFailed);
    assert_eq!(store.log[0].detail, "provider not reachable");
}

#[test]
fn refused_update_is_finalize_update_failed() {
    let mut store = store("active");
    store.refuse_update = true;
    let outcome = finalize(&mut store, USER, request(hi(), "ended", None, None), Some(at(900)));
    assert_eq!(outcome, Err(ServiceError::FinalizeUpdateFailed));
    assert_eq!(store.upserts, 0);
    assert_eq!(store.log[0].event, Event::FinalizeUpdateFailed);
    assert_eq!(store.log[0].detail, "finalize failed: update refused");
}

#[test]
fn refused_upsert_is_transcript_persist_failed() {
    let mut store = store("active");
    store.refuse_upsert = true;
    let outcome = finalize(&mut store, USER, request(hi(), "ended", None, None), Some(at(900)));
    assert_eq!(outcome, Err(ServiceError::TranscriptPersistFailed));
    assert_eq!(store.updates, 1);
    assert_eq!(store.log[0].event, Event::FinalizeTranscriptPersistFailed);
    assert_eq!(store.log[0].detail, "upsert refused");
}

#[test]
fn resolve_transcript_prefers_submitted_then_stored() {
    let kept = Some(stored(true, Some(vec![segment("user", "stored", 0, 1)])));
    assert_eq!(resolve_transcript(hi(), &kept), hi());
    assert_eq!(resolve_transcript(Vec::new(), &kept), vec![segment("user", "stored", 0, 1)]);
    assert_eq!(resolve_transcript(Vec::new(), &None), Vec::new());
    assert_eq!(resolve_transcript(Vec::new(), &Some(stored(true, None))), Vec::new());
}

#[test]
fn resolve_audio_url_prefers_submitted_then_stored() {
    let kept = Some(recording("http://example.com/stored.webm"));
    assert_eq!(
        resolve_audio_url(Some("http://example.com/sent.webm".to_string()), &kept).as_deref(),
        Some("http://example.com/sent.webm")
    );
    assert_eq!(resolve_audio_url(None, &kept).as_deref(), Some("http://example.com/stored.webm"));
    assert_eq!(resolve_audio_url(None, &None), None);
}

#[test]
fn resolve_status_and_duration_follow_the_session() {
    assert_eq!(resolve_status(&session("active", None, None), "ended".to_string()), "ended");
    assert_eq!(resolve_status(&session("ended", None, None), "active".to_string()), "ended");
    assert_eq!(resolve_status(&session("Active", None, None), "ended".to_string()), "Active");
    assert_eq!(resolve_duration(&session("active", None, Some(5)), Some(9)), Some(5));
    assert_eq!(resolve_duration(&session("active", None, None), Some(9)), Some(9));
    assert_eq!(resolve_duration(&session("active", None, None), None), None);
}

#[test]
fn needs_write_only_skips_equal_finalized_content() {
    assert!(needs_write(&None, &hi()));
    assert!(!needs_write(&Some(stored(true, Some(hi()))), &hi()));
    assert!(needs_write(&Some(stored(false, Some(hi()))), &hi()));
    assert!(needs_write(&Some(stored(true, None)), &hi()));
    assert!(needs_write(&Some(stored(true, Some(hi()))), &vec![segment("user", "hi", 0, 501)]));
    assert!(needs_write(&Some(stored(true, Some(hi()))), &Vec::new()));
    assert!(!needs_write(&Some(stored(true, Some(Vec::new()))), &Vec::new()));
}

#[test]
fn same_segments_compares_every_field_in_order() {
    let a = vec![segment("user", "a", 0, 1), segment("user", "b", 1, 2)];
    let b = vec![segment("user", "b", 1, 2), segment("user", "a", 0, 1)];
    assert!(same_segments(&a, &clone_segments(&a)));
    assert!(!same_segments(&a, &b));
    assert!(!same_segments(&a, &vec![segment("user", "a", 0, 1)]));
    assert!(!same_segments(&hi(), &vec![segment("coach", "hi", 0, 500)]));
    assert!(!same_segments(&hi(), &vec![segment("user", "hi", 1, 500)]));
    assert!(segment("user", "hi", 0, 500).same_as(&segment("user", "hi", 0, 500)));
    assert_eq!(hi()[0].clone(), hi()[0]);
}
