use backend::api::health::health;
use backend::api::realtime::{IssuedSecret, RealtimeSessionResponse};
use backend::api::upload::{classify, on_recorded, upload_audio, FieldKind, UploadError};
use backend::auth::CurrentUser;
use backend::error::ServiceError;
use backend::models::topic::NewTopic;
use backend::services::history::{deletion_outcome, detail_transcript, HistoryError};
use backend::services::sessions::{create_session, finalize_session};
use backend::services::storage::{KeyError, SettingsError, StorageEnv, StorageService};
use backend::services::text::{chars_of, find_first, run_from, same_text, stands_at, trimmed_len};
use backend::services::transcription::{segments_from_response, TimedText};
use backend::models::transcript::TranscriptSegment;
use backend::telemetry::{log_failure, log_recovery, Event, LogKind};
use backend::time::Timestamp;

fn service_at(bucket: &str, endpoint: &str) -> StorageService {
    StorageService {
        bucket: bucket.to_string(),
        endpoint: endpoint.to_string(),
        region: "us-east-1".to_string(),
        access_key: "test".to_string(),
        secret_key: "test".to_string(),
    }
}

fn service() -> StorageService {
    service_at("test-bucket", "http://localhost:9000")
}

fn env() -> StorageEnv {
    StorageEnv {
        s3_bucket: Some("recordings".to_string()),
        s3_endpoint: None,
        aws_region: None,
        s3_access_key: None,
        aws_access_key_id: None,
        s3_secret_key: None,
        aws_secret_access_key: None,
    }
}

#[test]
fn object_url_joins_endpoint_bucket_and_key() {
    assert_eq!(
        service().object_url("sessions/1/audio.webm"),
        "http://localhost:9000/test-bucket/sessions/1/audio.webm"
    );
}

#[test]
fn object_url_trims_slashes_at_the_end_of_the_endpoint() {
    let service = service_at("b", "http://host///");
    assert_eq!(service.object_url("k"), "http://host/b/k");
    let bare = service_at("b", "//");
    assert_eq!(bare.object_url("k"), "/b/k");
}

#[test]
fn key_from_url_takes_what_follows_the_bucket() {
    assert_eq!(
        service().key_from_url("http://localhost:9000/test-bucket/sessions/1/audio.webm"),
        Ok("sessions/1/audio.webm".to_string())
    );
    assert_eq!(
        service().key_from_url("http://localhost:9000/test-bucket///a/b"),
        Ok("a/b".to_string())
    );
    assert_eq!(service().key_from_url("test-bucketkey"), Ok("key".to_string()));
}

#[test]
fn key_from_url_uses_the_first_occurrence_of_the_bucket() {
    assert_eq!(
        service().key_from_url("http://test-bucket.example.com/test-bucket/k"),
        Ok(".example.com/test-bucket/k".to_string())
    );
}

#[test]
fn key_from_url_round_trips_object_url() {
    let url = service().object_url("sessions/abc/take 1.webm");
    assert_eq!(service().key_from_url(&url), Ok("sessions/abc/take 1.webm".to_string()));
}

#[test]
fn key_from_url_handles_text_beyond_ascii() {
    let service = service_at("bücket", "e");
    assert_eq!(service.key_from_url("http://hôst/bücket/clé.webm"), Ok("clé.webm".to_string()));
}

#[test]
fn key_from_url_fails_without_the_bucket() {
    assert_eq!(
        service().key_from_url("http://localhost:9000/other/audio.webm"),
        Err(KeyError::BucketMissing)
    );
    assert_eq!(service().key_from_url(""), Err(KeyError::BucketMissing));
    assert_eq!(
        KeyError::BucketMissing.message("http://x"),
        "url does not contain bucket name: http://x"
    );
}

#[test]
fn key_from_url_fails_without_a_key() {
    assert_eq!(
        service().key_from_url("http://localhost:9000/test-bucket"),
        Err(KeyError::EmptyKey)
    );
    assert_eq!(
        service().key_from_url("http://localhost:9000/test-bucket///"),
        Err(KeyError::EmptyKey)
    );
    assert_eq!(KeyError::EmptyKey.message("http://x"), "could not parse key from url: http://x");
}

#[test]
fn text_search_and_trim() {
    let hay = chars_of("abcabc");
    assert_eq!(hay, vec!['a', 'b', 'c', 'a', 'b', 'c']);
    assert_eq!(find_first(&hay, &chars_of("bc")), Some(1));
    assert_eq!(find_first(&hay, &chars_of("")), Some(0));
    assert_eq!(find_first(&hay, &chars_of("abcabc")), Some(0));
    assert_eq!(find_first(&hay, &chars_of("cb")), None);
    assert_eq!(find_first(&hay, &chars_of("abcabca")), None);
    assert_eq!(find_first(&chars_of(""), &chars_of("")), Some(0));
    assert!(stands_at(&hay, &chars_of("cab"), 2));
    assert!(!stands_at(&hay, &chars_of("cab"), 1));
    assert!(!stands_at(&hay, &chars_of("cab"), 4));
    assert!(!stands_at(&hay, &chars_of("c"), 6));
    assert!(!stands_at(&hay, &chars_of(""), 7));
    assert!(stands_at(&hay, &chars_of(""), 6));
    assert_eq!(run_from(&chars_of("a//b"), 9, '/'), 9);
    assert_eq!(run_from(&chars_of("a//b"), 1, '/'), 3);
    assert_eq!(run_from(&chars_of("a//"), 1, '/'), 3);
    assert_eq!(run_from(&chars_of("a//b"), 0, '/'), 0);
    assert_eq!(trimmed_len(&chars_of("ab//"), '/'), 2);
    assert_eq!(trimmed_len(&chars_of("//"), '/'), 0);
    assert_eq!(trimmed_len(&chars_of("a/b"), '/'), 3);
    assert!(same_text("file", "file"));
    assert!(!same_text("file", "File"));
}

#[test]
fn settings_use_defaults_and_service_keys() {
    let mut given = env();
    given.s3_access_key = Some("service-access".to_string());
    given.aws_access_key_id = Some("provider-access".to_string());
    given.s3_secret_key = Some("service-secret".to_string());
    let settings = StorageService::from_env(given).unwrap();
    assert_eq!(settings.bucket, "recordings");
    assert_eq!(settings.endpoint, "http://localhost:9000");
    assert_eq!(settings.region, "us-east-1");
    assert_eq!(settings.access_key, "service-access");
    assert_eq!(settings.secret_key, "service-secret");
}

#[test]
fn settings_fall_back_to_provider_keys() {
    let mut given = env();
    given.s3_endpoint = Some("https://s3.example.com".to_string());
    given.aws_region = Some("eu-west-1".to_string());
    given.aws_access_key_id = Some("provider-access".to_string());
    given.aws_secret_access_key = Some("provider-secret".to_string());
    let settings = StorageService::from_env(given).unwrap();
    assert_eq!(settings.endpoint, "https://s3.example.com");
    assert_eq!(settings.region, "eu-west-1");
    assert_eq!(settings.access_key, "provider-access");
    assert_eq!(settings.secret_key, "provider-secret");
}

#[test]
fn settings_report_the_first_missing_variable() {
    let mut given = env();
    given.s3_bucket = None;
    assert_eq!(StorageService::from_env(given), Err(SettingsError::BucketMissing));
    assert_eq!(StorageService::from_env(env()), Err(SettingsError::AccessKeyMissing));
    let mut given = env();
    given.s3_access_key = Some("a".to_string());
    assert_eq!(StorageService::from_env(given), Err(SettingsError::SecretKeyMissing));
    assert_eq!(SettingsError::BucketMissing.message(), "S3_BUCKET missing");
    assert_eq!(SettingsError::AccessKeyMissing.message(), "S3_ACCESS_KEY missing");
    assert_eq!(SettingsError::SecretKeyMissing.message(), "S3_SECRET_KEY missing");
}

#[test]
fn timed_pieces_become_segments_of_the_user() {
    let pieces = vec![
        TimedText { text: "hello".to_string(), start_ms: 0, end_ms: 1200 },
        TimedText { text: "world".to_string(), start_ms: 1200, end_ms: 2500 },
    ];
    let segments = segments_from_response("hello world".to_string(), Some(pieces), Some(9));
    assert_eq!(
        segments,
        vec![
            TranscriptSegment {
                speaker: "user".to_string(),
                text: "hello".to_string(),
                start_ms: 0,
                end_ms: 1200
            },
            TranscriptSegment {
                speaker: "user".to_string(),
                text: "world".to_string(),
                start_ms: 1200,
                end_ms: 2500
            },
        ]
    );
    assert_eq!(segments_from_response("x".to_string(), Some(Vec::new()), Some(9)), Vec::new());
}

#[test]
fn untimed_text_becomes_one_segment_over_the_hinted_length() {
    let one = |duration: Option<i32>| segments_from_response("all of it".to_string(), None, duration);
    let expect = |end_ms: i64| {
        vec![TranscriptSegment {
            speaker: "user".to_string(),
            text: "all of it".to_string(),
            start_ms: 0,
            end_ms,
        }]
    };
    assert_eq!(one(Some(7)), expect(7000));
    assert_eq!(one(None), expect(0));
    assert_eq!(one(Some(-3)), expect(0));
    assert_eq!(one(Some(0)), expect(0));
    assert_eq!(one(Some(i32::MAX)), expect(2_147_483_647_000));
}

#[test]
fn history_outcomes() {
    assert_eq!(detail_transcript(None), Ok(Vec::new()));
    assert_eq!(detail_transcript(Some(None)), Err(HistoryError::TranscriptUnreadable));
    let segments = vec![TranscriptSegment {
        speaker: "user".to_string(),
        text: "hello history".to_string(),
        start_ms: 0,
        end_ms: 1000,
    }];
    let shown = detail_transcript(Some(Some(segments))).unwrap();
    assert_eq!(shown[0].text, "hello history");
    assert_eq!(deletion_outcome(1), Ok(()));
    assert_eq!(deletion_outcome(3), Ok(()));
    assert_eq!(deletion_outcome(0), Err(HistoryError::SessionNotFound));
    assert_eq!(HistoryError::SessionNotFound.message(), "session not found");
    assert_eq!(HistoryError::TranscriptUnreadable.message(), "parse transcript segments");
}

#[test]
fn new_session_is_active() {
    let session = create_session(4, 5);
    assert_eq!(session.user_id, 4);
    assert_eq!(session.topic_id, 5);
    assert_eq!(session.status, "active");
    let update = finalize_session(Timestamp::new(9, 1), Some(3), "ended");
    assert_eq!(update.end_time, Timestamp::new(9, 1));
    assert_eq!(update.duration_seconds, Some(3));
    assert_eq!(update.status, "ended");
}

#[test]
fn new_topic_holds_its_fields() {
    let topic = NewTopic {
        title: "Test Topic".to_string(),
        difficulty: Some("easy".to_string()),
        prompt_hint: Some("hint".to_string()),
    };
    assert_eq!(topic.title, "Test Topic");
    assert_eq!(topic.difficulty.as_deref(), Some("easy"));
    assert_eq!(topic.prompt_hint.as_deref(), Some("hint"));
}

#[test]
fn health_is_ok() {
    assert_eq!(health().status, "ok");
}

#[test]
fn user_from_header_reads_an_identifier() {
    let user = CurrentUser::from_header(Some("550e8400-e29b-41d4-a716-446655440000")).unwrap();
    assert_eq!(user, CurrentUser(0x550e8400_e29b_41d4_a716_446655440000));
    let simple = CurrentUser::from_header(Some("550e8400e29b41d4a716446655440000")).unwrap();
    assert_eq!(simple, user);
}

#[test]
fn user_from_header_reports_what_is_wrong() {
    let missing = CurrentUser::from_header(None).unwrap_err();
    assert_eq!(missing.0, "missing x-user-id header");
    assert_eq!(missing.to_text(), "missing x-user-id header");
    assert_eq!(missing.status_code(), 401);
    let invalid = CurrentUser::from_header(Some("not-a-uuid")).unwrap_err();
    assert_eq!(invalid.0, "invalid x-user-id");
    let invalid = CurrentUser::from_parsed(Some(None)).unwrap_err();
    assert_eq!(invalid.0, "invalid x-user-id");
    assert_eq!(CurrentUser::from_parsed(Some(Some(9))).unwrap(), CurrentUser(9));
}

#[test]
fn errors_map_to_their_status() {
    assert_eq!(ServiceError::NotFound.status_code(), 404);
    assert_eq!(ServiceError::Forbidden.status_code(), 403);
    assert_eq!(ServiceError::MissingTranscriptSource.status_code(), 400);
    assert_eq!(ServiceError::IssuanceFailed.status_code(), 400);
    assert_eq!(ServiceError::FinalizeUpdateFailed.status_code(), 400);
    assert_eq!(ServiceError::TranscriptPersistFailed.status_code(), 400);
    assert_eq!(ServiceError::TranscriptionFailed.status_code(), 400);
    assert_eq!(UploadError::NoContent.status_code(), 400);
    assert_eq!(UploadError::StorageFailed.status_code(), 500);
    assert_eq!(UploadError::RecordFailed.status_code(), 400);
}

#[test]
fn log_entries_carry_event_session_and_detail() {
    let failure = log_failure(Event::FinalizeUpdateFailed, Some(0xff), "boom");
    assert_eq!(failure.kind, LogKind::Failure);
    assert_eq!(failure.event.name(), "finalize_update_failed");
    assert_eq!(failure.session_id.as_deref(), Some("00000000-0000-0000-0000-0000000000ff"));
    assert_eq!(failure.detail, "boom");
    assert_eq!(failure.message(), "resilience_failure");
    let recovery = log_recovery(Event::ClientSecretIssued, None, "new_token");
    assert_eq!(recovery.kind, LogKind::Recovery);
    assert_eq!(recovery.session_id, None);
    assert_eq!(recovery.detail, "new_token");
    assert_eq!(recovery.message(), "resilience_recovery");
}

#[test]
fn event_names() {
    assert_eq!(Event::ClientSecretSessionMissing.name(), "client_secret_session_missing");
    assert_eq!(Event::ClientSecretForbidden.name(), "client_secret_forbidden");
    assert_eq!(
        Event::ClientSecretStatusUpdateFailed.name(),
        "client_secret_status_update_failed"
    );
    assert_eq!(Event::ClientSecretRefreshFailed.name(), "client_secret_refresh_failed");
    assert_eq!(Event::ClientSecretIssueFailed.name(), "client_secret_issue_failed");
    assert_eq!(Event::ClientSecretIssued.name(), "client_secret_issued");
    assert_eq!(Event::FinalizeSessionMissing.name(), "finalize_session_missing");
    assert_eq!(Event::FinalizeForbidden.name(), "finalize_forbidden");
    assert_eq!(Event::FinalizeTranscriptionFailed.name(), "finalize_transcription_failed");
    assert_eq!(Event::FinalizeMissingTranscript.name(), "finalize_missing_transcript");
    assert_eq!(Event::FinalizeUpdateFailed.name(), "finalize_update_failed");
    assert_eq!(
        Event::FinalizeTranscriptPersistFailed.name(),
        "finalize_transcript_persist_failed"
    );
}

#[test]
fn timestamps_compare_by_instant() {
    let a = Timestamp::new(10, 999_999_999);
    let b = Timestamp::new(11, 0);
    assert!(a.at_or_before(&b));
    assert!(!b.at_or_before(&a));
    assert!(a.at_or_before(&a));
    assert!(Timestamp::new(-1, 5).at_or_before(&Timestamp::new(0, 0)));
    assert!(!b.at_or_before_after(&a, 0));
    assert!(b.at_or_before_after(&a, 1));
    assert!(!Timestamp::new(41, 0).at_or_before_after(&a, 30));
    assert!(Timestamp::new(40, 999_999_999).at_or_before_after(&a, 30));
    assert!(Timestamp::new(i64::MAX, 0).at_or_before_after(&Timestamp::new(i64::MAX, 0), 30));
    assert!(!Timestamp::new(i64::MAX, 0).at_or_before_after(&Timestamp::new(i64::MIN, 0), 30));
}

#[test]
fn plus_seconds_adds_whole_seconds() {
    assert_eq!(Timestamp::new(100, 7).plus_seconds(600), Timestamp::new(700, 7));
    assert_eq!(Timestamp::new(-100, 7).plus_seconds(30), Timestamp::new(-70, 7));
    assert_eq!(Timestamp::new(i64::MAX - 5, 7).plus_seconds(600), Timestamp::new(i64::MAX, 7));
    assert_eq!(Timestamp::new(5, 0).plus_seconds(0), Timestamp::new(5, 0));
}

fn expiry_text(secs: i64, nanos: u32) -> Option<String> {
    let issued = IssuedSecret {
        token: "t".to_string(),
        expires_at: Timestamp::new(secs, nanos),
        reused: false,
    };
    RealtimeSessionResponse::new(1, issued).map(|response| response.expires_at)
}

#[test]
fn rfc3339_text_of_an_instant() {
    assert_eq!(expiry_text(0, 0).as_deref(), Some("1970-01-01T00:00:00+00:00"));
    assert_eq!(
        expiry_text(1_431_648_000, 500_000_000).as_deref(),
        Some("2015-05-15T00:00:00.500+00:00")
    );
    assert_eq!(expiry_text(-1, 999_999_999).as_deref(), Some("1969-12-31T23:59:59.999999999+00:00"));
    assert_eq!(expiry_text(i64::MIN, 0), None);
    assert_eq!(expiry_text(0, 2_000_000_000), None);
}

#[test]
fn upload_form_reads_its_parts() {
    assert_eq!(classify(Some("file")), FieldKind::File);
    assert_eq!(classify(Some("duration_seconds")), FieldKind::Duration);
    assert_eq!(classify(Some("other")), FieldKind::Ignored);
    assert_eq!(classify(Some("File")), FieldKind::Ignored);
    assert_eq!(classify(None), FieldKind::Ignored);

    let form = upload_audio(0x2a);
    assert_eq!(form.filename, "00000000-0000-0000-0000-00000000002a.webm");
    assert_eq!(form.content, None);
    let form = form
        .on_duration(Some("17"))
        .on_file(Some("take.webm".to_string()), Some("audio/webm".to_string()), Some(vec![1, 2, 3]));
    let upload = form.finish().unwrap();
    assert_eq!(upload.key, "sessions/00000000-0000-0000-0000-00000000002a/take.webm");
    assert_eq!(upload.bytes, vec![1, 2, 3]);
    assert_eq!(upload.mime.as_deref(), Some("audio/webm"));
    assert_eq!(upload.duration, Some(17));
    let record = upload.on_stored(Some("http://host/b/k".to_string())).unwrap();
    assert_eq!(record.session_id, 0x2a);
    assert_eq!(record.storage_url, "http://host/b/k");
    assert_eq!(record.duration_seconds, Some(17));
    assert_eq!(record.mime_type.as_deref(), Some("audio/webm"));
    assert_eq!(record.size_bytes, None);
    assert_eq!(record.quality_status, None);
}

#[test]
fn upload_form_defaults_and_overwrites() {
    let form = upload_audio(1).on_file(None, None, Some(vec![9]));
    assert_eq!(form.filename, "00000000-0000-0000-0000-000000000001.webm");
    assert_eq!(form.mime, None);
    let form = form.on_file(Some("a.webm".to_string()), Some("audio/webm".to_string()), Some(vec![8]));
    let form = form.on_file(None, None, Some(vec![7, 7]));
    assert_eq!(form.filename, "a.webm");
    assert_eq!(form.mime, None);
    assert_eq!(form.content, Some(vec![7, 7]));
    let form = form.on_duration(Some("12")).on_duration(Some("twelve"));
    assert_eq!(form.duration, None);
    let form = form.on_duration(Some("-4"));
    assert_eq!(form.duration, Some(-4));
    let form = form.on_duration(None);
    assert_eq!(form.duration, None);
    let form = form.on_duration_value(Some(3));
    assert_eq!(form.duration, Some(3));
    let form = form.on_duration(Some("2147483648"));
    assert_eq!(form.duration, None);
}

#[test]
fn upload_without_content_is_rejected() {
    assert_eq!(upload_audio(1).finish(), Err(UploadError::NoContent));
    assert_eq!(
        upload_audio(1).on_file(Some("a".to_string()), None, Some(Vec::new())).finish(),
        Err(UploadError::NoContent)
    );
    assert_eq!(
        upload_audio(1).on_file(Some("a".to_string()), None, None).finish(),
        Err(UploadError::NoContent)
    );
}

#[test]
fn upload_failures_after_the_form() {
    let upload = upload_audio(1).on_file(None, None, Some(vec![1])).finish().unwrap();
    assert_eq!(upload.on_stored(None), Err(UploadError::StorageFailed));
    assert_eq!(on_recorded(true), Ok(()));
    assert_eq!(on_recorded(false), Err(UploadError::RecordFailed));
}
