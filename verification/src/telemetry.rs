//! What the operations report about themselves. An operation hands back the
//! entries it has to report; the caller writes them to its log.

use crate::ident::{display_id, id_text};
use vstd::prelude::*;
use vstd::string::StringExecFns;

verus! {

/// Whether an entry reports a failure that was expected and handled, or a
/// step that went through.
#[derive(Clone, Copy, Debug, PartialEq, Eq, Structural)]
pub enum LogKind {
    Failure,
    Recovery,
}

/// The events that the operations report.
#[derive(Clone, Copy, Debug, PartialEq, Eq, Structural)]
pub enum Event {
    ClientSecretSessionMissing,
    ClientSecretForbidden,
    ClientSecretStatusUpdateFailed,
    ClientSecretRefreshFailed,
    ClientSecretIssueFailed,
    ClientSecretIssued,
    FinalizeSessionMissing,
    FinalizeForbidden,
    FinalizeTranscriptionFailed,
    FinalizeMissingTranscript,
    FinalizeUpdateFailed,
    FinalizeTranscriptPersistFailed,
}

impl Event {
    /// The machine-readable name of the event.
    pub open spec fn text(self) -> Seq<char> {
        match self {
            Event::ClientSecretSessionMissing => "client_secret_session_missing"@,
            Event::ClientSecretForbidden => "client_secret_forbidden"@,
            Event::ClientSecretStatusUpdateFailed => "client_secret_status_update_failed"@,
            Event::ClientSecretRefreshFailed => "client_secret_refresh_failed"@,
            Event::ClientSecretIssueFailed => "client_secret_issue_failed"@,
            Event::ClientSecretIssued => "client_secret_issued"@,
            Event::FinalizeSessionMissing => "finalize_session_missing"@,
            Event::FinalizeForbidden => "finalize_forbidden"@,
            Event::FinalizeTranscriptionFailed => "finalize_transcription_failed"@,
            Event::FinalizeMissingTranscript => "finalize_missing_transcript"@,
            Event::FinalizeUpdateFailed => "finalize_update_failed"@,
            Event::FinalizeTranscriptPersistFailed => "finalize_transcript_persist_failed"@,
        }
    }

    /// The machine-readable name of the event.
    pub fn name(&self) -> (name: &'static str)
        ensures
            name@ == self.text(),
    {
        match self {
            Event::ClientSecretSessionMissing => "client_secret_session_missing",
            Event::ClientSecretForbidden => "client_secret_forbidden",
            Event::ClientSecretStatusUpdateFailed => "client_secret_status_update_failed",
            Event::ClientSecretRefreshFailed => "client_secret_refresh_failed",
            Event::ClientSecretIssueFailed => "client_secret_issue_failed",
            Event::ClientSecretIssued => "client_secret_issued",
            Event::FinalizeSessionMissing => "finalize_session_missing",
            Event::FinalizeForbidden => "finalize_forbidden",
            Event::FinalizeTranscriptionFailed => "finalize_transcription_failed",
            Event::FinalizeMissingTranscript => "finalize_missing_transcript",
            Event::FinalizeUpdateFailed => "finalize_update_failed",
            Event::FinalizeTranscriptPersistFailed => "finalize_transcript_persist_failed",
        }
    }
}

/// One entry for the log: the event, the session it concerns in hyphenated
/// text, and the reason of a failure or the detail of a step.
#[derive(Debug, PartialEq, Eq)]
pub struct LogEntry {
    pub kind: LogKind,
    pub event: Event,
    pub session_id: Option<String>,
    pub detail: String,
}

/// The view of a [`LogEntry`].
pub struct LogEntryView {
    pub kind: LogKind,
    pub event: Event,
    pub session_id: Option<Seq<char>>,
    pub detail: Seq<char>,
}

impl View for LogEntry {
    type V = LogEntryView;

    open spec fn view(&self) -> LogEntryView {
        LogEntryView {
            kind: self.kind,
            event: self.event,
            session_id: self.session_id.deep_view(),
            detail: self.detail@,
        }
    }
}

impl DeepView for LogEntry {
    type V = LogEntryView;

    open spec fn deep_view(&self) -> LogEntryView {
        self@
    }
}

impl LogEntry {
    /// The message under which entries of this kind are logged.
    pub open spec fn message_text(self) -> Seq<char> {
        match self.kind {
            LogKind::Failure => "resilience_failure"@,
            LogKind::Recovery => "resilience_recovery"@,
        }
    }

    /// The message under which entries of this kind are logged.
    pub fn message(&self) -> (message: &'static str)
        ensures
            message@ == self.message_text(),
    {
        match self.kind {
            LogKind::Failure => "resilience_failure",
            LogKind::Recovery => "resilience_recovery",
        }
    }
}

/// The entry of kind `kind` for `event` on the session `session_id`.
pub open spec fn entry(
    kind: LogKind,
    event: Event,
    session_id: Option<u128>,
    detail: Seq<char>,
) -> LogEntryView {
    LogEntryView {
        kind,
        event,
        session_id: match session_id {
            Some(id) => Some(id_text(id)),
            None => None,
        },
        detail,
    }
}

/// The entry of a failure.
pub open spec fn failure(event: Event, session_id: Option<u128>, reason: Seq<char>) -> LogEntryView {
    entry(LogKind::Failure, event, session_id, reason)
}

/// The entry of a step that went through.
pub open spec fn recovery(event: Event, session_id: Option<u128>, detail: Seq<char>) -> LogEntryView {
    entry(LogKind::Recovery, event, session_id, detail)
}

fn make_entry(kind: LogKind, event: Event, session_id: Option<u128>, detail: &str) -> (e: LogEntry)
    ensures
        e@ == entry(kind, event, session_id, detail@),
{
    let session_text = match session_id {
        Some(id) => Some(display_id(id)),
        None => None,
    };
    LogEntry { kind, event, session_id: session_text, detail: String::from_str(detail) }
}

/// Reports a failure that was expected and handled, with its reason.
pub fn log_failure(event: Event, session_id: Option<u128>, reason: &str) -> (e: LogEntry)
    ensures
        e@ == failure(event, session_id, reason@),
{
    make_entry(LogKind::Failure, event, session_id, reason)
}

/// Reports a step that went through, with its detail.
pub fn log_recovery(event: Event, session_id: Option<u128>, detail: &str) -> (e: LogEntry)
    ensures
        e@ == recovery(event, session_id, detail@),
{
    make_entry(LogKind::Recovery, event, session_id, detail)
}

} // verus!
