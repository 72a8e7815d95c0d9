//! The credential broker: issues the realtime credential of a session,
//! handing out the current one again while it is good and a new one when it
//! is missing, about to expire, or when the caller asks for a new one.
//!
//! One issue runs through up to four requests to the store: the session, the
//! status update where a status is asked for, the latest credential, and the
//! insert of a new one. Each `Await..` phase stands for a request in flight;
//! its transition takes the reply.

use crate::api::reply::{found_view, owned, written_view};
use crate::error::ServiceError;
use crate::ident::{display_id, id_text, lemma_id_text_is_injective, random_id};
use crate::models::client_secret::{
    ClientSecret,
    ClientSecretView,
    NewClientSecret,
    NewClientSecretView,
};
use crate::models::session::{Session, SessionView};
use crate::telemetry::{
    failure,
    log_failure,
    log_recovery,
    recovery,
    Event,
    LogEntry,
    LogEntryView,
    LogKind,
};
use crate::time::{read_clock, render_rfc3339, rfc3339_text, Timestamp};
use vstd::prelude::*;
use vstd::string::StringExecFns;

verus! {

/// A credential that expires within this many seconds is not handed out
/// again.
pub const EXPIRY_BUFFER_SECS: u32 = 30;

/// A new credential is good for this many seconds.
pub const SECRET_LIFETIME_SECS: u32 = 600;

/// What a caller asks of the broker.
#[derive(Debug, PartialEq, Eq)]
pub struct RealtimeSessionRequest {
    pub session_id: u128,
    pub force_refresh: bool,
    pub status: Option<String>,
}

/// The view of a [`RealtimeSessionRequest`].
pub struct RealtimeSessionRequestView {
    pub session_id: u128,
    pub force_refresh: bool,
    pub status: Option<Seq<char>>,
}

impl View for RealtimeSessionRequest {
    type V = RealtimeSessionRequestView;

    open spec fn view(&self) -> RealtimeSessionRequestView {
        RealtimeSessionRequestView {
            session_id: self.session_id,
            force_refresh: self.force_refresh,
            status: self.status.deep_view(),
        }
    }
}

/// The credential that an issue ends with, and whether it is the stored one
/// handed out again.
#[derive(Debug, PartialEq, Eq)]
pub struct IssuedSecret {
    pub token: String,
    pub expires_at: Timestamp,
    pub reused: bool,
}

/// The view of an [`IssuedSecret`].
pub struct IssuedSecretView {
    pub token: Seq<char>,
    pub expires_at: Timestamp,
    pub reused: bool,
}

impl View for IssuedSecret {
    type V = IssuedSecretView;

    open spec fn view(&self) -> IssuedSecretView {
        IssuedSecretView { token: self.token@, expires_at: self.expires_at, reused: self.reused }
    }
}

/// The token made from the identifier `fresh_id`.
pub open spec fn token_text(fresh_id: u128) -> Seq<char> {
    "client_secret_"@ + id_text(fresh_id)
}

/// Whether a stored credential has to be replaced: the caller forces it, or
/// the credential expires at or before `now` plus the buffer.
pub open spec fn refresh_due(existing: ClientSecretView, force_refresh: bool, now: Timestamp) -> bool {
    force_refresh || existing.expires_at.as_nanos() <= now.as_nanos() + EXPIRY_BUFFER_SECS
        * 1_000_000_000
}

/// Whether an issue mints: there is no credential yet, or the latest one has
/// to be replaced.
pub open spec fn must_mint(
    latest: Option<ClientSecretView>,
    force_refresh: bool,
    now: Timestamp,
) -> bool {
    match latest {
        None => true,
        Some(existing) => refresh_due(existing, force_refresh, now),
    }
}

/// The credential minted for `session_id` at `now` from `fresh_id`.
pub open spec fn minted(session_id: u128, now: Timestamp, fresh_id: u128) -> NewClientSecretView {
    NewClientSecretView {
        session_id,
        token: token_text(fresh_id),
        expires_at: now.later_by(SECRET_LIFETIME_SECS),
    }
}

/// The text of the reason logged for a caller who does not own the session.
pub open spec fn user_mismatch() -> Seq<char> {
    "user mismatch"@
}

/// The token made from the identifier `fresh_id`: `client_secret_` and the
/// hyphenated text of the identifier.
pub fn secret_token(fresh_id: u128) -> (token: String)
    ensures
        token@ == token_text(fresh_id),
{
    let mut token = String::from_str("client_secret_");
    let text = display_id(fresh_id);
    token.append(text.as_str());
    token
}

/// Whether a stored credential has to be replaced.
pub fn needs_refresh(existing: &ClientSecret, force_refresh: bool, now: &Timestamp) -> (due: bool)
    ensures
        due == refresh_due(existing@, force_refresh, *now),
{
    force_refresh || existing.expires_at.at_or_before_after(now, EXPIRY_BUFFER_SECS)
}

/// Mints the credential of `session_id` at `now` from `fresh_id`.
pub fn mint(session_id: u128, now: &Timestamp, fresh_id: u128) -> (secret: NewClientSecret)
    ensures
        secret@ == minted(session_id, *now, fresh_id),
{
    NewClientSecret {
        session_id,
        token: secret_token(fresh_id),
        expires_at: now.plus_seconds(SECRET_LIFETIME_SECS),
    }
}

// ---------------------------------------------------------------------------
// Phases
// ---------------------------------------------------------------------------
/// The session has been asked for.
#[derive(Debug, PartialEq, Eq)]
pub struct AwaitSession {
    pub request: RealtimeSessionRequest,
    pub user_id: u128,
}

/// The view of an [`AwaitSession`].
pub struct AwaitSessionView {
    pub request: RealtimeSessionRequestView,
    pub user_id: u128,
}

impl View for AwaitSession {
    type V = AwaitSessionView;

    open spec fn view(&self) -> AwaitSessionView {
        AwaitSessionView { request: self.request@, user_id: self.user_id }
    }
}

/// The status update has been asked for.
#[derive(Clone, Copy, Debug, PartialEq, Eq, Structural)]
pub struct AwaitStatus {
    pub session_id: u128,
    pub force_refresh: bool,
}

/// The latest credential has been asked for.
#[derive(Clone, Copy, Debug, PartialEq, Eq, Structural)]
pub struct AwaitLatest {
    pub session_id: u128,
    pub force_refresh: bool,
}

/// The insert of a new credential has been asked for. `refresh` tells
/// whether the new credential replaces a stored one.
#[derive(Debug, PartialEq, Eq)]
pub struct AwaitInsert {
    pub secret: NewClientSecret,
    pub refresh: bool,
}

/// The view of an [`AwaitInsert`].
pub struct AwaitInsertView {
    pub secret: NewClientSecretView,
    pub refresh: bool,
}

impl View for AwaitInsert {
    type V = AwaitInsertView;

    open spec fn view(&self) -> AwaitInsertView {
        AwaitInsertView { secret: self.secret@, refresh: self.refresh }
    }
}

/// Where an issue stands once the session has been looked up.
#[derive(Debug, PartialEq, Eq)]
pub enum AfterSession {
    /// The issue ends here, before anything was written.
    Rejected { error: ServiceError, log: LogEntry },
    /// Next, set the status of the session to `status`.
    UpdateStatus { status: String, update: AwaitStatus },
    /// Next, look up the latest credential of the session.
    Lookup { lookup: AwaitLatest },
}

/// The view of an [`AfterSession`].
pub enum AfterSessionView {
    Rejected { error: ServiceError, log: LogEntryView },
    UpdateStatus { status: Seq<char>, update: AwaitStatus },
    Lookup { lookup: AwaitLatest },
}

impl View for AfterSession {
    type V = AfterSessionView;

    open spec fn view(&self) -> AfterSessionView {
        match self {
            AfterSession::Rejected { error, log } => AfterSessionView::Rejected {
                error: *error,
                log: log@,
            },
            AfterSession::UpdateStatus { status, update } => AfterSessionView::UpdateStatus {
                status: status@,
                update: *update,
            },
            AfterSession::Lookup { lookup } => AfterSessionView::Lookup { lookup: *lookup },
        }
    }
}

/// Where an issue stands once the latest credential has been looked up.
#[derive(Debug, PartialEq, Eq)]
pub enum AfterLatest {
    /// The issue ends here with the stored credential.
    Reused { issued: IssuedSecret, log: LogEntry },
    /// Next, store `secret`.
    Insert { secret: NewClientSecret, next: AwaitInsert },
}

/// The view of an [`AfterLatest`].
pub enum AfterLatestView {
    Reused { issued: IssuedSecretView, log: LogEntryView },
    Insert { secret: NewClientSecretView, next: AwaitInsertView },
}

impl View for AfterLatest {
    type V = AfterLatestView;

    open spec fn view(&self) -> AfterLatestView {
        match self {
            AfterLatest::Reused { issued, log } => AfterLatestView::Reused {
                issued: issued@,
                log: log@,
            },
            AfterLatest::Insert { secret, next } => AfterLatestView::Insert {
                secret: secret@,
                next: next@,
            },
        }
    }
}

/// How an issue that minted ends.
#[derive(Debug, PartialEq, Eq)]
pub enum AfterInsert {
    Issued { issued: IssuedSecret, log: LogEntry },
    Failed { error: ServiceError, log: LogEntry },
}

/// The view of an [`AfterInsert`].
pub enum AfterInsertView {
    Issued { issued: IssuedSecretView, log: LogEntryView },
    Failed { error: ServiceError, log: LogEntryView },
}

impl View for AfterInsert {
    type V = AfterInsertView;

    open spec fn view(&self) -> AfterInsertView {
        match self {
            AfterInsert::Issued { issued, log } => AfterInsertView::Issued {
                issued: issued@,
                log: log@,
            },
            AfterInsert::Failed { error, log } => AfterInsertView::Failed {
                error: *error,
                log: log@,
            },
        }
    }
}

// ---------------------------------------------------------------------------
// Transitions, as functions of the views
// ---------------------------------------------------------------------------
/// The step after the lookup of the session: a missing session and a session
/// of another user end the issue; otherwise the status is updated where one
/// is asked for, and the latest credential is looked up.
pub open spec fn after_session(
    phase: AwaitSessionView,
    found: Result<SessionView, Seq<char>>,
) -> AfterSessionView {
    let session_id = phase.request.session_id;
    match found {
        Err(reason) => AfterSessionView::Rejected {
            error: ServiceError::NotFound,
            log: failure(Event::ClientSecretSessionMissing, Some(session_id), reason),
        },
        Ok(session) => if session.user_id != phase.user_id {
            AfterSessionView::Rejected {
                error: ServiceError::Forbidden,
                log: failure(Event::ClientSecretForbidden, Some(session_id), user_mismatch()),
            }
        } else {
            match phase.request.status {
                Some(status) => AfterSessionView::UpdateStatus {
                    status,
                    update: AwaitStatus { session_id, force_refresh: phase.request.force_refresh },
                },
                None => AfterSessionView::Lookup {
                    lookup: AwaitLatest { session_id, force_refresh: phase.request.force_refresh },
                },
            }
        },
    }
}

/// The step after the status update: the issue goes on whatever the store
/// replied; a failure is only logged.
pub open spec fn after_status(phase: AwaitStatus, written: Result<(), Seq<char>>) -> (
    AwaitLatest,
    Option<LogEntryView>,
) {
    (
        AwaitLatest { session_id: phase.session_id, force_refresh: phase.force_refresh },
        match written {
            Ok(_) => None,
            Err(reason) => Some(
                failure(Event::ClientSecretStatusUpdateFailed, Some(phase.session_id), reason),
            ),
        },
    )
}

/// The step after the lookup of the latest credential, taken at `now` with
/// `fresh_id` at hand: reuse the stored credential, or store a new one.
pub open spec fn after_latest(
    phase: AwaitLatest,
    latest: Option<ClientSecretView>,
    now: Timestamp,
    fresh_id: u128,
) -> AfterLatestView {
    if must_mint(latest, phase.force_refresh, now) {
        let secret = minted(phase.session_id, now, fresh_id);
        AfterLatestView::Insert {
            secret,
            next: AwaitInsertView { secret, refresh: latest is Some },
        }
    } else {
        AfterLatestView::Reused {
            issued: IssuedSecretView {
                token: latest->0.token,
                expires_at: latest->0.expires_at,
                reused: true,
            },
            log: recovery(
                Event::ClientSecretIssued,
                Some(phase.session_id),
                "reused_valid_token"@,
            ),
        }
    }
}

/// The step after the insert: the new credential is issued, or the issue
/// fails.
pub open spec fn after_insert(phase: AwaitInsertView, written: Result<(), Seq<char>>) -> AfterInsertView {
    match written {
        Ok(_) => AfterInsertView::Issued {
            issued: IssuedSecretView {
                token: phase.secret.token,
                expires_at: phase.secret.expires_at,
                reused: false,
            },
            log: recovery(Event::ClientSecretIssued, Some(phase.secret.session_id), "new_token"@),
        },
        Err(reason) => AfterInsertView::Failed {
            error: ServiceError::IssuanceFailed,
            log: failure(
                if phase.refresh {
                    Event::ClientSecretRefreshFailed
                } else {
                    Event::ClientSecretIssueFailed
                },
                Some(phase.secret.session_id),
                reason,
            ),
        },
    }
}

// ---------------------------------------------------------------------------
// Transitions
// ---------------------------------------------------------------------------
/// Starts an issue for the caller `user_id`. The first request is the lookup
/// of the session `request.session_id`.
pub fn mint_client_secret(request: RealtimeSessionRequest, user_id: u128) -> (phase: AwaitSession)
    ensures
        phase@ == (AwaitSessionView { request: request@, user_id }),
{
    AwaitSession { request, user_id }
}

impl AwaitSession {
    /// Takes the reply to the lookup of the session; an error of the store
    /// carries its reason.
    pub fn on_session(self, found: Result<Session, String>) -> (next: AfterSession)
        ensures
            next@ == after_session(self@, found_view(found)),
    {
        let session_id = self.request.session_id;
        match found {
            Err(reason) => AfterSession::Rejected {
                error: ServiceError::NotFound,
                log: log_failure(
                    Event::ClientSecretSessionMissing,
                    Some(session_id),
                    reason.as_str(),
                ),
            },
            Ok(session) => {
                if session.user_id != self.user_id {
                    AfterSession::Rejected {
                        error: ServiceError::Forbidden,
                        log: log_failure(
                            Event::ClientSecretForbidden,
                            Some(session_id),
                            "user mismatch",
                        ),
                    }
                } else {
                    let force_refresh = self.request.force_refresh;
                    match self.request.status {
                        Some(status) => AfterSession::UpdateStatus {
                            status,
                            update: AwaitStatus { session_id, force_refresh },
                        },
                        None => AfterSession::Lookup {
                            lookup: AwaitLatest { session_id, force_refresh },
                        },
                    }
                }
            },
        }
    }
}

impl AwaitStatus {
    /// Takes the reply to the status update.
    pub fn on_status_updated(self, written: Result<(), String>) -> (next: (
        AwaitLatest,
        Option<LogEntry>,
    ))
        ensures
            (next.0, next.1.deep_view()) == after_status(self, written_view(written)),
    {
        let phase = AwaitLatest { session_id: self.session_id, force_refresh: self.force_refresh };
        match written {
            Ok(_) => (phase, None),
            Err(reason) => (
                phase,
                Some(
                    log_failure(
                        Event::ClientSecretStatusUpdateFailed,
                        Some(self.session_id),
                        reason.as_str(),
                    ),
                ),
            ),
        }
    }
}

impl AwaitLatest {
    /// Takes the reply to the lookup of the latest credential, with the
    /// instant `now` and the identifier `fresh_id` for a new token.
    pub fn on_latest_at(self, latest: Option<ClientSecret>, now: Timestamp, fresh_id: u128) -> (next:
        AfterLatest)
        ensures
            next@ == after_latest(self, latest.deep_view(), now, fresh_id),
    {
        match latest {
            Some(existing) => {
                if needs_refresh(&existing, self.force_refresh, &now) {
                    self.insert_new(&now, fresh_id, true)
                } else {
                    AfterLatest::Reused {
                        issued: IssuedSecret {
                            token: existing.token,
                            expires_at: existing.expires_at,
                            reused: true,
                        },
                        log: log_recovery(
                            Event::ClientSecretIssued,
                            Some(self.session_id),
                            "reused_valid_token",
                        ),
                    }
                }
            },
            None => self.insert_new(&now, fresh_id, false),
        }
    }

    fn insert_new(self, now: &Timestamp, fresh_id: u128, refresh: bool) -> (next: AfterLatest)
        ensures
            next@ == (AfterLatestView::Insert {
                secret: minted(self.session_id, *now, fresh_id),
                next: AwaitInsertView { secret: minted(self.session_id, *now, fresh_id), refresh },
            }),
    {
        let secret = mint(self.session_id, now, fresh_id);
        let kept = secret.clone();
        AfterLatest::Insert { secret, next: AwaitInsert { secret: kept, refresh } }
    }

    /// Takes the reply to the lookup of the latest credential. The instant
    /// is read from the clock and handed back; the identifier for a new
    /// token is drawn at random.
    pub fn on_latest(self, latest: Option<ClientSecret>) -> (next: (AfterLatest, Timestamp))
        ensures
            exists|fresh_id: u128|
                next.0@ == #[trigger] after_latest(self, latest.deep_view(), next.1, fresh_id),
    {
        let ghost stored = latest.deep_view();
        let now = read_clock();
        let fresh_id = random_id();
        let after = self.on_latest_at(latest, now, fresh_id);
        let next = (after, now);
        assert(next.0@ == after_latest(self, stored, next.1, fresh_id));
        next
    }
}

impl AwaitInsert {
    /// Takes the reply to the insert of the new credential.
    pub fn on_inserted(self, written: Result<(), String>) -> (next: AfterInsert)
        ensures
            next@ == after_insert(self@, written_view(written)),
    {
        let session_id = self.secret.session_id;
        match written {
            Ok(_) => AfterInsert::Issued {
                issued: IssuedSecret {
                    token: self.secret.token,
                    expires_at: self.secret.expires_at,
                    reused: false,
                },
                log: log_recovery(Event::ClientSecretIssued, Some(session_id), "new_token"),
            },
            Err(reason) => {
                let event = if self.refresh {
                    Event::ClientSecretRefreshFailed
                } else {
                    Event::ClientSecretIssueFailed
                };
                AfterInsert::Failed {
                    error: ServiceError::IssuanceFailed,
                    log: log_failure(event, Some(session_id), reason.as_str()),
                }
            },
        }
    }
}

// ---------------------------------------------------------------------------
// The response
// ---------------------------------------------------------------------------
/// What the caller of a successful issue is sent.
#[derive(Debug, PartialEq, Eq)]
pub struct RealtimeSessionResponse {
    pub client_secret: String,
    pub expires_at: String,
    pub session_id: u128,
}

/// The view of a [`RealtimeSessionResponse`].
pub struct RealtimeSessionResponseView {
    pub client_secret: Seq<char>,
    pub expires_at: Seq<char>,
    pub session_id: u128,
}

impl View for RealtimeSessionResponse {
    type V = RealtimeSessionResponseView;

    open spec fn view(&self) -> RealtimeSessionResponseView {
        RealtimeSessionResponseView {
            client_secret: self.client_secret@,
            expires_at: self.expires_at@,
            session_id: self.session_id,
        }
    }
}

impl DeepView for RealtimeSessionResponse {
    type V = RealtimeSessionResponseView;

    open spec fn deep_view(&self) -> RealtimeSessionResponseView {
        self@
    }
}

/// The response for `issued` where `text` is the RFC 3339 text of its
/// expiry, `None` where the expiry has no such text.
pub open spec fn response_with(
    session_id: u128,
    issued: IssuedSecretView,
    text: Option<Seq<char>>,
) -> Option<RealtimeSessionResponseView> {
    match text {
        Some(text) => Some(
            RealtimeSessionResponseView { client_secret: issued.token, expires_at: text, session_id },
        ),
        None => None,
    }
}

/// The response for `issued`: the token, the expiry as RFC 3339 text, and
/// the session. There is none where the expiry has no such text.
pub open spec fn response_for(session_id: u128, issued: IssuedSecretView) -> Option<
    RealtimeSessionResponseView,
> {
    response_with(
        session_id,
        issued,
        rfc3339_text(issued.expires_at.secs, issued.expires_at.nanos),
    )
}

impl RealtimeSessionResponse {
    /// The response for the credential `issued` of the session `session_id`,
    /// given the RFC 3339 text of its expiry; none where there is no text.
    pub fn with_text(session_id: u128, issued: IssuedSecret, text: Option<String>) -> (response:
        Option<RealtimeSessionResponse>)
        ensures
            response.deep_view() == response_with(session_id, issued@, text.deep_view()),
    {
        match text {
            Some(text) => Some(
                RealtimeSessionResponse { client_secret: issued.token, expires_at: text, session_id },
            ),
            None => None,
        }
    }

    /// The response for the credential `issued` of the session `session_id`;
    /// none where the expiry lies beyond what the calendar can write.
    pub fn new(session_id: u128, issued: IssuedSecret) -> (response: Option<RealtimeSessionResponse>)
        ensures
            response.deep_view() == response_for(session_id, issued@),
    {
        let text = render_rfc3339(issued.expires_at.secs, issued.expires_at.nanos);
        RealtimeSessionResponse::with_text(session_id, issued, text)
    }
}

// ---------------------------------------------------------------------------
// A whole issue
// ---------------------------------------------------------------------------
/// What the store, the clock and the generator answer in the course of one
/// issue.
pub struct IssueWorld {
    pub session: Result<SessionView, Seq<char>>,
    pub status_update: Result<(), Seq<char>>,
    pub latest: Option<ClientSecretView>,
    pub now: Timestamp,
    pub fresh_id: u128,
    pub insert: Result<(), Seq<char>>,
}

/// A write that an issue asks of the store.
pub enum IssueWrite {
    Status { session_id: u128, status: Seq<char> },
    Secret { secret: NewClientSecretView },
}

/// One issue from its first request to its end: how it ends, the writes it
/// asked of the store, and what it logged, each in order.
pub struct IssueRun {
    pub outcome: Result<IssuedSecretView, ServiceError>,
    pub writes: Seq<IssueWrite>,
    pub log: Seq<LogEntryView>,
}

/// The rest of an issue from the lookup of the latest credential on, after
/// the writes `writes` and the entries `log`.
pub open spec fn run_from_latest(
    phase: AwaitLatest,
    world: IssueWorld,
    writes: Seq<IssueWrite>,
    log: Seq<LogEntryView>,
) -> IssueRun {
    match after_latest(phase, world.latest, world.now, world.fresh_id) {
        AfterLatestView::Reused { issued, log: entry } => IssueRun {
            outcome: Ok(issued),
            writes,
            log: log.push(entry),
        },
        AfterLatestView::Insert { secret, next } => match after_insert(next, world.insert) {
            AfterInsertView::Issued { issued, log: entry } => IssueRun {
                outcome: Ok(issued),
                writes: writes.push(IssueWrite::Secret { secret }),
                log: log.push(entry),
            },
            AfterInsertView::Failed { error, log: entry } => IssueRun {
                outcome: Err(error),
                writes: writes.push(IssueWrite::Secret { secret }),
                log: log.push(entry),
            },
        },
    }
}

/// The issue that `request` of the caller `user_id` runs to in `world`: the
/// transitions in their order, each fed the answer that `world` holds.
pub open spec fn issue_run(
    request: RealtimeSessionRequestView,
    user_id: u128,
    world: IssueWorld,
) -> IssueRun {
    match after_session(AwaitSessionView { request, user_id }, world.session) {
        AfterSessionView::Rejected { error, log } => IssueRun {
            outcome: Err(error),
            writes: Seq::empty(),
            log: seq![log],
        },
        AfterSessionView::UpdateStatus { status, update } => {
            let (lookup, entry) = after_status(update, world.status_update);
            run_from_latest(
                lookup,
                world,
                seq![IssueWrite::Status { session_id: request.session_id, status }],
                match entry {
                    Some(e) => seq![e],
                    None => Seq::empty(),
                },
            )
        },
        AfterSessionView::Lookup { lookup } => run_from_latest(
            lookup,
            world,
            Seq::empty(),
            Seq::empty(),
        ),
    }
}

/// An issue for a session that does not exist ends with `NotFound` and
/// writes nothing.
pub proof fn law_missing_session_is_not_found(
    request: RealtimeSessionRequestView,
    user_id: u128,
    world: IssueWorld,
)
    requires
        world.session is Err,
    ensures
        issue_run(request, user_id, world).outcome == Err::<IssuedSecretView, ServiceError>(
            ServiceError::NotFound,
        ),
        issue_run(request, user_id, world).writes == Seq::<IssueWrite>::empty(),
{
}

/// An issue for a session of another user ends with `Forbidden` and writes
/// nothing: neither the status nor a credential.
pub proof fn law_foreign_session_is_forbidden(
    request: RealtimeSessionRequestView,
    user_id: u128,
    world: IssueWorld,
)
    requires
        world.session matches Ok(session) && session.user_id != user_id,
    ensures
        issue_run(request, user_id, world).outcome == Err::<IssuedSecretView, ServiceError>(
            ServiceError::Forbidden,
        ),
        issue_run(request, user_id, world).writes == Seq::<IssueWrite>::empty(),
{
}

/// The status update never blocks an issue: how the issue ends, and the
/// writes it asks for, are the same whether the store takes the update or
/// refuses it.
pub proof fn law_status_update_never_blocks(
    request: RealtimeSessionRequestView,
    user_id: u128,
    world: IssueWorld,
    other_reply: Result<(), Seq<char>>,
)
    ensures
        issue_run(request, user_id, IssueWorld { status_update: other_reply, ..world }).outcome
            == issue_run(request, user_id, world).outcome,
        issue_run(request, user_id, IssueWorld { status_update: other_reply, ..world }).writes
            == issue_run(request, user_id, world).writes,
{
}

/// Where a status is asked for and the caller owns the session, the first
/// write of the issue sets that status, whatever becomes of the credential.
pub proof fn law_status_is_written_first(
    request: RealtimeSessionRequestView,
    user_id: u128,
    world: IssueWorld,
)
    requires
        owned(world.session, user_id),
        request.status is Some,
    ensures
        issue_run(request, user_id, world).writes.len() >= 1,
        issue_run(request, user_id, world).writes[0] == (IssueWrite::Status {
            session_id: request.session_id,
            status: request.status->0,
        }),
{
}

/// The first issue of a session always mints: with no stored credential the
/// issue asks the store to insert a new one, and what it hands out is that
/// new credential, never a stored one.
pub proof fn law_first_issue_mints(
    request: RealtimeSessionRequestView,
    user_id: u128,
    world: IssueWorld,
)
    requires
        owned(world.session, user_id),
        world.latest is None,
    ensures
        issue_run(request, user_id, world).writes.last() == (IssueWrite::Secret {
            secret: minted(request.session_id, world.now, world.fresh_id),
        }),
        world.insert is Ok ==> issue_run(request, user_id, world).outcome == Ok::<
            IssuedSecretView,
            ServiceError,
        >(
            IssuedSecretView {
                token: token_text(world.fresh_id),
                expires_at: world.now.later_by(SECRET_LIFETIME_SECS),
                reused: false,
            },
        ),
        world.insert is Err ==> issue_run(request, user_id, world).outcome == Err::<
            IssuedSecretView,
            ServiceError,
        >(ServiceError::IssuanceFailed),
{
}

/// A credential that is good for more than the buffer is handed out again
/// unless the caller forces a refresh: the issue ends with the stored token
/// and expiry, and asks the store for no insert.
pub proof fn law_valid_secret_is_reused(
    request: RealtimeSessionRequestView,
    user_id: u128,
    world: IssueWorld,
)
    requires
        owned(world.session, user_id),
        !request.force_refresh,
        world.latest matches Some(existing) && existing.expires_at.as_nanos()
            > world.now.as_nanos() + EXPIRY_BUFFER_SECS * 1_000_000_000,
    ensures
        issue_run(request, user_id, world).outcome == Ok::<IssuedSecretView, ServiceError>(
            IssuedSecretView {
                token: world.latest->0.token,
                expires_at: world.latest->0.expires_at,
                reused: true,
            },
        ),
        forall|i: int|
            0 <= i < issue_run(request, user_id, world).writes.len() ==> !(#[trigger] issue_run(
                request,
                user_id,
                world,
            ).writes[i] is Secret),
{
}

/// A credential that expires within the buffer, or any credential when the
/// caller forces a refresh, is replaced: the issue asks the store to insert
/// a new credential and, once that is stored, hands out the new token, good
/// for the full lifetime from `now`.
pub proof fn law_stale_or_forced_secret_is_replaced(
    request: RealtimeSessionRequestView,
    user_id: u128,
    world: IssueWorld,
)
    requires
        owned(world.session, user_id),
        world.latest matches Some(existing) && (request.force_refresh
            || existing.expires_at.as_nanos() <= world.now.as_nanos() + EXPIRY_BUFFER_SECS
            * 1_000_000_000),
    ensures
        issue_run(request, user_id, world).writes.last() == (IssueWrite::Secret {
            secret: minted(request.session_id, world.now, world.fresh_id),
        }),
        world.insert is Ok ==> issue_run(request, user_id, world).outcome == Ok::<
            IssuedSecretView,
            ServiceError,
        >(
            IssuedSecretView {
                token: token_text(world.fresh_id),
                expires_at: world.now.later_by(SECRET_LIFETIME_SECS),
                reused: false,
            },
        ),
        world.insert is Err ==> issue_run(request, user_id, world).outcome == Err::<
            IssuedSecretView,
            ServiceError,
        >(ServiceError::IssuanceFailed),
        world.now.secs + SECRET_LIFETIME_SECS <= i64::MAX ==> world.now.later_by(
            SECRET_LIFETIME_SECS,
        ).as_nanos() == world.now.as_nanos() + SECRET_LIFETIME_SECS * 1_000_000_000,
{
}

/// Tokens made from two identifiers are two tokens.
pub proof fn law_tokens_are_distinct(a: u128, b: u128)
    requires
        a != b,
    ensures
        token_text(a) != token_text(b),
{
    if token_text(a) == token_text(b) {
        let prefix = "client_secret_"@;
        assert(id_text(a) =~= token_text(a).subrange(
            prefix.len() as int,
            token_text(a).len() as int,
        ));
        assert(id_text(b) =~= token_text(b).subrange(
            prefix.len() as int,
            token_text(b).len() as int,
        ));
        lemma_id_text_is_injective(a, b);
    }
}

/// The token that replaces a stored one differs from it, where the stored
/// token was made from `prior_id` and the generator gave another identifier.
pub proof fn law_replacing_token_differs(
    request: RealtimeSessionRequestView,
    user_id: u128,
    world: IssueWorld,
    prior_id: u128,
)
    requires
        owned(world.session, user_id),
        world.latest matches Some(existing) && existing.token == token_text(prior_id) && (
        request.force_refresh || existing.expires_at.as_nanos() <= world.now.as_nanos()
            + EXPIRY_BUFFER_SECS * 1_000_000_000),
        world.insert is Ok,
        prior_id != world.fresh_id,
    ensures
        issue_run(request, user_id, world).outcome is Ok,
        issue_run(request, user_id, world).outcome->Ok_0.token != world.latest->0.token,
        !issue_run(request, user_id, world).outcome->Ok_0.reused,
{
    law_tokens_are_distinct(prior_id, world.fresh_id);
}

/// An issue asks the store for at most two writes, in this order: the
/// status, then the new credential. It never asks for two credentials.
pub proof fn law_writes_come_in_order(
    request: RealtimeSessionRequestView,
    user_id: u128,
    world: IssueWorld,
)
    ensures
        ({
            let writes = issue_run(request, user_id, world).writes;
            &&& writes.len() <= 2
            &&& forall|i: int| 0 <= i < writes.len() && #[trigger] writes[i] is Status ==> i == 0
            &&& forall|i: int|
                0 <= i < writes.len() && #[trigger] writes[i] is Secret ==> i == writes.len() - 1
        }),
{
}

/// Every end of an issue is reported: the last entry of the log is about the
/// session of the request; it is a recovery that tells whether the token
/// was reused or is new where the issue went through, and a failure where
/// it did not.
pub proof fn law_outcome_is_reported(
    request: RealtimeSessionRequestView,
    user_id: u128,
    world: IssueWorld,
)
    ensures
        ({
            let run = issue_run(request, user_id, world);
            &&& run.log.len() >= 1
            &&& run.log.last().session_id == Some(id_text(request.session_id))
            &&& run.outcome is Err ==> run.log.last().kind == LogKind::Failure
            &&& run.outcome is Ok ==> run.log.last() == recovery(
                Event::ClientSecretIssued,
                Some(request.session_id),
                if run.outcome->Ok_0.reused {
                    "reused_valid_token"@
                } else {
                    "new_token"@
                },
            )
        }),
{
}

} // verus!
