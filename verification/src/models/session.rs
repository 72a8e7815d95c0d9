//! Sessions: one practice conversation of one user on one topic.

use crate::time::Timestamp;
use vstd::prelude::*;
use vstd::string::StringExecFns;

verus! {

/// The status of a session that is still running.
pub open spec fn active_status() -> Seq<char> {
    "active"@
}

/// A stored session.
#[derive(Debug, PartialEq, Eq)]
pub struct Session {
    pub id: u128,
    pub user_id: u128,
    pub topic_id: u128,
    pub start_time: Timestamp,
    pub end_time: Option<Timestamp>,
    pub duration_seconds: Option<i32>,
    pub status: String,
    pub privacy: String,
    pub created_at: Timestamp,
    pub updated_at: Timestamp,
}

/// The view of a [`Session`].
pub struct SessionView {
    pub id: u128,
    pub user_id: u128,
    pub topic_id: u128,
    pub start_time: Timestamp,
    pub end_time: Option<Timestamp>,
    pub duration_seconds: Option<i32>,
    pub status: Seq<char>,
    pub privacy: Seq<char>,
    pub created_at: Timestamp,
    pub updated_at: Timestamp,
}

impl SessionView {
    /// A session is settled once its status is anything but `active`.
    pub open spec fn settled(self) -> bool {
        self.status != active_status()
    }
}

impl View for Session {
    type V = SessionView;

    open spec fn view(&self) -> SessionView {
        SessionView {
            id: self.id,
            user_id: self.user_id,
            topic_id: self.topic_id,
            start_time: self.start_time,
            end_time: self.end_time,
            duration_seconds: self.duration_seconds,
            status: self.status@,
            privacy: self.privacy@,
            created_at: self.created_at,
            updated_at: self.updated_at,
        }
    }
}

impl DeepView for Session {
    type V = SessionView;

    open spec fn deep_view(&self) -> SessionView {
        self@
    }
}

impl Clone for Session {
    fn clone(&self) -> (copy: Self)
        ensures
            copy@ == self@,
    {
        Session {
            id: self.id,
            user_id: self.user_id,
            topic_id: self.topic_id,
            start_time: self.start_time,
            end_time: self.end_time,
            duration_seconds: self.duration_seconds,
            status: self.status.clone(),
            privacy: self.privacy.clone(),
            created_at: self.created_at,
            updated_at: self.updated_at,
        }
    }
}

impl Session {
    /// Whether the session is still running, that is, its status is `active`.
    pub fn is_active(&self) -> (r: bool)
        ensures
            r == !self@.settled(),
    {
        let active = String::from_str("active");
        self.status == active
    }
}

/// What is stored when a session starts.
#[derive(Debug, PartialEq, Eq)]
pub struct NewSession {
    pub user_id: u128,
    pub topic_id: u128,
    pub status: String,
}

/// The view of a [`NewSession`].
pub struct NewSessionView {
    pub user_id: u128,
    pub topic_id: u128,
    pub status: Seq<char>,
}

impl View for NewSession {
    type V = NewSessionView;

    open spec fn view(&self) -> NewSessionView {
        NewSessionView { user_id: self.user_id, topic_id: self.topic_id, status: self.status@ }
    }
}

/// What is stored when a session is finalized: the end of the session, its
/// length where known, and its status.
#[derive(Debug, PartialEq, Eq)]
pub struct FinalizeSession {
    pub end_time: Timestamp,
    pub duration_seconds: Option<i32>,
    pub status: String,
}

/// The view of a [`FinalizeSession`].
pub struct FinalizeSessionView {
    pub end_time: Timestamp,
    pub duration_seconds: Option<i32>,
    pub status: Seq<char>,
}

impl View for FinalizeSession {
    type V = FinalizeSessionView;

    open spec fn view(&self) -> FinalizeSessionView {
        FinalizeSessionView {
            end_time: self.end_time,
            duration_seconds: self.duration_seconds,
            status: self.status@,
        }
    }
}

} // verus!
