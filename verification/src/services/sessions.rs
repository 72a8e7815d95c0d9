//! What is written to the store when a session starts and when it ends.

use crate::models::session::{active_status, FinalizeSession, FinalizeSessionView, NewSession, NewSessionView};
use crate::time::Timestamp;
use vstd::prelude::*;
use vstd::string::StringExecFns;

verus! {

/// The session that starts for `user_id` on `topic_id`: it is `active`.
pub fn create_session(user_id: u128, topic_id: u128) -> (session: NewSession)
    ensures
        session@ == (NewSessionView { user_id, topic_id, status: active_status() }),
{
    NewSession { user_id, topic_id, status: String::from_str("active") }
}

/// What is written to a session that ends at `end_time`.
pub fn finalize_session(end_time: Timestamp, duration_seconds: Option<i32>, status: &str) -> (update:
    FinalizeSession)
    ensures
        update@ == (FinalizeSessionView { end_time, duration_seconds, status: status@ }),
{
    FinalizeSession { end_time, duration_seconds, status: String::from_str(status) }
}

} // verus!
