//! The replies of the store, as the phases of the operations take them.

use crate::models::session::{Session, SessionView};
use vstd::prelude::*;

verus! {

/// The reply of the store to a lookup of the session, as a view. An error
/// carries the reason that the store gave.
pub open spec fn found_view(found: Result<Session, String>) -> Result<SessionView, Seq<char>> {
    match found {
        Ok(session) => Ok(session@),
        Err(reason) => Err(reason@),
    }
}

/// The reply of the store to a write, as a view.
pub open spec fn written_view(written: Result<(), String>) -> Result<(), Seq<char>> {
    match written {
        Ok(_) => Ok(()),
        Err(reason) => Err(reason@),
    }
}

/// Whether the store holds the session and the session belongs to `user_id`.
pub open spec fn owned(found: Result<SessionView, Seq<char>>, user_id: u128) -> bool {
    found matches Ok(session) && session.user_id == user_id
}

} // verus!
