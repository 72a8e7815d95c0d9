//! Realtime credentials: short-lived tokens, each tied to one session.

use crate::time::Timestamp;
use vstd::prelude::*;

verus! {

/// A stored credential.
#[derive(Debug, PartialEq, Eq)]
pub struct ClientSecret {
    pub id: u128,
    pub session_id: u128,
    pub token: String,
    pub expires_at: Timestamp,
    pub created_at: Timestamp,
}

/// The view of a [`ClientSecret`].
pub struct ClientSecretView {
    pub id: u128,
    pub session_id: u128,
    pub token: Seq<char>,
    pub expires_at: Timestamp,
    pub created_at: Timestamp,
}

impl View for ClientSecret {
    type V = ClientSecretView;

    open spec fn view(&self) -> ClientSecretView {
        ClientSecretView {
            id: self.id,
            session_id: self.session_id,
            token: self.token@,
            expires_at: self.expires_at,
            created_at: self.created_at,
        }
    }
}

impl DeepView for ClientSecret {
    type V = ClientSecretView;

    open spec fn deep_view(&self) -> ClientSecretView {
        self@
    }
}

impl Clone for ClientSecret {
    fn clone(&self) -> (copy: Self)
        ensures
            copy@ == self@,
    {
        ClientSecret {
            id: self.id,
            session_id: self.session_id,
            token: self.token.clone(),
            expires_at: self.expires_at,
            created_at: self.created_at,
        }
    }
}

/// A credential that is to be stored.
#[derive(Debug, PartialEq, Eq)]
pub struct NewClientSecret {
    pub session_id: u128,
    pub token: String,
    pub expires_at: Timestamp,
}

/// The view of a [`NewClientSecret`].
pub struct NewClientSecretView {
    pub session_id: u128,
    pub token: Seq<char>,
    pub expires_at: Timestamp,
}

impl View for NewClientSecret {
    type V = NewClientSecretView;

    open spec fn view(&self) -> NewClientSecretView {
        NewClientSecretView {
            session_id: self.session_id,
            token: self.token@,
            expires_at: self.expires_at,
        }
    }
}

impl DeepView for NewClientSecret {
    type V = NewClientSecretView;

    open spec fn deep_view(&self) -> NewClientSecretView {
        self@
    }
}

impl Clone for NewClientSecret {
    fn clone(&self) -> (copy: Self)
        ensures
            copy@ == self@,
    {
        NewClientSecret {
            session_id: self.session_id,
            token: self.token.clone(),
            expires_at: self.expires_at,
        }
    }
}

} // verus!
