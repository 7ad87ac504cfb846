//! Session binding: which user, if any, a session belongs to.
//!
//! A session remembers a single thing, the id of the user who signed in,
//! under the key [`GH_USER_ID`]. It is set when a sign-in completes and
//! removed on sign-out, or as soon as it turns out to point at nobody.

use vstd::prelude::*;

verus! {

/// The one key that the site keeps in a session.
pub const GH_USER_ID: &'static str = "gh_user_id";

/// What a session holds under [`GH_USER_ID`].
#[derive(Clone, Copy, Debug, PartialEq, Eq, Structural)]
pub enum StoredId {
    /// Nothing: the key is not there.
    Absent,
    /// A user id.
    Id(i64),
    /// Something that is no user id. Whoever sent it is treated as a
    /// stranger, not as an error.
    Undecodable,
}

impl StoredId {
    /// What a read of the key says the session holds: the id that was read,
    /// nothing where the key is missing, and something undecodable where the
    /// read failed.
    pub fn from_read<E>(read: Result<Option<i64>, E>) -> (stored: StoredId)
        ensures
            stored == match read {
                Ok(Some(user_id)) => StoredId::Id(user_id),
                Ok(None) => StoredId::Absent,
                Err(_) => StoredId::Undecodable,
            },
    {
        match read {
            Ok(Some(user_id)) => StoredId::Id(user_id),
            Ok(None) => StoredId::Absent,
            Err(_) => StoredId::Undecodable,
        }
    }
}

/// The session of one request.
#[derive(Clone, Copy, Debug, PartialEq, Eq, Structural)]
pub struct SessionBinding {
    /// What is stored under [`GH_USER_ID`].
    pub stored: StoredId,
    /// Whether this request has written to the session, so that the session
    /// has to be sent back to where it is kept.
    pub changed: bool,
}

impl SessionBinding {
    /// The user that the session is bound to: the stored id, and nobody where
    /// the key is missing or holds something else.
    pub open spec fn bound(&self) -> Option<i64> {
        match self.stored {
            StoredId::Id(user_id) => Some(user_id),
            StoredId::Absent => None,
            StoredId::Undecodable => None,
        }
    }

    /// Whether the key is there at all, whatever it holds.
    pub open spec fn has_key(&self) -> bool {
        self.stored != StoredId::Absent
    }

    /// The session once it has been bound to `user_id`.
    pub open spec fn after_bind(&self, user_id: i64) -> SessionBinding {
        SessionBinding { stored: StoredId::Id(user_id), changed: true }
    }

    /// The session once the key has been removed. Only a session that held
    /// the key counts as written to.
    pub open spec fn after_unbind(&self) -> SessionBinding {
        SessionBinding { stored: StoredId::Absent, changed: self.changed || self.has_key() }
    }

    /// The session of somebody who never signed in.
    pub fn new() -> (session: Self)
        ensures
            session.stored == StoredId::Absent,
            !session.changed,
            session.bound().is_none(),
    {
        SessionBinding { stored: StoredId::Absent, changed: false }
    }

    /// A session as it arrived with a request, holding `stored`.
    pub fn from_stored(stored: StoredId) -> (session: Self)
        ensures
            session.stored == stored,
            !session.changed,
    {
        SessionBinding { stored, changed: false }
    }

    /// Binds the session to `user_id`.
    pub fn bind(&mut self, user_id: i64)
        ensures
            *final(self) == old(self).after_bind(user_id),
    {
        self.stored = StoredId::Id(user_id);
        self.changed = true;
    }

    /// Removes the key. A session that holds no key stays as it is, so
    /// unbinding twice is unbinding once.
    pub fn unbind(&mut self)
        ensures
            *final(self) == old(self).after_unbind(),
    {
        if self.stored != StoredId::Absent {
            self.stored = StoredId::Absent;
            self.changed = true;
        }
    }

    /// The user that the session is bound to. A key that holds no user id
    /// counts as a missing key.
    pub fn resolve(&self) -> (user_id: Option<i64>)
        ensures
            user_id == self.bound(),
    {
        match self.stored {
            StoredId::Id(user_id) => Some(user_id),
            StoredId::Absent => None,
            StoredId::Undecodable => None,
        }
    }
}

/// Binding, then resolving, gives back the user that was bound, whatever the
/// session held before; unbinding, then resolving, gives nobody. Unbinding
/// twice is unbinding once.
pub proof fn lemma_bind_resolve_round_trip(session: SessionBinding, user_id: i64)
    ensures
        session.after_bind(user_id).bound() == Some(user_id),
        session.after_unbind().bound().is_none(),
        !session.after_unbind().has_key(),
        session.after_bind(user_id).after_unbind().bound().is_none(),
        session.after_unbind().after_unbind() == session.after_unbind(),
{
}

} // verus!
