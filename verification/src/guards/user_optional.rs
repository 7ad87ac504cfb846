//! The guard for pages that anyone may see, but that look different to a
//! signed-in user.

use crate::directory::{UserDirectory, UserRecord};
use crate::guards::{
    auth_from_session, resolved_auth, session_after_resolution, shows, template_user, AuthContext,
    AuthView, TemplateContextUser,
};
use crate::permissions::{
    contains_name, distinct_names, name_set, spells, PermissionStore, ADMIN, BANNED,
};
use crate::session::SessionBinding;
use vstd::prelude::*;

verus! {

/// A request that may or may not come from a signed-in user.
pub struct UserOptional {
    /// The current user, if there is one.
    user: Option<UserRecord>,
    /// The permissions the current user has, if any.
    permissions: Vec<String>,
}

/// What goes to the template: whether a user is signed in is told by whether
/// `user` is there.
#[derive(Debug, PartialEq, Eq)]
pub struct UserOptionalContext {
    pub user: Option<TemplateContextUser>,
}

impl View for UserOptional {
    type V = AuthView;

    closed spec fn view(&self) -> AuthView {
        match self.user {
            Some(user) => AuthView::Identified {
                user: user@,
                permissions: name_set(self.permissions@),
            },
            None => AuthView::Anonymous,
        }
    }
}

impl UserOptional {
    /// The permissions as the guard holds them, in order. Empty while nobody
    /// is signed in.
    pub closed spec fn permission_list(&self) -> Seq<String> {
        match self.user {
            Some(_) => self.permissions@,
            None => Seq::empty(),
        }
    }

    /// Whether `context` is what this guard shows to a template: the signed-in
    /// user with the permissions as the guard holds them, and no user while
    /// nobody is signed in.
    pub open spec fn shown_as(&self, context: UserOptionalContext) -> bool {
        match self@ {
            AuthView::Identified { user, .. } => context.user matches Some(shown) && shows(
                shown,
                user,
                self.permission_list(),
            ),
            AuthView::Anonymous => context.user is None,
        }
    }

    /// Accepts whoever the request is from.
    pub fn from_auth(auth: AuthContext) -> (guard: Self)
        ensures
            guard@ == auth@,
            guard.permission_list() == match auth {
                AuthContext::Identified { permissions, .. } => permissions@,
                AuthContext::Anonymous => Seq::<String>::empty(),
            },
    {
        match auth {
            AuthContext::Identified { user, permissions } => UserOptional {
                user: Some(user),
                permissions,
            },
            AuthContext::Anonymous => UserOptional { user: None, permissions: Vec::new() },
        }
    }

    /// Works out who the request is from and accepts the answer, whatever it
    /// is. A stale session is unbound on the way.
    pub fn from_session(
        directory: &UserDirectory,
        store: &PermissionStore,
        session: &mut SessionBinding,
    ) -> (guard: Self)
        ensures
            guard@ == resolved_auth(old(session).bound(), directory@, *store),
            *final(session) == session_after_resolution(*old(session), directory@),
            match guard@ {
                AuthView::Identified { user, permissions } => spells(
                    guard.permission_list(),
                    store.name_list(user.id),
                ) && name_set(guard.permission_list())
                    == permissions && permissions == store.names(user.id) && distinct_names(
                    guard.permission_list(),
                ),
                AuthView::Anonymous => guard.permission_list() == Seq::<String>::empty(),
            },
    {
        let auth = auth_from_session(directory, store, session);
        UserOptional::from_auth(auth)
    }

    /// Whether a user is signed in and banned.
    pub fn is_banned(&self) -> (banned: bool)
        ensures
            banned == self@.holds(BANNED@),
    {
        self.user.is_some() && contains_name(&self.permissions, BANNED)
    }

    /// Whether a user is signed in and an administrator.
    pub fn is_admin(&self) -> (admin: bool)
        ensures
            admin == self@.holds(ADMIN@),
    {
        self.user.is_some() && contains_name(&self.permissions, ADMIN)
    }

    /// Produces the context that can be passed to a template: the user's id,
    /// login, addresses and permissions where a user is signed in, and no
    /// user otherwise.
    pub fn to_context(&self) -> (context: UserOptionalContext)
        ensures
            self.shown_as(context),
    {
        UserOptionalContext {
            user: match &self.user {
                Some(u) => Some(template_user(u, &self.permissions)),
                None => None,
            },
        }
    }
}

} // verus!
