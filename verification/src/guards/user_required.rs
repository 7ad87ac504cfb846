//! The guard for pages that only a signed-in user may see.

use crate::directory::{UserDirectory, UserRecord, UserRecordView};
use crate::errors::{AuthFromSessionError, HandlerError};
use crate::guards::{
    auth_from_session, resolved_auth, session_after_resolution, shows, template_user, AuthContext,
    AuthView, TemplateContextUser,
};
use crate::permissions::{
    contains_name, distinct_names, name_set, spells, PermissionStore, ADMIN, BANNED,
};
use crate::session::SessionBinding;
use vstd::prelude::*;
use vstd::std_specs::convert::{FromSpec, FromSpecImpl};

verus! {

/// A request that comes from a signed-in user.
pub struct UserRequired {
    user: UserRecord,
    permissions: Vec<String>,
}

/// What goes to the template: the user, who is always there.
#[derive(Debug, PartialEq, Eq)]
pub struct UserRequiredContext {
    pub user: TemplateContextUser,
}

/// Why a request was not let through as a signed-in user's.
#[derive(Clone, Copy, Debug, PartialEq, Eq, Structural)]
pub enum UserRequiredFromRequestError {
    /// No user is logged in.
    NotLoggedIn,
    /// It could not be determined whether a user is logged in.
    AuthFromRequestError(AuthFromSessionError),
}

impl UserRequiredFromRequestError {
    pub open spec fn spec_status_code(&self) -> u16 {
        match *self {
            UserRequiredFromRequestError::NotLoggedIn => 401,
            UserRequiredFromRequestError::AuthFromRequestError(
                AuthFromSessionError::DbQueryError,
            ) => 500,
            UserRequiredFromRequestError::AuthFromRequestError(
                AuthFromSessionError::SessionRetrieveError,
            ) => 400,
        }
    }

    /// The HTTP status that answers the refusal: 401 where nobody is signed
    /// in, 500 where the lookup failed, 400 where the session could not be
    /// read.
    #[verifier::when_used_as_spec(spec_status_code)]
    pub fn status_code(&self) -> (code: u16)
        ensures
            code == self.spec_status_code(),
    {
        match self {
            UserRequiredFromRequestError::NotLoggedIn => 401,
            UserRequiredFromRequestError::AuthFromRequestError(e) => match e {
                AuthFromSessionError::DbQueryError => 500,
                AuthFromSessionError::SessionRetrieveError => 400,
            },
        }
    }
}

impl From<UserRequiredFromRequestError> for HandlerError {
    /// A refusal as a handler returns it: nobody signed in is a request that
    /// is not authenticated, and a failed attempt to find out is the failure
    /// that it wraps.
    fn from(refusal: UserRequiredFromRequestError) -> (converted: Self) {
        match refusal {
            UserRequiredFromRequestError::NotLoggedIn => HandlerError::NotAuthenticated,
            UserRequiredFromRequestError::AuthFromRequestError(
                AuthFromSessionError::DbQueryError,
            ) => HandlerError::DatabaseError,
            UserRequiredFromRequestError::AuthFromRequestError(
                AuthFromSessionError::SessionRetrieveError,
            ) => HandlerError::SessionError,
        }
    }
}

impl FromSpecImpl<UserRequiredFromRequestError> for HandlerError {
    open spec fn obeys_from_spec() -> bool {
        true
    }

    open spec fn from_spec(refusal: UserRequiredFromRequestError) -> Self {
        match refusal {
            UserRequiredFromRequestError::NotLoggedIn => HandlerError::NotAuthenticated,
            UserRequiredFromRequestError::AuthFromRequestError(
                AuthFromSessionError::DbQueryError,
            ) => HandlerError::DatabaseError,
            UserRequiredFromRequestError::AuthFromRequestError(
                AuthFromSessionError::SessionRetrieveError,
            ) => HandlerError::SessionError,
        }
    }
}

/// A refusal is answered with the same status whether it is answered as it
/// is or as the handler error that it becomes.
pub proof fn lemma_user_required_status_survives(refusal: UserRequiredFromRequestError)
    ensures
        <HandlerError as FromSpec<UserRequiredFromRequestError>>::from_spec(
            refusal,
        ).spec_status_code() == refusal.spec_status_code(),
{
}

/// What the guard makes of a request: the user and the user's permissions
/// where somebody is signed in, and a refusal where nobody is.
pub open spec fn user_required(auth: AuthView) -> Result<
    (UserRecordView, Set<Seq<char>>),
    UserRequiredFromRequestError,
> {
    match auth {
        AuthView::Identified { user, permissions } => Ok((user, permissions)),
        AuthView::Anonymous => Err(UserRequiredFromRequestError::NotLoggedIn),
    }
}

impl View for UserRequired {
    type V = AuthView;

    closed spec fn view(&self) -> AuthView {
        AuthView::Identified { user: self.user@, permissions: name_set(self.permissions@) }
    }
}

impl UserRequired {
    /// The permissions as the guard holds them, in order.
    pub closed spec fn permission_list(&self) -> Seq<String> {
        self.permissions@
    }

    /// Lets the request through if and only if somebody is signed in.
    pub fn from_auth(auth: AuthContext) -> (outcome: Result<Self, UserRequiredFromRequestError>)
        ensures
            match user_required(auth@) {
                Ok(_) => outcome matches Ok(guard) && guard@ == auth@,
                Err(refusal) => outcome == Err::<Self, _>(refusal),
            },
            auth matches AuthContext::Identified { permissions, .. } ==> outcome matches Ok(guard)
                && guard.permission_list() == permissions@,
    {
        match auth {
            AuthContext::Identified { user, permissions } => Ok(UserRequired { user, permissions }),
            AuthContext::Anonymous => Err(UserRequiredFromRequestError::NotLoggedIn),
        }
    }

    /// Lets the request through if and only if the attempt to find out who
    /// it is from succeeded and found somebody. A failed attempt is passed
    /// on, wrapped.
    pub fn from_request(resolution: Result<AuthContext, AuthFromSessionError>) -> (outcome: Result<
        Self,
        UserRequiredFromRequestError,
    >)
        ensures
            match resolution {
                Ok(auth) => match user_required(auth@) {
                    Ok(_) => outcome matches Ok(guard) && guard@ == auth@,
                    Err(refusal) => outcome == Err::<Self, _>(refusal),
                },
                Err(failure) => outcome == Err::<Self, _>(
                    UserRequiredFromRequestError::AuthFromRequestError(failure),
                ),
            },
            outcome matches Ok(guard) ==> resolution matches Ok(
                AuthContext::Identified { permissions, .. },
            ) && guard.permission_list() == permissions@,
    {
        match resolution {
            Ok(auth) => UserRequired::from_auth(auth),
            Err(e) => Err(UserRequiredFromRequestError::AuthFromRequestError(e)),
        }
    }

    /// Works out who the request is from and lets it through if and only if
    /// somebody is signed in. A stale session is unbound on the way.
    pub fn from_session(
        directory: &UserDirectory,
        store: &PermissionStore,
        session: &mut SessionBinding,
    ) -> (outcome: Result<Self, UserRequiredFromRequestError>)
        ensures
            match user_required(resolved_auth(old(session).bound(), directory@, *store)) {
                Ok(_) => outcome matches Ok(guard) && guard@ == resolved_auth(
                    old(session).bound(),
                    directory@,
                    *store,
                ),
                Err(refusal) => outcome == Err::<Self, _>(refusal),
            },
            *final(session) == session_after_resolution(*old(session), directory@),
            outcome matches Ok(guard) ==> old(session).bound() matches Some(user_id) && spells(
                guard.permission_list(),
                store.name_list(user_id),
            ) && name_set(guard.permission_list()) == store.names(
                user_id,
            ) && distinct_names(guard.permission_list()),
    {
        let auth = auth_from_session(directory, store, session);
        UserRequired::from_auth(auth)
    }

    /// Whether the user is banned.
    pub fn is_banned(&self) -> (banned: bool)
        ensures
            banned == self@.holds(BANNED@),
    {
        contains_name(&self.permissions, BANNED)
    }

    /// Whether the user is an administrator.
    pub fn is_admin(&self) -> (admin: bool)
        ensures
            admin == self@.holds(ADMIN@),
    {
        contains_name(&self.permissions, ADMIN)
    }

    /// Produces the context that can be passed to a template: the user's id,
    /// login, addresses and permissions.
    pub fn to_context(&self) -> (context: UserRequiredContext)
        ensures
            self@ matches AuthView::Identified { user, .. } && shows(
                context.user,
                user,
                self.permission_list(),
            ),
    {
        UserRequiredContext { user: template_user(&self.user, &self.permissions) }
    }
}

} // verus!
