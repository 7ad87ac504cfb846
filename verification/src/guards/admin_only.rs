//! The guard for pages that only an administrator may see.

use crate::directory::{UserDirectory, UserRecord, UserRecordView};
use crate::errors::{AuthFromSessionError, HandlerError};
use crate::guards::{
    auth_from_session, resolved_auth, session_after_resolution, shows, template_user, AuthContext,
    AuthView, TemplateContextUser,
};
use crate::permissions::{
    contains_name, distinct_names, name_set, spells, PermissionStore, ADMIN, BANNED,
};
use crate::session::SessionBinding;
use vstd::prelude::*;
use vstd::std_specs::convert::{FromSpec, FromSpecImpl};

verus! {

/// A request that comes from a signed-in administrator.
pub struct AdminOnly {
    user: UserRecord,
    permissions: Vec<String>,
}

/// What goes to the template: the administrator.
#[derive(Debug, PartialEq, Eq)]
pub struct AdminOnlyContext {
    pub user: TemplateContextUser,
}

/// Why a request was not let through as an administrator's. The two refusals
/// are told apart: one asks the visitor to sign in, the other says that
/// signing in did not help.
#[derive(Clone, Copy, Debug, PartialEq, Eq, Structural)]
pub enum AdminOnlyFromRequestError {
    /// No user is logged in.
    NotLoggedIn,
    /// A user is logged in, but is no administrator.
    Forbidden,
    /// It could not be determined whether a user is logged in.
    AuthFromRequestError(AuthFromSessionError),
}

impl AdminOnlyFromRequestError {
    pub open spec fn spec_status_code(&self) -> u16 {
        match *self {
            AdminOnlyFromRequestError::NotLoggedIn => 401,
            AdminOnlyFromRequestError::Forbidden => 403,
            AdminOnlyFromRequestError::AuthFromRequestError(
                AuthFromSessionError::DbQueryError,
            ) => 500,
            AdminOnlyFromRequestError::AuthFromRequestError(
                AuthFromSessionError::SessionRetrieveError,
            ) => 400,
        }
    }

    /// The HTTP status that answers the refusal: 401 where nobody is signed
    /// in, 403 where the user is no administrator, 500 where the lookup
    /// failed, 400 where the session could not be read.
    #[verifier::when_used_as_spec(spec_status_code)]
    pub fn status_code(&self) -> (code: u16)
        ensures
            code == self.spec_status_code(),
    {
        match self {
            AdminOnlyFromRequestError::NotLoggedIn => 401,
            AdminOnlyFromRequestError::Forbidden => 403,
            AdminOnlyFromRequestError::AuthFromRequestError(e) => match e {
                AuthFromSessionError::DbQueryError => 500,
                AuthFromSessionError::SessionRetrieveError => 400,
            },
        }
    }
}

impl From<AdminOnlyFromRequestError> for HandlerError {
    /// A refusal as a handler returns it: nobody signed in is a request that
    /// is not authenticated, a user who is no administrator is forbidden,
    /// and a failed attempt to find out is the failure that it wraps.
    fn from(refusal: AdminOnlyFromRequestError) -> (converted: Self) {
        match refusal {
            AdminOnlyFromRequestError::NotLoggedIn => HandlerError::NotAuthenticated,
            AdminOnlyFromRequestError::Forbidden => HandlerError::Forbidden,
            AdminOnlyFromRequestError::AuthFromRequestError(
                AuthFromSessionError::DbQueryError,
            ) => HandlerError::DatabaseError,
            AdminOnlyFromRequestError::AuthFromRequestError(
                AuthFromSessionError::SessionRetrieveError,
            ) => HandlerError::SessionError,
        }
    }
}

impl FromSpecImpl<AdminOnlyFromRequestError> for HandlerError {
    open spec fn obeys_from_spec() -> bool {
        true
    }

    open spec fn from_spec(refusal: AdminOnlyFromRequestError) -> Self {
        match refusal {
            AdminOnlyFromRequestError::NotLoggedIn => HandlerError::NotAuthenticated,
            AdminOnlyFromRequestError::Forbidden => HandlerError::Forbidden,
            AdminOnlyFromRequestError::AuthFromRequestError(
                AuthFromSessionError::DbQueryError,
            ) => HandlerError::DatabaseError,
            AdminOnlyFromRequestError::AuthFromRequestError(
                AuthFromSessionError::SessionRetrieveError,
            ) => HandlerError::SessionError,
        }
    }
}

/// A refusal is answered with the same status whether it is answered as it
/// is or as the handler error that it becomes.
pub proof fn lemma_admin_only_status_survives(refusal: AdminOnlyFromRequestError)
    ensures
        <HandlerError as FromSpec<AdminOnlyFromRequestError>>::from_spec(
            refusal,
        ).spec_status_code() == refusal.spec_status_code(),
{
}

/// What the guard makes of a request: the user and the user's permissions
/// where an administrator is signed in, one refusal where nobody is signed
/// in, and another where the user is no administrator.
pub open spec fn admin_only(auth: AuthView) -> Result<
    (UserRecordView, Set<Seq<char>>),
    AdminOnlyFromRequestError,
> {
    match auth {
        AuthView::Identified { user, permissions } => if permissions.contains(ADMIN@) {
            Ok((user, permissions))
        } else {
            Err(AdminOnlyFromRequestError::Forbidden)
        },
        AuthView::Anonymous => Err(AdminOnlyFromRequestError::NotLoggedIn),
    }
}

impl View for AdminOnly {
    type V = AuthView;

    closed spec fn view(&self) -> AuthView {
        AuthView::Identified { user: self.user@, permissions: name_set(self.permissions@) }
    }
}

impl AdminOnly {
    #[verifier::type_invariant]
    spec fn is_administrator(self) -> bool {
        name_set(self.permissions@).contains(ADMIN@)
    }

    /// The permissions as the guard holds them, in order.
    pub closed spec fn permission_list(&self) -> Seq<String> {
        self.permissions@
    }

    /// Lets the request through if and only if somebody is signed in and
    /// holds the `admin` permission.
    pub fn from_auth(auth: AuthContext) -> (outcome: Result<Self, AdminOnlyFromRequestError>)
        ensures
            match admin_only(auth@) {
                Ok(_) => outcome matches Ok(guard) && guard@ == auth@ && guard@.holds(ADMIN@),
                Err(refusal) => outcome == Err::<Self, _>(refusal),
            },
            outcome matches Ok(guard) ==> auth matches AuthContext::Identified { permissions, .. }
                && guard.permission_list() == permissions@,
    {
        match auth {
            AuthContext::Identified { user, permissions } => {
                if contains_name(&permissions, ADMIN) {
                    Ok(AdminOnly { user, permissions })
                } else {
                    Err(AdminOnlyFromRequestError::Forbidden)
                }
            },
            AuthContext::Anonymous => Err(AdminOnlyFromRequestError::NotLoggedIn),
        }
    }

    /// Lets the request through if and only if the attempt to find out who
    /// it is from succeeded and found an administrator. A failed attempt is
    /// passed on, wrapped.
    pub fn from_request(resolution: Result<AuthContext, AuthFromSessionError>) -> (outcome: Result<
        Self,
        AdminOnlyFromRequestError,
    >)
        ensures
            match resolution {
                Ok(auth) => match admin_only(auth@) {
                    Ok(_) => outcome matches Ok(guard) && guard@ == auth@ && guard@.holds(ADMIN@),
                    Err(refusal) => outcome == Err::<Self, _>(refusal),
                },
                Err(failure) => outcome == Err::<Self, _>(
                    AdminOnlyFromRequestError::AuthFromRequestError(failure),
                ),
            },
            outcome matches Ok(guard) ==> resolution matches Ok(
                AuthContext::Identified { permissions, .. },
            ) && guard.permission_list() == permissions@,
    {
        match resolution {
            Ok(auth) => AdminOnly::from_auth(auth),
            Err(e) => Err(AdminOnlyFromRequestError::AuthFromRequestError(e)),
        }
    }

    /// Works out who the request is from and lets it through if and only if
    /// an administrator is signed in. A stale session is unbound on the way.
    pub fn from_session(
        directory: &UserDirectory,
        store: &PermissionStore,
        session: &mut SessionBinding,
    ) -> (outcome: Result<Self, AdminOnlyFromRequestError>)
        ensures
            match admin_only(resolved_auth(old(session).bound(), directory@, *store)) {
                Ok(_) => outcome matches Ok(guard) && guard@ == resolved_auth(
                    old(session).bound(),
                    directory@,
                    *store,
                ) && guard@.holds(ADMIN@),
                Err(refusal) => outcome == Err::<Self, _>(refusal),
            },
            *final(session) == session_after_resolution(*old(session), directory@),
            outcome matches Ok(guard) ==> old(session).bound() matches Some(user_id) && spells(
                guard.permission_list(),
                store.name_list(user_id),
            ) && name_set(guard.permission_list()) == store.names(
                user_id,
            ) && distinct_names(guard.permission_list()),
    {
        let auth = auth_from_session(directory, store, session);
        AdminOnly::from_auth(auth)
    }

    /// Whether the administrator is banned.
    pub fn is_banned(&self) -> (banned: bool)
        ensures
            banned == self@.holds(BANNED@),
    {
        contains_name(&self.permissions, BANNED)
    }

    /// Whether the user is an administrator: always.
    pub fn is_admin(&self) -> (admin: bool)
        ensures
            admin,
            self@.holds(ADMIN@),
    {
        proof {
            use_type_invariant(self);
        }
        contains_name(&self.permissions, ADMIN)
    }

    /// Produces the context that can be passed to a template: the
    /// administrator's id, login, addresses and permissions.
    pub fn to_context(&self) -> (context: AdminOnlyContext)
        ensures
            self@ matches AuthView::Identified { user, .. } && shows(
                context.user,
                user,
                self.permission_list(),
            ),
    {
        AdminOnlyContext { user: template_user(&self.user, &self.permissions) }
    }
}

} // verus!
