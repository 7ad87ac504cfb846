//! The authorization guards: who a request is from, and what that user may
//! do.
//!
//! Every guard starts from the same resolution of the session. What differs
//! is how strict the guard is: [`UserOptional`] accepts a stranger,
//! [`UserRequired`] insists on a signed-in user, and [`AdminOnly`] on one who
//! holds the `admin` permission. A handler states its demand by the guard it
//! takes.

pub mod admin_only;
pub mod user_optional;
pub mod user_required;

use crate::directory::{is_directory, UserDirectory, UserRecord, UserRecordView};
use crate::errors::AuthFromSessionError;
use crate::permissions::{
    distinct_names, name_set, spells, PermissionStore, ADMIN, BANNED,
};
use crate::session::SessionBinding;
use vstd::prelude::*;

pub use admin_only::{admin_only, AdminOnly, AdminOnlyContext, AdminOnlyFromRequestError};
pub use user_optional::{UserOptional, UserOptionalContext};
pub use user_required::{
    user_required, UserRequired, UserRequiredContext, UserRequiredFromRequestError,
};

verus! {

/// A signed-in user as templates see it.
#[derive(Debug, PartialEq, Eq)]
pub struct TemplateContextUser {
    /// The user's numeric id.
    pub id: i64,
    /// The user's login at the provider.
    pub login: String,
    /// The address of the user's page at the provider.
    pub html_url: String,
    /// The address of the user's avatar.
    pub avatar_url: String,
    /// The names of the user's permissions.
    pub permissions: Vec<String>,
}

/// Who a request is from. Worked out afresh for every request and never kept.
#[derive(Debug, PartialEq, Eq)]
pub enum AuthContext {
    /// Nobody is signed in.
    Anonymous,
    /// `user` is signed in and holds `permissions`.
    Identified { user: UserRecord, permissions: Vec<String> },
}

/// What an [`AuthContext`] says, as mathematical values: the permissions are
/// a set, since their order means nothing.
pub enum AuthView {
    Anonymous,
    Identified { user: UserRecordView, permissions: Set<Seq<char>> },
}

impl AuthView {
    /// Whether somebody is signed in and holds the permission `name`. Nobody
    /// holds anything while nobody is signed in.
    pub open spec fn holds(self, name: Seq<char>) -> bool {
        match self {
            AuthView::Identified { permissions, .. } => permissions.contains(name),
            AuthView::Anonymous => false,
        }
    }
}

impl View for AuthContext {
    type V = AuthView;

    open spec fn view(&self) -> AuthView {
        match *self {
            AuthContext::Anonymous => AuthView::Anonymous,
            AuthContext::Identified { user, permissions } => AuthView::Identified {
                user: user@,
                permissions: name_set(permissions@),
            },
        }
    }
}

/// Whether a session is stale against the outcome of a lookup: it is bound to
/// a user, and the lookup found nobody, or somebody else.
pub open spec fn is_stale(bound: Option<i64>, found: Option<UserRecord>) -> bool {
    match bound {
        Some(user_id) => !(found matches Some(user) && user.id == user_id),
        None => false,
    }
}

/// Who the request is from, given what the session is bound to and what the
/// lookups returned: the user found, with the permissions found, where the
/// session is bound to that very user, and nobody otherwise.
pub open spec fn auth_of_lookup(
    bound: Option<i64>,
    found: Option<UserRecord>,
    permissions: Vec<String>,
) -> AuthContext {
    match found {
        Some(user) => if bound == Some(user.id) {
            AuthContext::Identified { user, permissions }
        } else {
            AuthContext::Anonymous
        },
        None => AuthContext::Anonymous,
    }
}

/// Who a request is from, given what the session is bound to, the directory
/// and the permission store: the bound user with exactly the permissions the
/// store holds for that user, where the directory knows the user, and nobody
/// otherwise.
pub open spec fn resolved_auth(
    bound: Option<i64>,
    directory: Map<i64, UserRecordView>,
    store: PermissionStore,
) -> AuthView {
    match bound {
        Some(user_id) => if directory.contains_key(user_id) {
            AuthView::Identified { user: directory[user_id], permissions: store.names(user_id) }
        } else {
            AuthView::Anonymous
        },
        None => AuthView::Anonymous,
    }
}

/// The session after resolution against the directory: a session bound to a
/// user that the directory does not know loses its key, every other session
/// is left alone.
pub open spec fn session_after_resolution(
    session: SessionBinding,
    directory: Map<i64, UserRecordView>,
) -> SessionBinding {
    match session.bound() {
        Some(user_id) => if directory.contains_key(user_id) {
            session
        } else {
            session.after_unbind()
        },
        None => session,
    }
}

/// Decides who a request is from, once the lookups have been made.
///
/// `found` is what the directory returned for the id the session is bound to,
/// and `permissions` what the permission store returned for it; for a session
/// bound to nobody both are ignored. A session bound to a user that was not
/// found is stale: it is unbound, and the request is anonymous. So is a
/// session for which the lookup returned another user's record.
pub fn auth_from_lookup(
    session: &mut SessionBinding,
    found: Option<UserRecord>,
    permissions: Vec<String>,
) -> (auth: AuthContext)
    ensures
        auth == auth_of_lookup(old(session).bound(), found, permissions),
        *final(session) == if is_stale(old(session).bound(), found) {
            old(session).after_unbind()
        } else {
            *old(session)
        },
{
    let user_id = match session.resolve() {
        Some(user_id) => user_id,
        None => {
            return AuthContext::Anonymous;
        },
    };
    match found {
        Some(user) => {
            if user.id == user_id {
                AuthContext::Identified { user, permissions }
            } else {
                session.unbind();
                AuthContext::Anonymous
            }
        },
        None => {
            session.unbind();
            AuthContext::Anonymous
        },
    }
}

/// Works out who a request is from.
///
/// A session bound to nobody is anonymous. A session bound to a user that
/// the directory does not know is stale: the key is removed from it, which
/// signs the browser out, and the request is anonymous. Otherwise the
/// request is from the bound user, with the permissions that the store holds
/// for that user at this moment.
pub fn auth_from_session(
    directory: &UserDirectory,
    store: &PermissionStore,
    session: &mut SessionBinding,
) -> (auth: AuthContext)
    ensures
        auth@ == resolved_auth(old(session).bound(), directory@, *store),
        *final(session) == session_after_resolution(*old(session), directory@),
        auth matches AuthContext::Identified { user, permissions } ==> Some(user.id) == old(
            session,
        ).bound() && spells(permissions@, store.name_list(user.id)) && distinct_names(
            permissions@,
        ),
{
    let user_id = match session.resolve() {
        Some(user_id) => user_id,
        None => {
            return AuthContext::Anonymous;
        },
    };
    let found = directory.find_by_id(user_id);
    let permissions = match found {
        Some(_) => store.find_by_user_id(user_id),
        None => Vec::new(),
    };
    auth_from_lookup(session, found, permissions)
}

/// How far the resolution of a session has come. Resolving takes up to two
/// lookups, one after the other, and each can fail.
#[derive(Debug, PartialEq, Eq)]
pub enum ResolutionState {
    /// The directory has been asked for the user `user_id`, to whom the
    /// session is bound.
    AwaitingUser { user_id: i64 },
    /// The permission store has been asked what `user` may do.
    AwaitingPermissions { user: UserRecord },
    /// The resolution is over.
    Finished,
}

/// What a lookup came to.
#[derive(Debug, PartialEq, Eq)]
pub enum ResolutionEvent<E> {
    /// The directory answered, or failed to.
    User(Result<Option<UserRecord>, E>),
    /// The permission store answered, or failed to.
    Permissions(Result<Vec<String>, E>),
}

/// What the resolution wants done next.
#[derive(Debug, PartialEq, Eq)]
pub enum ResolutionAction {
    /// Look this user up in the directory and report what was found.
    FindUser(i64),
    /// Look up the permissions of this user and report them.
    FindPermissions(i64),
    /// Nothing: the resolution is over, with this outcome.
    Finish(Result<AuthContext, AuthFromSessionError>),
}

/// A resolution that ends because a lookup failed, or because it was told
/// something it did not wait for: the outcome is a failed query, and the
/// session is as it was.
pub open spec fn resolution_failed(session: SessionBinding) -> (
    ResolutionState,
    ResolutionAction,
    SessionBinding,
) {
    (
        ResolutionState::Finished,
        ResolutionAction::Finish(Err(AuthFromSessionError::DbQueryError)),
        session,
    )
}

/// How a resolution begins: a session bound to a user asks for that user,
/// and a session bound to nobody is over at once, as anonymous.
pub open spec fn resolution_started(session: SessionBinding) -> (
    ResolutionState,
    ResolutionAction,
) {
    match session.bound() {
        Some(user_id) => (
            ResolutionState::AwaitingUser { user_id },
            ResolutionAction::FindUser(user_id),
        ),
        None => (ResolutionState::Finished, ResolutionAction::Finish(Ok(AuthContext::Anonymous))),
    }
}

/// One step of a resolution: the state after `event`, what is to be done
/// next, and the session after the step.
///
/// Where the directory found the user that was asked for, the permissions of
/// that user are asked for next. Where it found nobody, or somebody else,
/// the session is stale: it is unbound, and the request is anonymous, with
/// no further lookup. Where the permissions have arrived, the request is
/// from the user with these permissions. A lookup that failed ends the
/// resolution with a failed query, and so does an event that the state does
/// not wait for; the session is then left as it was.
pub open spec fn resolution_stepped<E>(
    state: ResolutionState,
    event: ResolutionEvent<E>,
    session: SessionBinding,
) -> (ResolutionState, ResolutionAction, SessionBinding) {
    match state {
        ResolutionState::AwaitingUser { user_id } => match event {
            ResolutionEvent::User(Ok(Some(user))) => if user.id == user_id {
                (
                    ResolutionState::AwaitingPermissions { user },
                    ResolutionAction::FindPermissions(user_id),
                    session,
                )
            } else {
                (
                    ResolutionState::Finished,
                    ResolutionAction::Finish(Ok(AuthContext::Anonymous)),
                    session.after_unbind(),
                )
            },
            ResolutionEvent::User(Ok(None)) => (
                ResolutionState::Finished,
                ResolutionAction::Finish(Ok(AuthContext::Anonymous)),
                session.after_unbind(),
            ),
            _ => resolution_failed(session),
        },
        ResolutionState::AwaitingPermissions { user } => match event {
            ResolutionEvent::Permissions(Ok(permissions)) => (
                ResolutionState::Finished,
                ResolutionAction::Finish(Ok(AuthContext::Identified { user, permissions })),
                session,
            ),
            _ => resolution_failed(session),
        },
        ResolutionState::Finished => resolution_failed(session),
    }
}

/// Begins to find out who a request is from: says which lookup is needed
/// first, if any.
pub fn resolution_start(session: &SessionBinding) -> (next: (ResolutionState, ResolutionAction))
    ensures
        next == resolution_started(*session),
{
    match session.resolve() {
        Some(user_id) => (
            ResolutionState::AwaitingUser { user_id },
            ResolutionAction::FindUser(user_id),
        ),
        None => (ResolutionState::Finished, ResolutionAction::Finish(Ok(AuthContext::Anonymous))),
    }
}

/// Takes a resolution one step further: told what a lookup came to, it
/// answers what to do next. The session is touched in one case only, when
/// it turns out to be stale: then it is unbound.
pub fn resolution_step<E>(
    state: ResolutionState,
    event: ResolutionEvent<E>,
    session: &mut SessionBinding,
) -> (next: (ResolutionState, ResolutionAction))
    ensures
        (next.0, next.1, *final(session)) == resolution_stepped(state, event, *old(session)),
{
    let failed = (
        ResolutionState::Finished,
        ResolutionAction::Finish(Err(AuthFromSessionError::DbQueryError)),
    );
    match state {
        ResolutionState::AwaitingUser { user_id } => match event {
            ResolutionEvent::User(Ok(Some(user))) => {
                if user.id == user_id {
                    (
                        ResolutionState::AwaitingPermissions { user },
                        ResolutionAction::FindPermissions(user_id),
                    )
                } else {
                    session.unbind();
                    (
                        ResolutionState::Finished,
                        ResolutionAction::Finish(Ok(AuthContext::Anonymous)),
                    )
                }
            },
            ResolutionEvent::User(Ok(None)) => {
                session.unbind();
                (ResolutionState::Finished, ResolutionAction::Finish(Ok(AuthContext::Anonymous)))
            },
            _ => failed,
        },
        ResolutionState::AwaitingPermissions { user } => match event {
            ResolutionEvent::Permissions(Ok(permissions)) => (
                ResolutionState::Finished,
                ResolutionAction::Finish(Ok(AuthContext::Identified { user, permissions })),
            ),
            _ => failed,
        },
        ResolutionState::Finished => failed,
    }
}

/// Who the request is from, given what the session is bound to and what the
/// two lookups came to. A session bound to nobody needs no lookup. A bound
/// session needs the user, and, unless it is stale, the permissions; where
/// a lookup that is needed failed, so does the resolution.
pub open spec fn auth_of_lookups<E>(
    bound: Option<i64>,
    found: Result<Option<UserRecord>, E>,
    permissions: Result<Vec<String>, E>,
) -> Result<AuthContext, AuthFromSessionError> {
    match bound {
        None => Ok(AuthContext::Anonymous),
        Some(_) => match found {
            Err(_) => Err(AuthFromSessionError::DbQueryError),
            Ok(found) => if is_stale(bound, found) {
                Ok(AuthContext::Anonymous)
            } else {
                match permissions {
                    Err(_) => Err(AuthFromSessionError::DbQueryError),
                    Ok(permissions) => Ok(auth_of_lookup(bound, found, permissions)),
                }
            },
        },
    }
}

/// Decides who a request is from, once both lookups have been tried.
///
/// The request fails with a failed query exactly when a lookup that was
/// needed failed, and the session is then left as it was. Otherwise the
/// outcome is that of [`auth_from_lookup`]: a stale session is unbound and
/// anonymous, and a session bound to the user that was found is that
/// user's.
pub fn auth_from_lookups<E>(
    session: &mut SessionBinding,
    found: Result<Option<UserRecord>, E>,
    permissions: Result<Vec<String>, E>,
) -> (outcome: Result<AuthContext, AuthFromSessionError>)
    ensures
        outcome == auth_of_lookups(old(session).bound(), found, permissions),
        *final(session) == match found {
            Ok(found) => if is_stale(old(session).bound(), found) {
                old(session).after_unbind()
            } else {
                *old(session)
            },
            Err(_) => *old(session),
        },
{
    let (state, action) = resolution_start(session);
    match action {
        ResolutionAction::FindUser(_) => {},
        ResolutionAction::Finish(outcome) => {
            return outcome;
        },
        ResolutionAction::FindPermissions(_) => {
            assert(false);
            return Err(AuthFromSessionError::DbQueryError);
        },
    }
    let (state, action) = resolution_step(state, ResolutionEvent::User(found), session);
    match action {
        ResolutionAction::FindPermissions(_) => {},
        ResolutionAction::Finish(outcome) => {
            return outcome;
        },
        ResolutionAction::FindUser(_) => {
            assert(false);
            return Err(AuthFromSessionError::DbQueryError);
        },
    }
    let (_, action) = resolution_step(state, ResolutionEvent::Permissions(permissions), session);
    match action {
        ResolutionAction::Finish(outcome) => outcome,
        _ => {
            assert(false);
            Err(AuthFromSessionError::DbQueryError)
        },
    }
}

/// A resolution touches the session in one case only: when the directory
/// answers that the user the session is bound to is not there. Then the
/// session is unbound and the request is anonymous. A failed lookup leaves
/// the session exactly as it was, and so does every other step.
pub proof fn lemma_resolution_unbinds_only_stale_sessions<E>(
    state: ResolutionState,
    event: ResolutionEvent<E>,
    session: SessionBinding,
)
    ensures
        ({
            let (next, action, after) = resolution_stepped(state, event, session);
            &&& action matches ResolutionAction::Finish(Err(failure)) ==> after == session
                && failure == AuthFromSessionError::DbQueryError && next
                == ResolutionState::Finished
            &&& after != session ==> after == session.after_unbind() && action
                == ResolutionAction::Finish(Ok(AuthContext::Anonymous)) && (state
                matches ResolutionState::AwaitingUser { user_id } && (event
                matches ResolutionEvent::User(Ok(found)) && is_stale(Some(user_id), found)))
            &&& action matches ResolutionAction::Finish(Ok(AuthContext::Identified { user, .. }))
                ==> state == (ResolutionState::AwaitingPermissions { user }) && after == session
        }),
{
}

/// Whether `shown` shows the user `user` with the permissions `permissions`:
/// the id, the login, both addresses, and the permissions one by one, in
/// order.
pub open spec fn shows(
    shown: TemplateContextUser,
    user: UserRecordView,
    permissions: Seq<String>,
) -> bool {
    &&& shown.id == user.id
    &&& shown.login@ == user.login
    &&& shown.html_url@ == user.profile_url
    &&& shown.avatar_url@ == user.avatar_url
    &&& shown.permissions@ == permissions
}

/// What templates get to see of a user and the user's permissions.
pub fn template_user(user: &UserRecord, permissions: &Vec<String>) -> (shown: TemplateContextUser)
    ensures
        shows(shown, user@, permissions@),
{
    let copied = permissions.clone();
    assert(copied@ =~= permissions@);
    TemplateContextUser {
        id: user.id,
        login: user.login.clone(),
        html_url: user.profile_url.clone(),
        avatar_url: user.avatar_url.clone(),
        permissions: copied,
    }
}

/// A session that is bound to nobody makes the request anonymous, whatever
/// the directory and the permission store hold: the optional guard lets a
/// stranger through, the two strict guards refuse for want of a signed-in
/// user, and the session is left as it was.
pub proof fn lemma_unbound_session_is_anonymous(
    session: SessionBinding,
    directory: Map<i64, UserRecordView>,
    store: PermissionStore,
)
    requires
        session.bound().is_none(),
    ensures
        resolved_auth(session.bound(), directory, store) == AuthView::Anonymous,
        user_required(resolved_auth(session.bound(), directory, store)) == Err::<
            (UserRecordView, Set<Seq<char>>),
            _,
        >(UserRequiredFromRequestError::NotLoggedIn),
        admin_only(resolved_auth(session.bound(), directory, store)) == Err::<
            (UserRecordView, Set<Seq<char>>),
            _,
        >(AdminOnlyFromRequestError::NotLoggedIn),
        session_after_resolution(session, directory) == session,
{
}

/// A session bound to a user that the directory does not know heals itself:
/// the request is anonymous, the strict guards refuse it as they refuse a
/// stranger, and afterwards the session holds no key any more.
pub proof fn lemma_stale_session_heals(
    session: SessionBinding,
    user_id: i64,
    directory: Map<i64, UserRecordView>,
    store: PermissionStore,
)
    requires
        session.bound() == Some(user_id),
        !directory.contains_key(user_id),
    ensures
        resolved_auth(session.bound(), directory, store) == AuthView::Anonymous,
        user_required(resolved_auth(session.bound(), directory, store)) == Err::<
            (UserRecordView, Set<Seq<char>>),
            _,
        >(UserRequiredFromRequestError::NotLoggedIn),
        admin_only(resolved_auth(session.bound(), directory, store)) == Err::<
            (UserRecordView, Set<Seq<char>>),
            _,
        >(AdminOnlyFromRequestError::NotLoggedIn),
        !session_after_resolution(session, directory).has_key(),
        session_after_resolution(session, directory).bound().is_none(),
        session_after_resolution(session, directory).changed,
{
}

/// Whoever is identified is the user that the session is bound to, as the
/// directory has it, with exactly the permissions that the store holds for
/// that user; and a session that is not stale is not touched.
pub proof fn lemma_identified_is_bound_user(
    session: SessionBinding,
    directory: Map<i64, UserRecordView>,
    store: PermissionStore,
)
    requires
        is_directory(directory),
    ensures
        resolved_auth(session.bound(), directory, store) matches AuthView::Identified {
            user,
            permissions,
        } ==> session.bound() == Some(user.id) && directory.contains_key(user.id) && user
            == directory[user.id] && permissions == store.names(user.id)
            && session_after_resolution(session, directory) == session,
{
}

/// The administrators' guard lets a signed-in user through exactly when the
/// user holds the `admin` permission, and refuses every other signed-in user
/// as forbidden, never as not signed in. So a user whose only permission is
/// `admin` passes, and one with no permission, or with `banned` alone, is
/// forbidden.
pub proof fn lemma_admin_only_needs_admin(user: UserRecordView, permissions: Set<Seq<char>>)
    ensures
        admin_only(AuthView::Identified { user, permissions }) is Ok <==> permissions.contains(
            ADMIN@,
        ),
        !permissions.contains(ADMIN@) ==> admin_only(AuthView::Identified { user, permissions })
            == Err::<(UserRecordView, Set<Seq<char>>), _>(AdminOnlyFromRequestError::Forbidden),
        admin_only(AuthView::Identified { user, permissions: set![ADMIN@] }) is Ok,
        admin_only(AuthView::Identified { user, permissions: Set::empty() }) == Err::<
            (UserRecordView, Set<Seq<char>>),
            _,
        >(AdminOnlyFromRequestError::Forbidden),
        admin_only(AuthView::Identified { user, permissions: set![BANNED@] }) == Err::<
            (UserRecordView, Set<Seq<char>>),
            _,
        >(AdminOnlyFromRequestError::Forbidden),
{
    reveal_strlit("admin");
    reveal_strlit("banned");
    assert(ADMIN@.len() == 5);
    assert(BANNED@.len() == 6);
}

} // verus!
