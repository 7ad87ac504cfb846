//! The sign-in controller: sending a visitor to the provider, completing the
//! sign-in when the visitor comes back, and signing out.
//!
//! Completing a sign-in means waiting three times for somebody else: for the
//! provider to exchange the code, for the provider to say who the user is,
//! and for the directory to record the user. The controller does none of the
//! waiting. It is a machine that is told what happened and answers what to
//! do next; [`gh_callback`] drives it against a directory held in memory.

use crate::directory::{upserted, UserDirectory, UserRecord};
use crate::errors::HandlerError;
use crate::identity::{
    accepted, exchange_code, exchange_code_request, exchange_code_request_view, fetch_profile,
    fetch_profile_request, fetch_profile_request_view, Authorization, AuthorizationView,
    GhCredentials, HttpRequest, HttpRequestView, ProviderReply, UserResponse,
};
use crate::session::SessionBinding;
use vstd::prelude::*;

verus! {

/// The provider's page that asks the visitor to authorize this site, up to
/// the client id.
pub const AUTHORIZE_URL: &'static str = "http://github.com/login/oauth/authorize?client_id=";

/// What the provider sends the visitor back with.
pub struct GhCallbackQueryParams {
    /// The authorization code, to be exchanged for an access token.
    pub code: String,
}

/// What the sign-in page needs to know.
#[derive(Debug, PartialEq, Eq)]
pub struct LoginPage {
    /// Where the link to the provider points.
    pub oauth_url: String,
    /// The page is where one signs in, so it offers no other sign-in
    /// controls.
    pub suppress_auth_controls: bool,
}

/// The address that starts a sign-in: the provider's authorization page for
/// this client, and, where the visitor is to come back to a particular
/// place, that place as the `redirect_uri`.
pub open spec fn oauth_url(client_id: Seq<char>, redirect_target: Option<Seq<char>>) -> Seq<char> {
    match redirect_target {
        Some(target) => AUTHORIZE_URL@ + client_id + "&redirect_uri="@ + target,
        None => AUTHORIZE_URL@ + client_id,
    }
}

/// Presents the sign-in page: a link to the provider, built from the public
/// client id and, if there is one, the place to come back to. Changes
/// nothing. `redirect_target` is put into the address as it is given, so it
/// has to be escaped for use in a query already.
pub fn login_with_github(gh_credentials: &GhCredentials, redirect_target: Option<&str>) -> (page:
    LoginPage)
    ensures
        page.oauth_url@ == oauth_url(
            gh_credentials.client_id@,
            match redirect_target {
                Some(target) => Some(target@),
                None => None,
            },
        ),
        page.suppress_auth_controls,
{
    let mut oauth_url = AUTHORIZE_URL.to_owned();
    oauth_url.append(gh_credentials.client_id.as_str());
    match redirect_target {
        Some(target) => {
            oauth_url.append("&redirect_uri=");
            oauth_url.append(target);
        },
        None => {},
    }
    LoginPage { oauth_url, suppress_auth_controls: true }
}

/// How far a sign-in has come.
pub enum CallbackState {
    /// The code has been sent to the provider.
    AwaitingToken,
    /// The provider has been asked who the user is. The authorization is
    /// kept until it answers, and no longer.
    AwaitingProfile { authorization: Authorization },
    /// The directory has been asked to record the user `provider_user_id`.
    AwaitingUser { provider_user_id: i64 },
    /// The sign-in is over: `outcome` is the id of the user who is now
    /// signed in, or why nobody is.
    Finished { outcome: Result<i64, HandlerError> },
}

/// What happened while the controller waited.
pub enum CallbackEvent {
    /// The provider replied to the code.
    Token(ProviderReply<Authorization>),
    /// The provider replied to the question who the user is.
    Profile(ProviderReply<UserResponse>),
    /// The directory recorded the user, or failed to.
    Saved(Result<UserRecord, HandlerError>),
}

/// What the controller wants done next.
pub enum CallbackAction {
    /// Send this request to the provider, once, and report the reply.
    Send(HttpRequest),
    /// Record this user in the directory, in one step, and report the
    /// record.
    Save { provider_id: i64, login: String, avatar_url: String, profile_url: String },
    /// Nothing: the sign-in is over, with this outcome.
    Finish(Result<i64, HandlerError>),
}

/// What a [`CallbackState`] holds, as mathematical values.
pub enum CallbackStateView {
    AwaitingToken,
    AwaitingProfile { authorization: AuthorizationView },
    AwaitingUser { provider_user_id: i64 },
    Finished { outcome: Result<i64, HandlerError> },
}

/// What a [`CallbackAction`] holds, as mathematical values.
pub enum CallbackActionView {
    Send(HttpRequestView),
    Save { provider_id: i64, login: Seq<char>, avatar_url: Seq<char>, profile_url: Seq<char> },
    Finish(Result<i64, HandlerError>),
}

impl View for CallbackState {
    type V = CallbackStateView;

    open spec fn view(&self) -> CallbackStateView {
        match *self {
            CallbackState::AwaitingToken => CallbackStateView::AwaitingToken,
            CallbackState::AwaitingProfile { authorization } => CallbackStateView::AwaitingProfile {
                authorization: authorization@,
            },
            CallbackState::AwaitingUser { provider_user_id } => CallbackStateView::AwaitingUser {
                provider_user_id,
            },
            CallbackState::Finished { outcome } => CallbackStateView::Finished { outcome },
        }
    }
}

impl View for CallbackAction {
    type V = CallbackActionView;

    open spec fn view(&self) -> CallbackActionView {
        match *self {
            CallbackAction::Send(request) => CallbackActionView::Send(request@),
            CallbackAction::Save {
                provider_id,
                login,
                avatar_url,
                profile_url,
            } => CallbackActionView::Save {
                provider_id,
                login: login@,
                avatar_url: avatar_url@,
                profile_url: profile_url@,
            },
            CallbackAction::Finish(outcome) => CallbackActionView::Finish(outcome),
        }
    }
}

/// A sign-in that ends without anybody signed in: the failure is the
/// outcome, and the session is as it was.
pub open spec fn callback_failed(failure: HandlerError, session: SessionBinding) -> (
    CallbackStateView,
    CallbackActionView,
    SessionBinding,
) {
    (
        CallbackStateView::Finished { outcome: Err(failure) },
        CallbackActionView::Finish(Err(failure)),
        session,
    )
}

/// One step of a sign-in: the state after `event`, what is to be done next,
/// and the session after the step.
///
/// The steps follow one another strictly. An accepted reply to the code
/// leads to the question who the user is, asked with the token from that
/// reply. An accepted reply to that question leads to recording the user.
/// Only when the directory reports the user recorded is the session bound,
/// to the id of that record. A reply that is not accepted, a failure to
/// record, a record for another user than the one asked for, and an event
/// that the state does not wait for each end the sign-in with a failure. A
/// sign-in that is over stays over and repeats its outcome.
pub open spec fn stepped(state: CallbackStateView, event: CallbackEvent, session: SessionBinding) -> (
    CallbackStateView,
    CallbackActionView,
    SessionBinding,
) {
    match state {
        CallbackStateView::Finished { outcome } => (
            state,
            CallbackActionView::Finish(outcome),
            session,
        ),
        CallbackStateView::AwaitingToken => match event {
            CallbackEvent::Token(reply) => match accepted(reply) {
                Ok(authorization) => (
                    CallbackStateView::AwaitingProfile { authorization: authorization@ },
                    CallbackActionView::Send(
                        fetch_profile_request_view(authorization.access_token@),
                    ),
                    session,
                ),
                Err(failure) => callback_failed(failure, session),
            },
            _ => callback_failed(HandlerError::HttpError, session),
        },
        CallbackStateView::AwaitingProfile { authorization } => match event {
            CallbackEvent::Profile(reply) => match accepted(reply) {
                Ok(profile) => (
                    CallbackStateView::AwaitingUser { provider_user_id: profile.id },
                    CallbackActionView::Save {
                        provider_id: profile.id,
                        login: profile.login@,
                        avatar_url: profile.avatar_url@,
                        profile_url: profile.html_url@,
                    },
                    session,
                ),
                Err(failure) => callback_failed(failure, session),
            },
            _ => callback_failed(HandlerError::HttpError, session),
        },
        CallbackStateView::AwaitingUser { provider_user_id } => match event {
            CallbackEvent::Saved(Ok(user)) => if user.id == provider_user_id {
                (
                    CallbackStateView::Finished { outcome: Ok(user.id) },
                    CallbackActionView::Finish(Ok(user.id)),
                    session.after_bind(user.id),
                )
            } else {
                callback_failed(HandlerError::DatabaseError, session)
            },
            CallbackEvent::Saved(Err(failure)) => callback_failed(failure, session),
            _ => callback_failed(HandlerError::DatabaseError, session),
        },
    }
}

/// Ends a sign-in with a failure.
fn fail(failure: HandlerError) -> (next: (CallbackState, CallbackAction))
    ensures
        next.0@ == (CallbackStateView::Finished { outcome: Err(failure) }),
        next.1@ == CallbackActionView::Finish(Err(failure)),
{
    (CallbackState::Finished { outcome: Err(failure) }, CallbackAction::Finish(Err(failure)))
}

/// Begins to complete a sign-in: the code that the visitor came back with is
/// to be exchanged for an access token.
pub fn callback_start(gh_credentials: &GhCredentials, query_params: &GhCallbackQueryParams) -> (next:
    (CallbackState, CallbackAction))
    ensures
        next.0@ == CallbackStateView::AwaitingToken,
        next.1@ == CallbackActionView::Send(
            exchange_code_request_view(
                gh_credentials.client_id@,
                gh_credentials.client_secret@,
                query_params.code@,
            ),
        ),
{
    let request = exchange_code_request(gh_credentials, query_params.code.as_str());
    (CallbackState::AwaitingToken, CallbackAction::Send(request))
}

/// Takes a sign-in one step further: told what happened, it answers what to
/// do next. The session is touched in one case only, when the directory has
/// recorded the user: then it is bound to that user.
pub fn callback_step(state: CallbackState, event: CallbackEvent, session: &mut SessionBinding) -> (next: (
    CallbackState,
    CallbackAction,
))
    ensures
        (next.0@, next.1@, *final(session)) == stepped(state@, event, *old(session)),
{
    match state {
        CallbackState::Finished { outcome } => (
            CallbackState::Finished { outcome },
            CallbackAction::Finish(outcome),
        ),
        CallbackState::AwaitingToken => match event {
            CallbackEvent::Token(reply) => match exchange_code(reply) {
                Ok(authorization) => {
                    let request = fetch_profile_request(authorization.access_token.as_str());
                    (CallbackState::AwaitingProfile { authorization }, CallbackAction::Send(request))
                },
                Err(failure) => fail(failure),
            },
            _ => fail(HandlerError::HttpError),
        },
        CallbackState::AwaitingProfile { authorization } => match event {
            CallbackEvent::Profile(reply) => match fetch_profile(reply, authorization) {
                Ok(identity) => (
                    CallbackState::AwaitingUser { provider_user_id: identity.provider_user_id },
                    CallbackAction::Save {
                        provider_id: identity.provider_user_id,
                        login: identity.login,
                        avatar_url: identity.avatar_url,
                        profile_url: identity.profile_url,
                    },
                ),
                Err(failure) => fail(failure),
            },
            _ => fail(HandlerError::HttpError),
        },
        CallbackState::AwaitingUser { provider_user_id } => match event {
            CallbackEvent::Saved(Ok(user)) => {
                if user.id == provider_user_id {
                    session.bind(user.id);
                    (
                        CallbackState::Finished { outcome: Ok(user.id) },
                        CallbackAction::Finish(Ok(user.id)),
                    )
                } else {
                    fail(HandlerError::DatabaseError)
                }
            },
            CallbackEvent::Saved(Err(failure)) => fail(failure),
            _ => fail(HandlerError::DatabaseError),
        },
    }
}

/// What the provider's two replies say together: who the user is, where both
/// are accepted, and the first failure otherwise. The second reply counts
/// only where the first was accepted, since without a token nothing can be
/// asked.
pub open spec fn callback_profile(
    token_reply: ProviderReply<Authorization>,
    profile_reply: ProviderReply<UserResponse>,
) -> Result<UserResponse, HandlerError> {
    match accepted(token_reply) {
        Ok(_) => accepted(profile_reply),
        Err(failure) => Err(failure),
    }
}

/// Completes a sign-in against a directory held in memory, given what the
/// provider replied to the code and to the question who the user is.
///
/// Where both replies are accepted, the user is recorded in the directory,
/// the session is bound to the user, and the user's id is returned. Where
/// one is not, the sign-in fails with a provider failure, and neither the
/// directory nor the session is touched.
pub fn gh_callback(
    token_reply: ProviderReply<Authorization>,
    profile_reply: ProviderReply<UserResponse>,
    directory: &mut UserDirectory,
    session: &mut SessionBinding,
) -> (outcome: Result<i64, HandlerError>)
    ensures
        match callback_profile(token_reply, profile_reply) {
            Ok(profile) => outcome == Ok::<i64, HandlerError>(profile.id) && final(directory)@
                == upserted(
                old(directory)@,
                profile.id,
                profile.login@,
                profile.avatar_url@,
                profile.html_url@,
            ) && *final(session) == old(session).after_bind(profile.id),
            Err(failure) => outcome == Err::<i64, HandlerError>(failure) && final(directory)@
                == old(directory)@ && *final(session) == *old(session),
        },
        callback_profile(token_reply, profile_reply) is Err ==> outcome == Err::<i64, HandlerError>(
            HandlerError::HttpError,
        ),
{
    let (state, action) = callback_step(
        CallbackState::AwaitingToken,
        CallbackEvent::Token(token_reply),
        session,
    );
    match action {
        CallbackAction::Send(_) => {},
        CallbackAction::Finish(outcome) => {
            return outcome;
        },
        CallbackAction::Save { .. } => {
            assert(false);
            return Err(HandlerError::HttpError);
        },
    }
    let (state, action) = callback_step(state, CallbackEvent::Profile(profile_reply), session);
    let record = match action {
        CallbackAction::Save { provider_id, login, avatar_url, profile_url } => {
            directory.find_and_update(
                provider_id,
                login.as_str(),
                avatar_url.as_str(),
                profile_url.as_str(),
            )
        },
        CallbackAction::Finish(outcome) => {
            return outcome;
        },
        CallbackAction::Send(_) => {
            assert(false);
            return Err(HandlerError::HttpError);
        },
    };
    let (_, action) = callback_step(state, CallbackEvent::Saved(Ok(record)), session);
    match action {
        CallbackAction::Finish(outcome) => outcome,
        _ => {
            assert(false);
            Err(HandlerError::DatabaseError)
        },
    }
}

/// The user that a step signs in, if it signs anybody in: the step at which
/// the directory reports the user recorded that it was asked to record.
pub open spec fn signed_in_by(state: CallbackStateView, event: CallbackEvent) -> Option<i64> {
    match state {
        CallbackStateView::AwaitingUser { provider_user_id } => match event {
            CallbackEvent::Saved(Ok(user)) => if user.id == provider_user_id {
                Some(provider_user_id)
            } else {
                None
            },
            _ => None,
        },
        _ => None,
    }
}

/// A sign-in touches the session in one case only: when the directory has
/// recorded the user that was asked for. Then the session is bound to that
/// user and the sign-in ends well. Every other step, and every failure in
/// particular, leaves the session exactly as it was.
pub proof fn lemma_session_bound_only_on_success(
    state: CallbackStateView,
    event: CallbackEvent,
    session: SessionBinding,
)
    ensures
        ({
            let (next, action, after) = stepped(state, event, session);
            &&& match signed_in_by(state, event) {
                Some(user_id) => after == session.after_bind(user_id) && action
                    == CallbackActionView::Finish(Ok(user_id)) && next
                    == (CallbackStateView::Finished { outcome: Ok(user_id) }),
                None => after == session,
            }
            &&& action matches CallbackActionView::Finish(Err(failure)) ==> after == session && (
            state is Finished || next == (CallbackStateView::Finished { outcome: Err(failure) }))
        }),
{
}

/// The authorization is used once, to ask who the user is, and is gone once
/// the provider has replied: what follows the reply is the same whatever the
/// token was.
pub proof fn lemma_token_is_not_kept(
    first: AuthorizationView,
    second: AuthorizationView,
    event: CallbackEvent,
    session: SessionBinding,
)
    ensures
        stepped(CallbackStateView::AwaitingProfile { authorization: first }, event, session)
            == stepped(CallbackStateView::AwaitingProfile { authorization: second }, event, session),
{
}

/// A sign-in that is over stays over: whatever it is told, it repeats its
/// outcome and leaves the session alone.
pub proof fn lemma_finished_stays_finished(
    outcome: Result<i64, HandlerError>,
    event: CallbackEvent,
    session: SessionBinding,
)
    ensures
        stepped(CallbackStateView::Finished { outcome }, event, session) == (
            CallbackStateView::Finished { outcome },
            CallbackActionView::Finish(outcome),
            session,
        ),
{
}

/// Signs out: the session is unbound, whatever it held. This cannot fail.
pub fn logout(session: &mut SessionBinding)
    ensures
        *final(session) == old(session).after_unbind(),
        final(session).bound().is_none(),
{
    session.unbind();
}

} // verus!
