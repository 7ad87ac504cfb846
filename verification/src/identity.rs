//! The identity client: what is said to the provider, and what is made of
//! its answers.
//!
//! Signing in takes two calls to the provider, one after the other: the
//! authorization code is exchanged for an access token, and the token is used
//! once to ask who the user is. This module describes both requests as plain
//! values and judges both replies. It sends nothing itself: whoever drives it
//! sends each request once and reports what came back.

use crate::errors::HandlerError;
use vstd::prelude::*;

verus! {

/// Where an authorization code is exchanged for an access token.
pub const ACCESS_TOKEN_URL: &'static str = "https://github.com/login/oauth/access_token";

/// Where the provider tells who an access token belongs to.
pub const USER_URL: &'static str = "https://api.github.com/user";

/// The user agent that the provider is addressed with. It refuses clients
/// that name none.
pub const USER_AGENT: &'static str = "Rust/reqwest/uDevGames.com";

/// The two things the provider knows this site by.
pub struct GhCredentials {
    /// The client id. It is public: every visitor who signs in gets to see
    /// it.
    pub client_id: String,
    /// The secret that only this site and the provider know.
    pub client_secret: String,
}

/// The provider's answer to a code: the access token with which the user's
/// identity can be asked for, once.
#[derive(PartialEq, Eq)]
pub struct Authorization {
    pub access_token: String,
    pub token_type: String,
    pub scope: String,
}

/// What an [`Authorization`] holds, as mathematical values.
pub struct AuthorizationView {
    pub access_token: Seq<char>,
    pub token_type: Seq<char>,
    pub scope: Seq<char>,
}

impl View for Authorization {
    type V = AuthorizationView;

    open spec fn view(&self) -> AuthorizationView {
        AuthorizationView {
            access_token: self.access_token@,
            token_type: self.token_type@,
            scope: self.scope@,
        }
    }
}

/// The provider's answer to the question who the user is.
#[derive(Debug, PartialEq, Eq)]
pub struct UserResponse {
    pub id: i64,
    pub login: String,
    pub avatar_url: String,
    pub html_url: String,
}

/// A user as the provider identified it, together with the token that was
/// used to ask. It lives for the length of one sign-in and is never stored;
/// what is stored of it is a user record, which has no place for the token.
#[derive(PartialEq, Eq)]
pub struct ProviderIdentity {
    pub provider_user_id: i64,
    pub login: String,
    pub avatar_url: String,
    pub profile_url: String,
    pub access_token: String,
}

/// What a [`ProviderIdentity`] holds, as mathematical values.
pub struct ProviderIdentityView {
    pub provider_user_id: i64,
    pub login: Seq<char>,
    pub avatar_url: Seq<char>,
    pub profile_url: Seq<char>,
    pub access_token: Seq<char>,
}

impl View for ProviderIdentity {
    type V = ProviderIdentityView;

    open spec fn view(&self) -> ProviderIdentityView {
        ProviderIdentityView {
            provider_user_id: self.provider_user_id,
            login: self.login@,
            avatar_url: self.avatar_url@,
            profile_url: self.profile_url@,
            access_token: self.access_token@,
        }
    }
}

/// How a request is made.
#[derive(Clone, Copy, Debug, PartialEq, Eq, Structural)]
pub enum HttpMethod {
    Get,
    Post,
}

/// A request to the provider: everything that has to be sent, and nothing
/// about how.
#[derive(PartialEq, Eq)]
pub struct HttpRequest {
    pub method: HttpMethod,
    pub url: String,
    /// The headers, as names and values, in the order they are to be set.
    pub headers: Vec<(String, String)>,
    /// The fields of the form that makes up the body. Empty for a request
    /// without a body.
    pub form: Vec<(String, String)>,
}

/// What an [`HttpRequest`] holds, as mathematical values.
pub struct HttpRequestView {
    pub method: HttpMethod,
    pub url: Seq<char>,
    pub headers: Seq<(Seq<char>, Seq<char>)>,
    pub form: Seq<(Seq<char>, Seq<char>)>,
}

/// A list of names and values, as mathematical values.
pub open spec fn pairs_view(pairs: Seq<(String, String)>) -> Seq<(Seq<char>, Seq<char>)> {
    Seq::new(pairs.len(), |i: int| (pairs[i].0@, pairs[i].1@))
}

impl View for HttpRequest {
    type V = HttpRequestView;

    open spec fn view(&self) -> HttpRequestView {
        HttpRequestView {
            method: self.method,
            url: self.url@,
            headers: pairs_view(self.headers@),
            form: pairs_view(self.form@),
        }
    }
}

/// What came back from the provider.
#[derive(Debug, PartialEq, Eq)]
pub enum ProviderReply<T> {
    /// Nothing: the request failed on the way.
    Failed,
    /// An answer with the HTTP status `status`. `body` is what the body of
    /// the answer says, and nothing where it is not of the expected shape.
    Answered { status: u16, body: Option<T> },
}

/// Whether an HTTP status reports success.
pub open spec fn is_success(status: u16) -> bool {
    200 <= status <= 299
}

/// What a reply is worth: its body where the provider answered with a
/// success status and a body of the expected shape, a provider failure in
/// every other case.
pub open spec fn accepted<T>(reply: ProviderReply<T>) -> Result<T, HandlerError> {
    match reply {
        ProviderReply::Answered { status, body: Some(body) } => if is_success(status) {
            Ok(body)
        } else {
            Err(HandlerError::HttpError)
        },
        _ => Err(HandlerError::HttpError),
    }
}

impl<T> ProviderReply<T> {
    /// Judges a reply: the body of an answer with a success status and a
    /// body of the expected shape is accepted, everything else is a provider
    /// failure. Nothing is asked a second time.
    pub fn accept(self) -> (outcome: Result<T, HandlerError>)
        ensures
            outcome == accepted(self),
    {
        match self {
            ProviderReply::Answered { status, body } => {
                if 200 <= status && status <= 299 {
                    match body {
                        Some(body) => Ok(body),
                        None => Err(HandlerError::HttpError),
                    }
                } else {
                    Err(HandlerError::HttpError)
                }
            },
            ProviderReply::Failed => Err(HandlerError::HttpError),
        }
    }
}

/// The text that stands for an authorization in logs, where it goes by the
/// name of the provider's response: the kind of token and its scope. The
/// token itself has no part in it.
pub open spec fn redacted_authorization(token_type: Seq<char>, scope: Seq<char>) -> Seq<char> {
    "AuthorizationResponse { access_token: REDACTED, token_type: "@ + token_type + ", scope: "@
        + scope + " }"@
}

impl Authorization {
    /// What may be logged of an authorization. Whoever holds the access
    /// token can act as the user at the provider, so the token is left out,
    /// whatever it is.
    pub fn debug_string(&self) -> (text: String)
        ensures
            text@ == redacted_authorization(self.token_type@, self.scope@),
    {
        let mut text = "AuthorizationResponse { access_token: REDACTED, token_type: ".to_owned();
        text.append(self.token_type.as_str());
        text.append(", scope: ");
        text.append(self.scope.as_str());
        text.append(" }");
        text
    }
}

/// The request that exchanges a code for an access token: a form with the
/// client id, the client secret and the code, posted to the provider, which
/// is asked to answer in JSON.
pub open spec fn exchange_code_request_view(
    client_id: Seq<char>,
    client_secret: Seq<char>,
    code: Seq<char>,
) -> HttpRequestView {
    HttpRequestView {
        method: HttpMethod::Post,
        url: ACCESS_TOKEN_URL@,
        headers: seq![("Accept"@, "application/json"@)],
        form: seq![
            ("client_id"@, client_id),
            ("client_secret"@, client_secret),
            ("code"@, code),
        ],
    }
}

/// The request that asks who an access token belongs to: a GET that shows
/// the token in its `Authorization` header and asks for an answer in JSON.
pub open spec fn fetch_profile_request_view(access_token: Seq<char>) -> HttpRequestView {
    HttpRequestView {
        method: HttpMethod::Get,
        url: USER_URL@,
        headers: seq![
            ("Authorization"@, "token "@ + access_token),
            ("Accept"@, "application/json"@),
        ],
        form: Seq::empty(),
    }
}

/// Builds the request that exchanges `code` for an access token.
pub fn exchange_code_request(gh_credentials: &GhCredentials, code: &str) -> (request: HttpRequest)
    ensures
        request@ == exchange_code_request_view(
            gh_credentials.client_id@,
            gh_credentials.client_secret@,
            code@,
        ),
{
    let mut form: Vec<(String, String)> = Vec::new();
    form.push(("client_id".to_owned(), gh_credentials.client_id.clone()));
    form.push(("client_secret".to_owned(), gh_credentials.client_secret.clone()));
    form.push(("code".to_owned(), code.to_owned()));
    let mut headers: Vec<(String, String)> = Vec::new();
    headers.push(("Accept".to_owned(), "application/json".to_owned()));
    let request = HttpRequest {
        method: HttpMethod::Post,
        url: ACCESS_TOKEN_URL.to_owned(),
        headers,
        form,
    };
    proof {
        let wanted = exchange_code_request_view(
            gh_credentials.client_id@,
            gh_credentials.client_secret@,
            code@,
        );
        assert(request@.headers =~= wanted.headers);
        assert(request@.form =~= wanted.form);
    }
    request
}

/// Judges the provider's answer to a code.
pub fn exchange_code(reply: ProviderReply<Authorization>) -> (outcome: Result<
    Authorization,
    HandlerError,
>)
    ensures
        outcome == accepted(reply),
{
    reply.accept()
}

/// Builds the request that asks who `access_token` belongs to.
pub fn fetch_profile_request(access_token: &str) -> (request: HttpRequest)
    ensures
        request@ == fetch_profile_request_view(access_token@),
{
    let mut shown = "token ".to_owned();
    shown.append(access_token);
    let mut headers: Vec<(String, String)> = Vec::new();
    headers.push(("Authorization".to_owned(), shown));
    headers.push(("Accept".to_owned(), "application/json".to_owned()));
    let request = HttpRequest {
        method: HttpMethod::Get,
        url: USER_URL.to_owned(),
        headers,
        form: Vec::new(),
    };
    proof {
        let wanted = fetch_profile_request_view(access_token@);
        assert(request@.headers =~= wanted.headers);
        assert(request@.form =~= wanted.form);
    }
    request
}

/// The identity that an accepted profile makes, for the token that was used
/// to ask for it.
pub open spec fn identity_of(profile: UserResponse, access_token: Seq<char>) -> ProviderIdentityView {
    ProviderIdentityView {
        provider_user_id: profile.id,
        login: profile.login@,
        avatar_url: profile.avatar_url@,
        profile_url: profile.html_url@,
        access_token,
    }
}

/// Judges the provider's answer to the question who the user is, and puts
/// what it says together with the token that was used to ask. The
/// authorization is used up by this.
pub fn fetch_profile(reply: ProviderReply<UserResponse>, authorization: Authorization) -> (outcome:
    Result<ProviderIdentity, HandlerError>)
    ensures
        match accepted(reply) {
            Ok(profile) => outcome matches Ok(identity) && identity@ == identity_of(
                profile,
                authorization.access_token@,
            ),
            Err(failure) => outcome == Err::<ProviderIdentity, _>(failure),
        },
{
    match reply.accept() {
        Ok(profile) => Ok(
            ProviderIdentity {
                provider_user_id: profile.id,
                login: profile.login,
                avatar_url: profile.avatar_url,
                profile_url: profile.html_url,
                access_token: authorization.access_token,
            },
        ),
        Err(e) => Err(e),
    }
}

} // verus!
