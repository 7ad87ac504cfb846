use udevgames::directory::{UserDirectory, UserRecord};
use udevgames::errors::HandlerError;
use udevgames::identity::{
    Authorization, GhCredentials, HttpMethod, HttpRequest, ProviderReply, UserResponse,
};
use udevgames::oauth::{
    callback_start, callback_step, gh_callback, login_with_github, logout, CallbackAction,
    CallbackEvent, CallbackState, GhCallbackQueryParams, LoginPage, AUTHORIZE_URL,
};
use udevgames::session::{SessionBinding, StoredId};

fn credentials() -> GhCredentials {
    GhCredentials { client_id: "id-1".to_string(), client_secret: "s3cret".to_string() }
}

fn pair(name: &str, value: &str) -> (String, String) {
    (name.to_string(), value.to_string())
}

fn token_reply(access_token: &str) -> ProviderReply<Authorization> {
    ProviderReply::Answered {
        status: 200,
        body: Some(Authorization {
            access_token: access_token.to_string(),
            token_type: "bearer".to_string(),
            scope: "".to_string(),
        }),
    }
}

fn profile_reply() -> ProviderReply<UserResponse> {
    ProviderReply::Answered {
        status: 200,
        body: Some(UserResponse {
            id: 7,
            login: "ed".to_string(),
            avatar_url: "a".to_string(),
            html_url: "h".to_string(),
        }),
    }
}

fn sent(action: CallbackAction) -> HttpRequest {
    match action {
        CallbackAction::Send(request) => request,
        _ => panic!("no request was to be sent"),
    }
}

fn finished(action: CallbackAction) -> Result<i64, HandlerError> {
    match action {
        CallbackAction::Finish(outcome) => outcome,
        _ => panic!("the sign-in was not over"),
    }
}

fn is_finished_with(state: &CallbackState, expected: Result<i64, HandlerError>) -> bool {
    match state {
        CallbackState::Finished { outcome } => *outcome == expected,
        _ => false,
    }
}

#[test]
fn login_page_links_to_the_provider() {
    let page = login_with_github(&credentials(), None);
    assert_eq!(
        page,
        LoginPage {
            oauth_url: "http://github.com/login/oauth/authorize?client_id=id-1".to_string(),
            suppress_auth_controls: true,
        }
    );
    assert_eq!(AUTHORIZE_URL, "http://github.com/login/oauth/authorize?client_id=");
}

#[test]
fn login_page_carries_the_redirect_target() {
    let page = login_with_github(&credentials(), Some("https%3A%2F%2Fexample.org%2Fback"));
    assert_eq!(
        page.oauth_url,
        "http://github.com/login/oauth/authorize?client_id=id-1&redirect_uri=https%3A%2F%2Fexample.org%2Fback"
    );
    assert!(page.suppress_auth_controls);
}

#[test]
fn login_page_with_an_empty_client_id() {
    let nobody = GhCredentials { client_id: "".to_string(), client_secret: "".to_string() };
    assert_eq!(
        login_with_github(&nobody, None).oauth_url,
        "http://github.com/login/oauth/authorize?client_id="
    );
}

#[test]
fn callback_signs_the_user_in_step_by_step() {
    let mut directory = UserDirectory::new();
    let mut session = SessionBinding::new();
    let params = GhCallbackQueryParams { code: "abc123".to_string() };

    let (state, action) = callback_start(&credentials(), &params);
    assert!(matches!(state, CallbackState::AwaitingToken));
    let request = sent(action);
    assert_eq!(request.method, HttpMethod::Post);
    assert_eq!(request.url, "https://github.com/login/oauth/access_token");
    assert_eq!(
        request.form,
        vec![pair("client_id", "id-1"), pair("client_secret", "s3cret"), pair("code", "abc123")]
    );
    assert_eq!(request.headers, vec![pair("Accept", "application/json")]);

    let (state, action) = callback_step(state, CallbackEvent::Token(token_reply("tok_x")), &mut session);
    assert!(matches!(state, CallbackState::AwaitingProfile { .. }));
    let request = sent(action);
    assert_eq!(request.method, HttpMethod::Get);
    assert_eq!(request.url, "https://api.github.com/user");
    assert_eq!(
        request.headers,
        vec![pair("Authorization", "token tok_x"), pair("Accept", "application/json")]
    );
    assert_eq!(session, SessionBinding::new());

    let (state, action) = callback_step(state, CallbackEvent::Profile(profile_reply()), &mut session);
    assert!(matches!(state, CallbackState::AwaitingUser { provider_user_id: 7 }));
    let record = match action {
        CallbackAction::Save { provider_id, login, avatar_url, profile_url } => {
            assert_eq!(provider_id, 7);
            assert_eq!(login, "ed");
            assert_eq!(avatar_url, "a");
            assert_eq!(profile_url, "h");
            directory.find_and_update(provider_id, &login, &avatar_url, &profile_url)
        }
        _ => panic!("the user was to be recorded"),
    };
    assert_eq!(session, SessionBinding::new());

    let (state, action) = callback_step(state, CallbackEvent::Saved(Ok(record)), &mut session);
    assert!(is_finished_with(&state, Ok(7)));
    assert_eq!(finished(action), Ok(7));
    assert_eq!(directory.find_by_id(7).unwrap().login, "ed");
    assert_eq!(session.resolve(), Some(7));
    assert_eq!(session.stored, StoredId::Id(7));
}

#[test]
fn callback_signs_the_user_in() {
    let mut directory = UserDirectory::new();
    let mut session = SessionBinding::new();
    let outcome = gh_callback(token_reply("tok_x"), profile_reply(), &mut directory, &mut session);
    assert_eq!(outcome, Ok(7));
    assert_eq!(
        directory.find_by_id(7),
        Some(UserRecord {
            id: 7,
            login: "ed".to_string(),
            avatar_url: "a".to_string(),
            profile_url: "h".to_string(),
        })
    );
    assert_eq!(directory.len(), 1);
    assert_eq!(session.resolve(), Some(7));
}

#[test]
fn callback_updates_a_returning_user() {
    let mut directory = UserDirectory::new();
    directory.find_and_update(7, "eddie", "old", "old");
    let mut session = SessionBinding::from_stored(StoredId::Id(3));
    let outcome = gh_callback(token_reply("tok_x"), profile_reply(), &mut directory, &mut session);
    assert_eq!(outcome, Ok(7));
    assert_eq!(directory.len(), 1);
    assert_eq!(directory.find_by_id(7).unwrap().login, "ed");
    assert_eq!(session.resolve(), Some(7));
}

#[test]
fn failed_exchange_fails_the_callback_and_leaves_the_session() {
    let refused: fn() -> ProviderReply<Authorization> =
        || ProviderReply::Answered { status: 500, body: None };

    let mut directory = UserDirectory::new();
    let mut session = SessionBinding::new();
    let outcome = gh_callback(refused(), profile_reply(), &mut directory, &mut session);
    assert_eq!(outcome, Err(HandlerError::HttpError));
    assert_eq!(session, SessionBinding::new());
    assert_eq!(directory.len(), 0);

    let mut session = SessionBinding::from_stored(StoredId::Id(3));
    let outcome = gh_callback(refused(), profile_reply(), &mut directory, &mut session);
    assert_eq!(outcome, Err(HandlerError::HttpError));
    assert_eq!(session, SessionBinding::from_stored(StoredId::Id(3)));
    assert_eq!(directory.len(), 0);
}

#[test]
fn failed_exchange_ends_the_machine() {
    let mut session = SessionBinding::from_stored(StoredId::Id(3));
    let params = GhCallbackQueryParams { code: "abc123".to_string() };
    let (state, _) = callback_start(&credentials(), &params);
    let reply = ProviderReply::Answered { status: 500, body: None };
    let (state, action) = callback_step(state, CallbackEvent::Token(reply), &mut session);
    assert!(is_finished_with(&state, Err(HandlerError::HttpError)));
    assert_eq!(finished(action), Err(HandlerError::HttpError));
    assert_eq!(session, SessionBinding::from_stored(StoredId::Id(3)));
    assert_eq!(HandlerError::HttpError.status_code(), 500);
}

#[test]
fn failed_profile_fetch_fails_the_callback() {
    let mut directory = UserDirectory::new();
    let mut session = SessionBinding::new();
    let outcome = gh_callback(
        token_reply("tok_x"),
        ProviderReply::Answered { status: 200, body: None },
        &mut directory,
        &mut session,
    );
    assert_eq!(outcome, Err(HandlerError::HttpError));
    assert_eq!(session, SessionBinding::new());
    assert_eq!(directory.len(), 0);

    let outcome = gh_callback(token_reply("tok_x"), ProviderReply::Failed, &mut directory, &mut session);
    assert_eq!(outcome, Err(HandlerError::HttpError));
    assert_eq!(session, SessionBinding::new());
}

#[test]
fn failed_save_fails_the_callback_with_that_failure() {
    let mut session = SessionBinding::new();
    let state = CallbackState::AwaitingUser { provider_user_id: 7 };
    let (state, action) =
        callback_step(state, CallbackEvent::Saved(Err(HandlerError::PoolError)), &mut session);
    assert!(is_finished_with(&state, Err(HandlerError::PoolError)));
    assert_eq!(finished(action), Err(HandlerError::PoolError));
    assert_eq!(session, SessionBinding::new());
}

#[test]
fn record_of_another_user_is_not_bound() {
    let mut session = SessionBinding::new();
    let state = CallbackState::AwaitingUser { provider_user_id: 7 };
    let other = UserRecord {
        id: 8,
        login: "flo".to_string(),
        avatar_url: "".to_string(),
        profile_url: "".to_string(),
    };
    let (_, action) = callback_step(state, CallbackEvent::Saved(Ok(other)), &mut session);
    assert_eq!(finished(action), Err(HandlerError::DatabaseError));
    assert_eq!(session, SessionBinding::new());
}

#[test]
fn events_out_of_turn_end_the_sign_in() {
    let mut session = SessionBinding::new();
    let (_, action) = callback_step(
        CallbackState::AwaitingToken,
        CallbackEvent::Profile(profile_reply()),
        &mut session,
    );
    assert_eq!(finished(action), Err(HandlerError::HttpError));

    let authorization = Authorization {
        access_token: "tok_x".to_string(),
        token_type: "bearer".to_string(),
        scope: "".to_string(),
    };
    let (_, action) = callback_step(
        CallbackState::AwaitingProfile { authorization },
        CallbackEvent::Token(token_reply("tok_y")),
        &mut session,
    );
    assert_eq!(finished(action), Err(HandlerError::HttpError));

    let (_, action) = callback_step(
        CallbackState::AwaitingUser { provider_user_id: 7 },
        CallbackEvent::Profile(profile_reply()),
        &mut session,
    );
    assert_eq!(finished(action), Err(HandlerError::DatabaseError));
    assert_eq!(session, SessionBinding::new());
}

#[test]
fn finished_sign_in_repeats_its_outcome() {
    let mut session = SessionBinding::from_stored(StoredId::Id(7));
    let state = CallbackState::Finished { outcome: Ok(7) };
    let (state, action) = callback_step(state, CallbackEvent::Token(token_reply("t")), &mut session);
    assert!(is_finished_with(&state, Ok(7)));
    assert_eq!(finished(action), Ok(7));
    let (state, action) =
        callback_step(state, CallbackEvent::Saved(Err(HandlerError::PoolError)), &mut session);
    assert!(is_finished_with(&state, Ok(7)));
    assert_eq!(finished(action), Ok(7));
    assert_eq!(session, SessionBinding::from_stored(StoredId::Id(7)));
}

#[test]
fn logout_unbinds() {
    let mut session = SessionBinding::from_stored(StoredId::Id(7));
    logout(&mut session);
    assert_eq!(session.resolve(), None);
    assert_eq!(session.stored, StoredId::Absent);
    assert!(session.changed);
}

#[test]
fn logout_of_a_stranger_changes_nothing() {
    let mut session = SessionBinding::new();
    logout(&mut session);
    assert_eq!(session, SessionBinding::new());
}
