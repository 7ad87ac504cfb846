use udevgames::directory::{UserDirectory, UserRecord};
use udevgames::errors::AuthFromSessionError;
use udevgames::guards::{
    auth_from_lookups, resolution_start, resolution_step, AdminOnly, AuthContext,
    ResolutionAction, ResolutionEvent, ResolutionState, UserOptional, UserRequired,
};
use udevgames::permissions::PermissionStore;
use udevgames::session::{SessionBinding, StoredId};

fn flo() -> UserRecord {
    UserRecord {
        id: 8,
        login: "flo".to_string(),
        avatar_url: "b".to_string(),
        profile_url: "i".to_string(),
    }
}

fn bound_to_flo() -> SessionBinding {
    SessionBinding::from_stored(StoredId::Id(8))
}

fn names(names: &[&str]) -> Vec<String> {
    names.iter().map(|name| name.to_string()).collect()
}

#[test]
fn resolution_of_an_unbound_session_needs_no_lookup() {
    let (state, action) = resolution_start(&SessionBinding::new());
    assert_eq!(state, ResolutionState::Finished);
    assert_eq!(action, ResolutionAction::Finish(Ok(AuthContext::Anonymous)));

    let undecodable = SessionBinding::from_stored(StoredId::Undecodable);
    let (state, action) = resolution_start(&undecodable);
    assert_eq!(state, ResolutionState::Finished);
    assert_eq!(action, ResolutionAction::Finish(Ok(AuthContext::Anonymous)));
}

#[test]
fn resolution_looks_the_user_up_then_the_permissions() {
    let mut session = bound_to_flo();
    let (state, action) = resolution_start(&session);
    assert_eq!(state, ResolutionState::AwaitingUser { user_id: 8 });
    assert_eq!(action, ResolutionAction::FindUser(8));

    let (state, action) =
        resolution_step::<()>(state, ResolutionEvent::User(Ok(Some(flo()))), &mut session);
    assert_eq!(state, ResolutionState::AwaitingPermissions { user: flo() });
    assert_eq!(action, ResolutionAction::FindPermissions(8));
    assert_eq!(session, bound_to_flo());

    let (state, action) = resolution_step::<()>(
        state,
        ResolutionEvent::Permissions(Ok(names(&["banned", "admin"]))),
        &mut session,
    );
    assert_eq!(state, ResolutionState::Finished);
    assert_eq!(
        action,
        ResolutionAction::Finish(Ok(AuthContext::Identified {
            user: flo(),
            permissions: names(&["banned", "admin"]),
        }))
    );
    assert_eq!(session, bound_to_flo());
}

#[test]
fn resolution_unbinds_a_stale_session_without_asking_for_permissions() {
    let mut session = bound_to_flo();
    let (state, _) = resolution_start(&session);
    let (state, action) = resolution_step::<()>(state, ResolutionEvent::User(Ok(None)), &mut session);
    assert_eq!(state, ResolutionState::Finished);
    assert_eq!(action, ResolutionAction::Finish(Ok(AuthContext::Anonymous)));
    assert_eq!(session.stored, StoredId::Absent);
    assert!(session.changed);
}

#[test]
fn resolution_treats_another_users_record_as_stale() {
    let mut session = SessionBinding::from_stored(StoredId::Id(7));
    let (state, _) = resolution_start(&session);
    let (_, action) =
        resolution_step::<()>(state, ResolutionEvent::User(Ok(Some(flo()))), &mut session);
    assert_eq!(action, ResolutionAction::Finish(Ok(AuthContext::Anonymous)));
    assert_eq!(session.stored, StoredId::Absent);
}

#[test]
fn failed_user_lookup_fails_the_resolution_and_leaves_the_session() {
    let mut session = bound_to_flo();
    let (state, _) = resolution_start(&session);
    let (state, action) =
        resolution_step(state, ResolutionEvent::User(Err("connection lost")), &mut session);
    assert_eq!(state, ResolutionState::Finished);
    assert_eq!(action, ResolutionAction::Finish(Err(AuthFromSessionError::DbQueryError)));
    assert_eq!(session, bound_to_flo());
}

#[test]
fn failed_permission_lookup_fails_the_resolution_and_leaves_the_session() {
    let mut session = bound_to_flo();
    let state = ResolutionState::AwaitingPermissions { user: flo() };
    let (state, action) =
        resolution_step(state, ResolutionEvent::Permissions(Err("timeout")), &mut session);
    assert_eq!(state, ResolutionState::Finished);
    assert_eq!(action, ResolutionAction::Finish(Err(AuthFromSessionError::DbQueryError)));
    assert_eq!(session, bound_to_flo());
}

#[test]
fn lookups_out_of_turn_fail_the_resolution() {
    let mut session = bound_to_flo();
    let (_, action) = resolution_step::<()>(
        ResolutionState::AwaitingUser { user_id: 8 },
        ResolutionEvent::Permissions(Ok(names(&["admin"]))),
        &mut session,
    );
    assert_eq!(action, ResolutionAction::Finish(Err(AuthFromSessionError::DbQueryError)));

    let (_, action) = resolution_step::<()>(
        ResolutionState::AwaitingPermissions { user: flo() },
        ResolutionEvent::User(Ok(Some(flo()))),
        &mut session,
    );
    assert_eq!(action, ResolutionAction::Finish(Err(AuthFromSessionError::DbQueryError)));

    let (state, action) = resolution_step::<()>(
        ResolutionState::Finished,
        ResolutionEvent::User(Ok(None)),
        &mut session,
    );
    assert_eq!(state, ResolutionState::Finished);
    assert_eq!(action, ResolutionAction::Finish(Err(AuthFromSessionError::DbQueryError)));
    assert_eq!(session, bound_to_flo());
}

#[test]
fn both_lookups_at_once_for_an_unbound_session_are_ignored() {
    let mut session = SessionBinding::new();
    let outcome = auth_from_lookups(&mut session, Err("down"), Err("down"));
    assert_eq!(outcome, Ok(AuthContext::Anonymous));
    assert_eq!(session, SessionBinding::new());
}

#[test]
fn both_lookups_at_once_identify_the_bound_user() {
    let mut session = bound_to_flo();
    let outcome =
        auth_from_lookups::<()>(&mut session, Ok(Some(flo())), Ok(names(&["admin"])));
    assert_eq!(
        outcome,
        Ok(AuthContext::Identified { user: flo(), permissions: names(&["admin"]) })
    );
    assert_eq!(session, bound_to_flo());
}

#[test]
fn both_lookups_at_once_with_a_failed_user_lookup() {
    let mut session = bound_to_flo();
    let outcome = auth_from_lookups(&mut session, Err("down"), Ok(names(&["admin"])));
    assert_eq!(outcome, Err(AuthFromSessionError::DbQueryError));
    assert_eq!(session, bound_to_flo());
}

#[test]
fn both_lookups_at_once_with_failed_permissions() {
    let mut session = bound_to_flo();
    let outcome = auth_from_lookups(&mut session, Ok(Some(flo())), Err("down"));
    assert_eq!(outcome, Err(AuthFromSessionError::DbQueryError));
    assert_eq!(session, bound_to_flo());
}

#[test]
fn both_lookups_at_once_for_a_stale_session_need_no_permissions() {
    let mut session = bound_to_flo();
    let outcome = auth_from_lookups(&mut session, Ok(None), Err("down"));
    assert_eq!(outcome, Ok(AuthContext::Anonymous));
    assert_eq!(session.stored, StoredId::Absent);
    assert!(session.changed);
}

#[test]
fn guards_hand_templates_the_permissions_in_the_order_granted() {
    let mut directory = UserDirectory::new();
    directory.find_and_update(8, "flo", "b", "i");
    let mut store = PermissionStore::new();
    store.grant(8, "banned");
    store.grant(7, "other");
    store.grant(8, "admin");
    store.grant(8, "banned");

    let mut session = bound_to_flo();
    let optional = UserOptional::from_session(&directory, &store, &mut session);
    assert_eq!(optional.to_context().user.unwrap().permissions, names(&["banned", "admin"]));
    let required = UserRequired::from_session(&directory, &store, &mut session).ok().unwrap();
    assert_eq!(required.to_context().user.permissions, names(&["banned", "admin"]));
    let admin = AdminOnly::from_session(&directory, &store, &mut session).ok().unwrap();
    assert_eq!(admin.to_context().user.permissions, names(&["banned", "admin"]));
}

#[test]
fn guards_from_a_request_keep_the_permissions_as_given() {
    let auth = || AuthContext::Identified {
        user: flo(),
        permissions: names(&["admin", "admin", "x"]),
    };
    let required = UserRequired::from_request(Ok(auth())).ok().unwrap();
    assert_eq!(required.to_context().user.permissions, names(&["admin", "admin", "x"]));
    let admin = AdminOnly::from_request(Ok(auth())).ok().unwrap();
    assert_eq!(admin.to_context().user.permissions, names(&["admin", "admin", "x"]));
    let optional = UserOptional::from_auth(auth());
    assert_eq!(optional.to_context().user.unwrap().permissions, names(&["admin", "admin", "x"]));
}
