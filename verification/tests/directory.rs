use udevgames::directory::{UserDirectory, UserRecord};
use udevgames::permissions::{contains_name, PermissionStore, ADMIN, BANNED};

#[test]
fn empty_directory_knows_nobody() {
    let directory = UserDirectory::new();
    assert_eq!(directory.len(), 0);
    assert_eq!(directory.find_by_id(7), None);
}

#[test]
fn first_sign_in_creates_the_record() {
    let mut directory = UserDirectory::new();
    let record = directory.find_and_update(7, "ed", "a", "h");
    assert_eq!(
        record,
        UserRecord {
            id: 7,
            login: "ed".to_string(),
            avatar_url: "a".to_string(),
            profile_url: "h".to_string(),
        }
    );
    assert_eq!(directory.len(), 1);
    assert_eq!(directory.find_by_id(7), Some(record));
}

#[test]
fn second_sign_in_overwrites_and_adds_nothing() {
    let mut directory = UserDirectory::new();
    let first = directory.find_and_update(7, "ed", "a", "h");
    let second = directory.find_and_update(7, "edward", "a2", "h2");
    assert_eq!(first.id, 7);
    assert_eq!(second.id, 7);
    assert_eq!(second.login, "edward");
    assert_eq!(directory.len(), 1);
    let found = directory.find_by_id(7).unwrap();
    assert_eq!(found.id, 7);
    assert_eq!(found.login, "edward");
    assert_eq!(found.avatar_url, "a2");
    assert_eq!(found.profile_url, "h2");
}

#[test]
fn sign_in_leaves_other_users_alone() {
    let mut directory = UserDirectory::new();
    directory.find_and_update(7, "ed", "a", "h");
    directory.find_and_update(8, "flo", "b", "i");
    directory.find_and_update(7, "edward", "a", "h");
    assert_eq!(directory.len(), 2);
    let other = directory.find_by_id(8).unwrap();
    assert_eq!(other.login, "flo");
    assert_eq!(other.avatar_url, "b");
    assert_eq!(other.profile_url, "i");
}

#[test]
fn logins_may_collide_across_users() {
    let mut directory = UserDirectory::new();
    directory.find_and_update(7, "ed", "a", "h");
    directory.find_and_update(8, "ed", "b", "i");
    assert_eq!(directory.len(), 2);
    assert_eq!(directory.find_by_id(7).unwrap().login, "ed");
    assert_eq!(directory.find_by_id(8).unwrap().login, "ed");
}

#[test]
fn lookup_changes_nothing() {
    let mut directory = UserDirectory::new();
    directory.find_and_update(i64::MIN, "low", "", "");
    directory.find_and_update(i64::MAX, "high", "", "");
    assert_eq!(directory.find_by_id(0), None);
    assert_eq!(directory.find_by_id(i64::MIN).unwrap().login, "low");
    assert_eq!(directory.find_by_id(i64::MAX).unwrap().login, "high");
    assert_eq!(directory.len(), 2);
}

#[test]
fn cloned_record_equals_the_record() {
    let mut directory = UserDirectory::new();
    let record = directory.find_and_update(7, "ed", "a", "h");
    assert_eq!(record.clone(), record);
}

#[test]
fn user_without_grants_has_no_permissions() {
    let store = PermissionStore::new();
    assert_eq!(store.find_by_user_id(7), Vec::<String>::new());
    assert!(!store.holds(7, ADMIN));
}

#[test]
fn grant_is_per_user() {
    let mut store = PermissionStore::new();
    store.grant(7, ADMIN);
    store.grant(8, BANNED);
    assert_eq!(store.find_by_user_id(7), vec!["admin".to_string()]);
    assert_eq!(store.find_by_user_id(8), vec!["banned".to_string()]);
    assert_eq!(store.find_by_user_id(9), Vec::<String>::new());
    assert!(store.holds(7, "admin"));
    assert!(!store.holds(7, "banned"));
    assert!(store.holds(8, "banned"));
}

#[test]
fn granting_twice_is_granting_once() {
    let mut store = PermissionStore::new();
    store.grant(7, ADMIN);
    store.grant(7, ADMIN);
    store.grant(7, BANNED);
    store.grant(7, ADMIN);
    assert_eq!(
        store.find_by_user_id(7),
        vec!["admin".to_string(), "banned".to_string()]
    );
}

#[test]
fn contains_name_compares_whole_names() {
    let names = vec!["administrator".to_string(), "adm".to_string()];
    assert!(!contains_name(&names, ADMIN));
    assert!(contains_name(&names, "adm"));
    assert!(!contains_name(&Vec::new(), ADMIN));
}
