use user_service::handlers::{
    classify_storage_error, create_failure_status, create_user, delete_user, get_user,
    health_check, list_users, lookup_failure_status, update_user, CreateUserRequest,
    UpdateUserRequest, STATUS_CONFLICT, STATUS_CREATED, STATUS_INTERNAL_ERROR, STATUS_NOT_FOUND,
    STATUS_NO_CONTENT,
};
use user_service::store::{StoreError, UserStore};

fn create(
    store: &mut UserStore,
    name: &str,
    email: &str,
    now: i64,
) -> Result<(u16, user_service::handlers::UserResponse), u16> {
    create_user(
        store,
        CreateUserRequest { name: name.to_string(), email: email.to_string() },
        now,
    )
}

fn rendered(t: i64) -> String {
    chrono::DateTime::<chrono::Utc>::from_timestamp(t, 0)
        .unwrap()
        .naive_utc()
        .to_string()
}

#[test]
fn health_check_reports_ok() {
    let r = health_check();
    assert_eq!(r.status, "ok");
}

#[test]
fn end_to_end_crud() {
    let mut store = UserStore::new();

    let (code, created) = create(&mut store, "Ann", "ann@x.com", 100).unwrap();
    assert_eq!(code, STATUS_CREATED);
    assert_eq!(created.id, 1);
    assert_eq!(created.name, "Ann");
    assert_eq!(created.email, "ann@x.com");

    let got = get_user(&store, 1).unwrap();
    assert_eq!(got.id, 1);
    assert_eq!(got.name, "Ann");
    assert_eq!(got.email, "ann@x.com");
    assert_eq!(got.created_at, created.created_at);
    assert_eq!(got.updated_at, created.updated_at);

    let req = UpdateUserRequest { name: Some("Annie".to_string()), email: None };
    let updated = update_user(&mut store, 1, req, 200).unwrap();
    assert_eq!(updated.name, "Annie");
    assert_eq!(updated.email, "ann@x.com");

    assert_eq!(delete_user(&mut store, 1), Ok(STATUS_NO_CONTENT));
    assert_eq!(get_user(&store, 1).unwrap_err(), STATUS_NOT_FOUND);
}

#[test]
fn create_assigns_fresh_ids_and_equal_timestamps() {
    let mut store = UserStore::new();
    let (_, first) = create(&mut store, "Ann", "ann@x.com", 50).unwrap();
    let (_, second) = create(&mut store, "Bob", "bob@x.com", 60).unwrap();
    assert_eq!(first.id, 1);
    assert_eq!(second.id, 2);
    assert_eq!(first.created_at, first.updated_at);
    assert_eq!(second.created_at, second.updated_at);
}

#[test]
fn duplicate_email_is_a_conflict() {
    let mut store = UserStore::new();
    let (_, first) = create(&mut store, "Ann", "ann@x.com", 50).unwrap();
    let second = create(&mut store, "Imposter", "ann@x.com", 60);
    assert_eq!(second.unwrap_err(), STATUS_CONFLICT);
    assert_eq!(store.user_count(), 1);
    let still_there = get_user(&store, 1).unwrap();
    assert_eq!(still_there.name, "Ann");
    assert_eq!(still_there.updated_at, first.updated_at);
}

#[test]
fn missing_id_is_not_found() {
    let mut store = UserStore::new();
    create(&mut store, "Ann", "ann@x.com", 50).unwrap();
    assert_eq!(get_user(&store, 5).unwrap_err(), STATUS_NOT_FOUND);
    assert_eq!(get_user(&store, 2).unwrap_err(), STATUS_NOT_FOUND);
}

#[test]
fn empty_update_refreshes_timestamp_only() {
    let mut store = UserStore::new();
    create(&mut store, "Ann", "ann@x.com", 100).unwrap();
    let req = UpdateUserRequest { name: None, email: None };
    let updated = update_user(&mut store, 1, req, 200).unwrap();
    assert_eq!(updated.name, "Ann");
    assert_eq!(updated.email, "ann@x.com");
    assert_eq!(updated.created_at, rendered(100));
    assert_eq!(updated.updated_at, rendered(200));
}

#[test]
fn update_of_one_field_keeps_the_other() {
    let mut store = UserStore::new();
    create(&mut store, "Ann", "ann@x.com", 100).unwrap();

    let name_only = UpdateUserRequest { name: Some("Annie".to_string()), email: None };
    let after_name = update_user(&mut store, 1, name_only, 150).unwrap();
    assert_eq!(after_name.name, "Annie");
    assert_eq!(after_name.email, "ann@x.com");

    let email_only = UpdateUserRequest { name: None, email: Some("annie@x.com".to_string()) };
    let after_email = update_user(&mut store, 1, email_only, 160).unwrap();
    assert_eq!(after_email.name, "Annie");
    assert_eq!(after_email.email, "annie@x.com");
}

#[test]
fn update_to_taken_email_is_a_server_error() {
    let mut store = UserStore::new();
    create(&mut store, "Ann", "ann@x.com", 100).unwrap();
    create(&mut store, "Bob", "bob@x.com", 110).unwrap();
    let req = UpdateUserRequest { name: None, email: Some("ann@x.com".to_string()) };
    assert_eq!(update_user(&mut store, 2, req, 120).unwrap_err(), STATUS_INTERNAL_ERROR);
    let bob = get_user(&store, 2).unwrap();
    assert_eq!(bob.email, "bob@x.com");
}

#[test]
fn delete_is_idempotent_in_failure() {
    let mut store = UserStore::new();
    create(&mut store, "Ann", "ann@x.com", 100).unwrap();
    assert_eq!(delete_user(&mut store, 1), Ok(STATUS_NO_CONTENT));
    assert_eq!(get_user(&store, 1).unwrap_err(), STATUS_NOT_FOUND);
    assert_eq!(delete_user(&mut store, 1), Err(STATUS_NOT_FOUND));
}

#[test]
fn population_after_creates_and_deletes() {
    let mut store = UserStore::new();
    create(&mut store, "Ann", "ann@x.com", 10).unwrap();
    create(&mut store, "Bob", "bob@x.com", 20).unwrap();
    create(&mut store, "Cid", "cid@x.com", 30).unwrap();
    delete_user(&mut store, 2).unwrap();
    assert_eq!(store.user_count(), 2);
    let listed = list_users(&store);
    assert_eq!(listed.len(), 2);
    assert_eq!(listed[0].name, "Ann");
    assert_eq!(listed[1].name, "Cid");
}

#[test]
fn deleted_id_is_never_reused() {
    let mut store = UserStore::new();
    create(&mut store, "Ann", "ann@x.com", 10).unwrap();
    create(&mut store, "Bob", "bob@x.com", 20).unwrap();
    delete_user(&mut store, 2).unwrap();
    let (_, third) = create(&mut store, "Cid", "cid@x.com", 30).unwrap();
    assert_eq!(third.id, 3);
}

#[test]
fn timestamps_render_as_readable_text() {
    let mut store = UserStore::new();
    let (_, created) = create(&mut store, "Ann", "ann@x.com", 0).unwrap();
    assert_eq!(created.created_at, "1970-01-01 00:00:00");
    let (_, later) = create(&mut store, "Bob", "bob@x.com", 1_700_000_000).unwrap();
    assert_eq!(later.created_at, rendered(1_700_000_000));
    assert_ne!(later.created_at, created.created_at);
}

#[test]
fn duplicate_key_messages_classify_as_unique_violations() {
    let pg = "ERROR: duplicate key value violates unique constraint \"users_email_key\"";
    assert_eq!(classify_storage_error(pg), StoreError::UniqueViolation);
    let generic = "query failed: unique constraint violated on column email";
    assert_eq!(classify_storage_error(generic), StoreError::UniqueViolation);
    let other = "connection refused (os error 111)";
    assert_eq!(classify_storage_error(other), StoreError::Other);
    assert_eq!(classify_storage_error(""), StoreError::Other);
}

#[test]
fn failure_statuses_follow_the_error_kind() {
    assert_eq!(create_failure_status(&StoreError::UniqueViolation), STATUS_CONFLICT);
    assert_eq!(create_failure_status(&StoreError::Other), STATUS_INTERNAL_ERROR);
    assert_eq!(lookup_failure_status(&StoreError::NotFound), STATUS_NOT_FOUND);
    assert_eq!(lookup_failure_status(&StoreError::UniqueViolation), STATUS_INTERNAL_ERROR);
    assert_eq!(lookup_failure_status(&StoreError::Other), STATUS_INTERNAL_ERROR);
}
