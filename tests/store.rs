use student_portal::store::{AuthRepo, StoreError};

const NOW: i64 = 1_700_000_000;

#[test]
fn duplicate_account_is_unique_violation() {
    let mut store = AuthRepo::new();
    assert_eq!(store.create_user("1234567", "hash"), Ok(()));
    assert_eq!(store.create_user("1234567", "other"), Err(StoreError::UniqueViolation));
    assert_eq!(store.get_user_by_id("1234567").unwrap().password, "hash");
}

#[test]
fn reissue_invalidates_previous_verification_token() {
    let mut store = AuthRepo::new();
    store.create_user("1234567", "hash").unwrap();
    let first = store.create_user_verification("1234567", 11, NOW).unwrap();
    let second = store.create_user_verification("1234567", 22, NOW).unwrap();
    assert_ne!(first, second);
    assert_eq!(store.validate_user(first, NOW), Err(StoreError::NotFound));
    assert_eq!(store.validate_user(second, NOW), Ok("1234567".to_string()));
}

#[test]
fn verification_token_is_consumed_once() {
    let mut store = AuthRepo::new();
    store.create_user("1234567", "hash").unwrap();
    let token = store.create_user_verification("1234567", 5, NOW).unwrap();
    assert_eq!(store.validate_user(token, NOW), Ok("1234567".to_string()));
    assert!(store.exists_verified("1234567"));
    assert_eq!(store.validate_user(token, NOW), Err(StoreError::NotFound));
}

#[test]
fn token_for_unknown_account_is_not_found() {
    let mut store = AuthRepo::new();
    assert_eq!(store.create_user_verification("1234567", 1, NOW), Err(StoreError::NotFound));
}

#[test]
fn token_value_held_by_another_account_is_refused() {
    let mut store = AuthRepo::new();
    store.create_user("1111111", "h").unwrap();
    store.create_user("2222222", "h").unwrap();
    store.create_user_verification("1111111", 9, NOW).unwrap();
    assert_eq!(store.create_user_verification("2222222", 9, NOW), Err(StoreError::UniqueViolation));
    assert_eq!(store.validate_user(9, NOW), Ok("1111111".to_string()));
}

#[test]
fn reset_token_needs_a_verified_account() {
    let mut store = AuthRepo::new();
    store.create_user("1234567", "hash").unwrap();
    assert_eq!(store.create_user_reset_password("1234567", 3, NOW), Err(StoreError::NotFound));
    assert_eq!(store.create_user_reset_password("7654321", 3, NOW), Err(StoreError::NotFound));
    let v = store.create_user_verification("1234567", 4, NOW).unwrap();
    store.validate_user(v, NOW).unwrap();
    assert_eq!(store.create_user_reset_password("1234567", 3, NOW), Ok(3));
    assert!(store.user_reset_password_exists(3, NOW));
    assert!(!store.user_reset_password_exists(3, NOW + 900));
}

#[test]
fn reset_token_sets_password_once() {
    let mut store = AuthRepo::new();
    store.create_user("1234567", "old").unwrap();
    let v = store.create_user_verification("1234567", 4, NOW).unwrap();
    store.validate_user(v, NOW).unwrap();
    store.create_user_reset_password("1234567", 8, NOW).unwrap();
    assert_eq!(store.update_user_password(8, "new", NOW), Ok(()));
    assert_eq!(store.get_user_by_id("1234567").unwrap().password, "new");
    assert_eq!(store.update_user_password(8, "newer", NOW), Err(StoreError::NotFound));
    assert_eq!(store.get_user_by_id("1234567").unwrap().password, "new");
}
