use recipe_app::auth::{
    hash_password, verify_password, AuthAdmin, AuthUser, SESSION_IS_ADMIN_KEY, SESSION_USER_ID_KEY,
};

#[test]
fn session_keys() {
    assert_eq!(SESSION_USER_ID_KEY, "user_id");
    assert_eq!(SESSION_IS_ADMIN_KEY, "is_admin");
}

#[test]
fn test_auth_user_no_session_redirects() {
    assert!(AuthUser::from_session(None).is_err());
}

#[test]
fn test_auth_user_valid_session_returns_user_id() {
    let auth = AuthUser::from_session(Some(42)).unwrap();
    assert_eq!(auth.user_id, 42);
}

#[test]
fn test_auth_admin_missing_user_id_forbidden() {
    assert!(AuthAdmin::from_session(None, Some(true)).is_err());
}

#[test]
fn test_auth_admin_not_admin_forbidden() {
    assert!(AuthAdmin::from_session(Some(1), Some(false)).is_err());
}

#[test]
fn test_auth_admin_missing_is_admin_key_forbidden() {
    assert!(AuthAdmin::from_session(Some(1), None).is_err());
}

#[test]
fn test_auth_admin_valid_session_returns_user_id() {
    let auth = AuthAdmin::from_session(Some(7), Some(true)).unwrap();
    assert_eq!(auth.user_id, 7);
}

#[test]
fn hashed_password_verifies_and_others_do_not() {
    let hash = hash_password("newpassword1").unwrap();
    assert!(hash.starts_with("$argon2id$"));
    assert_ne!(hash, "newpassword1");
    assert!(verify_password("newpassword1", &hash).unwrap());
    assert!(!verify_password("oldpassword", &hash).unwrap());
}

#[test]
fn two_hashes_of_one_password_differ_by_salt() {
    let a = hash_password("password").unwrap();
    let b = hash_password("password").unwrap();
    assert_ne!(a, b);
    assert!(verify_password("password", &a).unwrap());
    assert!(verify_password("password", &b).unwrap());
}

#[test]
fn malformed_hash_is_an_error() {
    assert!(verify_password("password", "placeholder").is_err());
    assert!(verify_password("", "placeholder").is_err());
    assert!(verify_password("anything else", "$not$a$phc").is_err());
    let h = hash_password("password").unwrap();
    assert_eq!(verify_password("other password", &h), Ok(false));
}
