use recipe_app::model::User;
use recipe_app::network::{login_next, login_page_action, LoginAction, LoginEvent, LoginFailure, LoginPageAction};

fn admin() -> User {
    User { id: 1, username: "admin".into(), password_hash: "h".into(), is_admin: true }
}

#[test]
fn login_checks_the_password_of_a_known_user() {
    match login_next(LoginEvent::UserLookedUp(Ok(Some(admin())))) {
        LoginAction::CheckPassword(u) => assert_eq!(u.username, "admin"),
        other => panic!("unexpected {other:?}"),
    }
}

#[test]
fn test_login_unknown_user_redirects_with_error() {
    let a = login_next(LoginEvent::UserLookedUp(Ok(None)));
    assert!(matches!(a, LoginAction::Refuse(LoginFailure::UnknownUser)));
    assert_eq!(a.location(), Some("/login?error=1"));
}

#[test]
fn test_login_wrong_password_redirects_with_error() {
    let a = login_next(LoginEvent::PasswordChecked { user: admin(), outcome: Ok(false) });
    assert!(matches!(a, LoginAction::Refuse(LoginFailure::WrongPassword)));
    assert_eq!(a.location(), Some("/login?error=1"));
}

#[test]
fn lookup_and_hash_errors_are_refusals_too() {
    let a = login_next(LoginEvent::UserLookedUp(Err("db".into())));
    assert_eq!(a.location(), Some("/login?error=1"));
    let a = login_next(LoginEvent::PasswordChecked { user: admin(), outcome: Err("bad".into()) });
    assert_eq!(a.location(), Some("/login?error=1"));
}

#[test]
fn a_matching_password_stores_the_session_then_redirects_home() {
    let a = login_next(LoginEvent::PasswordChecked { user: admin(), outcome: Ok(true) });
    assert!(matches!(a, LoginAction::StoreSession { user_id: 1, is_admin: true }));
    assert_eq!(a.location(), None);
    let done = login_next(LoginEvent::SessionStored { stored: true });
    assert_eq!(done.location(), Some("/"));
    let failed = login_next(LoginEvent::SessionStored { stored: false });
    assert!(matches!(failed, LoginAction::SessionError));
}

#[test]
fn the_login_page_redirects_logged_in_users() {
    assert_eq!(login_page_action(Some(1)), LoginPageAction::RedirectHome);
    assert_eq!(login_page_action(None), LoginPageAction::ShowLoginPage);
}
